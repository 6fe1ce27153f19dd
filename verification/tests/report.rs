use opcua_subscriber::error::{
    ConnectError, DiscoveryError, Failure, MonitorError, SubscriptionError,
};
use opcua_subscriber::report::{
    disconnect_error_line, discovery_error_line, discovery_started_line, failure_line,
    status_debug, subscription_created_line,
};
use opcua_subscriber::status::{StatusCode, BAD_NODE_ID_UNKNOWN};

#[test]
fn failure_lines_name_the_phase() {
    let status = StatusCode::new(BAD_NODE_ID_UNKNOWN);
    assert_eq!(
        Failure::Discovery(DiscoveryError { status }).describe(),
        "Discovery Failed: BadNodeIdUnknown (2150891520)"
    );
    assert_eq!(
        Failure::Connect(ConnectError::Rejected(status)).describe(),
        "Connect Failed: BadNodeIdUnknown"
    );
    assert_eq!(
        Failure::Connect(ConnectError::Configuration).describe(),
        "Connect Failed: the client configuration is not valid"
    );
    assert_eq!(
        Failure::Connect(ConnectError::Closed).describe(),
        "Connect Failed: the session closed before it was connected"
    );
    assert_eq!(
        Failure::Subscription(SubscriptionError { status }).describe(),
        "Error, got an issue while Subscribing BadNodeIdUnknown"
    );
    assert_eq!(
        Failure::Monitor(MonitorError::Rejected(status)).describe(),
        "Error, got an issue while Subscribing BadNodeIdUnknown"
    );
    assert_eq!(
        Failure::Monitor(MonitorError::CountMismatch { expected: 12, received: 0 }).describe(),
        "Error, got an issue while Subscribing: asked for 12 items, got 0 results"
    );
    assert_eq!(Failure::Protocol.describe(), "Unexpected event");
}

#[test]
fn failure_status() {
    let status = StatusCode::new(7);
    assert_eq!(Failure::Discovery(DiscoveryError { status }).status(), Some(status));
    assert_eq!(Failure::Connect(ConnectError::Rejected(status)).status(), Some(status));
    assert_eq!(Failure::Connect(ConnectError::Configuration).status(), None);
    assert_eq!(Failure::Connect(ConnectError::Closed).status(), None);
    assert_eq!(Failure::Subscription(SubscriptionError { status }).status(), Some(status));
    assert_eq!(Failure::Monitor(MonitorError::Rejected(status)).status(), Some(status));
    assert_eq!(
        Failure::Monitor(MonitorError::CountMismatch { expected: 1, received: 2 }).status(),
        None
    );
    assert_eq!(Failure::Protocol.status(), None);
}

#[test]
fn failure_line_from_a_status_text() {
    let status = StatusCode::new(7);
    assert_eq!(
        failure_line(Failure::Discovery(DiscoveryError { status }), "why"),
        "Discovery Failed: why (7)"
    );
    assert_eq!(failure_line(Failure::Protocol, "ignored"), "Unexpected event");
}

#[test]
fn single_lines() {
    assert_eq!(
        discovery_started_line("opc.tcp://localhost:4840"),
        "Attempting to connect to discovery server opc.tcp://localhost:4840 ..."
    );
    assert_eq!(
        discovery_error_line("BadTimeout", 0x800A_0000),
        "ERROR: Cannot find servers on discovery server: BadTimeout (2148139008)"
    );
    assert_eq!(disconnect_error_line("BadTimeout"), "Disconnect failed: BadTimeout");
    assert_eq!(subscription_created_line(0), "Created PubSub SubscriptionID: 0");
    assert_eq!(subscription_created_line(u32::MAX), "Created PubSub SubscriptionID: 4294967295");
}

#[test]
fn status_for_debugging_agrees_with_the_stack() {
    for bits in [0u32, 0x8034_0000, 0x800A_0000, 0x4092_0000, 0x80AE_0000] {
        let code = StatusCode::new(bits);
        let expected = format!("{:?}", opcua::types::StatusCode::from(bits));
        assert_eq!(status_debug(&code.text(), bits), expected);
    }
    assert_eq!(status_debug("Good", 0), "Good (0)");
}
