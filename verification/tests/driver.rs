use opcua_subscriber::discovery::DiscoveredServer;
use opcua_subscriber::dispatch::{dispatch, Notification};
use opcua_subscriber::driver::{Action, Driver, DriverConfig, DriverState, Event, Reaction};
use opcua_subscriber::endpoint::{
    ClientConfig, EndpointDescriptor, IdentityToken, SecurityMode, SecurityPolicy,
    UserTokenPolicy,
};
use opcua_subscriber::error::{
    ConnectError, DiscoveryError, Failure, MonitorError, SubscriptionError,
};
use opcua_subscriber::node::NodeId;
use opcua_subscriber::status::{
    StatusCode, BAD_CONNECTION_CLOSED, BAD_NODE_ID_UNKNOWN, BAD_SUBSCRIPTION_ID_INVALID, GOOD,
};
use opcua_subscriber::subscription::{
    monitor_requests, monitored_items, CreateResult, SubscriptionParams, TimestampsToReturn,
};
use opcua_subscriber::value::{DataValue, Value};

fn client() -> ClientConfig {
    ClientConfig {
        application_name: "Simple Client".to_string(),
        application_uri: "urn:SimpleClient".to_string(),
        product_uri: "urn:SimpleClient".to_string(),
        trust_server_certs: true,
        create_sample_keypair: true,
        session_timeout: 5,
    }
}

fn params() -> SubscriptionParams {
    SubscriptionParams {
        publishing_interval_ms: 1000,
        lifetime_count: 10,
        max_keep_alive_count: 30,
        max_notifications_per_publish: 0,
        priority: 0,
        publishing_enabled: true,
    }
}

fn nodes() -> Vec<NodeId> {
    vec![NodeId::text(2, "v1"), NodeId::text(2, "v2"), NodeId::text(2, "v3"), NodeId::text(2, "v4")]
}

fn config() -> DriverConfig {
    DriverConfig::anonymous("X".to_string(), client(), params(), nodes())
}

fn one_server() -> Vec<DiscoveredServer> {
    vec![DiscoveredServer {
        application_name: "server".to_string(),
        discovery_urls: vec!["opc.tcp://h:4840".to_string()],
    }]
}

fn good(id: u32) -> CreateResult {
    CreateResult { status: StatusCode::new(GOOD), monitored_item_id: id }
}

fn driver_in_subscribing() -> Driver {
    let mut driver = Driver::new(config());
    driver.step(Event::Start);
    driver.step(Event::Discovered(Ok(one_server())));
    driver.step(Event::SessionOpened(Ok(())));
    driver.step(Event::ConnectionResolved(true));
    assert_eq!(driver.state(), DriverState::Subscribing);
    driver
}

fn all_events() -> Vec<Event> {
    vec![
        Event::Start,
        Event::Discovered(Ok(one_server())),
        Event::Discovered(Err(StatusCode::new(BAD_CONNECTION_CLOSED))),
        Event::SessionOpened(Ok(())),
        Event::SessionOpened(Err(ConnectError::Configuration)),
        Event::ConnectionResolved(true),
        Event::ConnectionResolved(false),
        Event::SubscriptionCreated(Ok(1)),
        Event::SubscriptionCreated(Err(StatusCode::new(BAD_CONNECTION_CLOSED))),
        Event::ItemsCreated(Ok(vec![good(1), good(2), good(3), good(4)])),
        Event::ItemsCreated(Err(StatusCode::new(BAD_CONNECTION_CLOSED))),
        Event::SessionClosed(StatusCode::new(GOOD)),
        Event::Disconnected(Ok(())),
        Event::Disconnected(Err(StatusCode::new(BAD_CONNECTION_CLOSED))),
    ]
}

#[test]
fn new_driver_is_idle() {
    let driver = Driver::new(config());
    assert_eq!(driver.state(), DriverState::Idle);
    assert_eq!(driver.subscription_id(), None);
    assert!(driver.items().is_empty());
    assert_eq!(driver.failure(), None);
    assert!(!driver.is_finished());
    assert_eq!(driver.exit_code(), 0);
    assert_eq!(driver.config(), &config());
}

#[test]
fn anonymous_configuration() {
    let config = config();
    assert_eq!(config.discovery_url, "X");
    assert_eq!(config.security_policy, SecurityPolicy::NoSecurity);
    assert_eq!(config.security_mode, SecurityMode::NoSecurity);
    assert_eq!(config.user_token_policy, UserTokenPolicy::anonymous());
    assert_eq!(config.identity, IdentityToken::Anonymous);
    assert_eq!(config.timestamps, TimestampsToReturn::Both);
    assert_eq!(config.subscription, params());
    assert_eq!(config.nodes, nodes());
}

#[test]
fn start_asks_for_discovery() {
    let mut driver = Driver::new(config());
    let reaction = driver.step(Event::Start);
    assert_eq!(reaction.action, Action::Discover { url: "X".to_string() });
    assert_eq!(reaction.log, vec!["Attempting to connect to discovery server X ..."]);
    assert_eq!(driver.state(), DriverState::Discovering);
}

#[test]
fn end_to_end_run_with_one_server() {
    let mut driver = Driver::new(config());
    assert_eq!(driver.step(Event::Start).action, Action::Discover { url: "X".to_string() });

    let reaction = driver.step(Event::Discovered(Ok(one_server())));
    assert_eq!(driver.state(), DriverState::Connecting);
    match &reaction.action {
        Action::Connect { config, endpoint, identity } => {
            assert_eq!(config, &client());
            assert_eq!(endpoint.url(), "opc.tcp://h:4840");
            assert_eq!(endpoint.security_policy(), "None");
            assert_eq!(endpoint.security_mode(), SecurityMode::NoSecurity);
            assert_eq!(endpoint, &EndpointDescriptor::unsecured("opc.tcp://h:4840".to_string()));
            assert_eq!(identity, &IdentityToken::Anonymous);
        }
        other => panic!("not a connect: {:?}", other),
    }
    assert_eq!(
        reaction.log,
        vec![
            "Discovery server responded with 1 servers:",
            "Server: server",
            "  Discovery URL: opc.tcp://h:4840",
        ]
    );

    let reaction = driver.step(Event::SessionOpened(Ok(())));
    assert_eq!(reaction, Reaction { action: Action::WaitForConnection, log: vec![] });
    assert_eq!(driver.state(), DriverState::WaitingForConnection);

    let reaction = driver.step(Event::ConnectionResolved(true));
    assert_eq!(reaction.action, Action::CreateSubscription { params: params() });
    match reaction.action {
        Action::CreateSubscription { params } => {
            assert_eq!(params.publishing_interval_ms, 1000);
            assert_eq!(params.lifetime_count, 10);
            assert_eq!(params.max_keep_alive_count, 30);
        }
        other => panic!("not a subscription: {:?}", other),
    }
    assert_eq!(driver.state(), DriverState::Subscribing);

    let reaction = driver.step(Event::SubscriptionCreated(Ok(77)));
    assert_eq!(
        reaction.action,
        Action::CreateMonitoredItems {
            subscription_id: 77,
            timestamps: TimestampsToReturn::Both,
            requests: monitor_requests(&nodes()),
        }
    );
    assert_eq!(reaction.log, vec!["Created PubSub SubscriptionID: 77"]);
    assert_eq!(driver.state(), DriverState::Subscribing);
    assert_eq!(driver.subscription_id(), Some(77));

    let reaction =
        driver.step(Event::ItemsCreated(Ok(vec![good(1), good(2), good(3), good(4)])));
    assert_eq!(reaction, Reaction { action: Action::AwaitSessionEnd, log: vec![] });
    assert_eq!(driver.state(), DriverState::Active);
    assert_eq!(driver.items().len(), 4);
    for (i, result) in driver.items().iter().enumerate() {
        assert_eq!(result.node_id, nodes()[i]);
        assert_eq!(result.monitored_item_id, i as u32 + 1);
        assert!(result.is_created());
    }

    let items = monitored_items(driver.items());
    let pushed = DataValue::present(Value::Signed(42), Some(StatusCode::new(GOOD)), None, None);
    assert_eq!(
        dispatch(pushed, &items[1]),
        Notification::Value {
            node_id: NodeId::text(2, "v2"),
            value: Value::Signed(42),
            status: StatusCode::new(GOOD),
            source_timestamp: None,
            server_timestamp: None,
        }
    );

    let reaction = driver.step(Event::SessionClosed(StatusCode::new(GOOD)));
    assert_eq!(reaction, Reaction { action: Action::Stop, log: vec![] });
    assert_eq!(driver.state(), DriverState::Terminated);
    assert!(driver.is_finished());
    assert_eq!(driver.failure(), None);
    assert_eq!(driver.exit_code(), 0);
}

#[test]
fn no_servers_end_the_run_without_a_session() {
    let mut driver = Driver::new(config());
    let mut actions = vec![driver.step(Event::Start).action];
    let reaction = driver.step(Event::Discovered(Ok(vec![])));
    assert_eq!(
        reaction.log,
        vec![
            "Discovery server responded with 0 servers:",
            "No servers found at the discovery URL"
        ]
    );
    actions.push(reaction.action);
    assert_eq!(driver.state(), DriverState::Terminated);
    assert_eq!(driver.failure(), None);
    assert_eq!(driver.exit_code(), 0);
    for event in all_events() {
        actions.push(driver.step(event).action);
        assert_eq!(driver.state(), DriverState::Terminated);
    }
    assert_eq!(actions[0], Action::Discover { url: "X".to_string() });
    for action in &actions[1..] {
        assert_eq!(action, &Action::Stop);
    }
}

#[test]
fn servers_without_urls_end_the_run_like_no_servers() {
    let mut driver = Driver::new(config());
    driver.step(Event::Start);
    let servers = vec![DiscoveredServer {
        application_name: "mute".to_string(),
        discovery_urls: vec![],
    }];
    let reaction = driver.step(Event::Discovered(Ok(servers)));
    assert_eq!(reaction.action, Action::Stop);
    assert_eq!(
        reaction.log,
        vec![
            "Discovery server responded with 1 servers:",
            "Server: mute",
            "  No discovery URLs for this server",
            "No servers found at the discovery URL",
        ]
    );
    assert_eq!(driver.state(), DriverState::Terminated);
    assert_eq!(driver.failure(), None);
}

#[test]
fn discovery_error_fails_the_run() {
    let mut driver = Driver::new(config());
    driver.step(Event::Start);
    let status = StatusCode::new(BAD_CONNECTION_CLOSED);
    let reaction = driver.step(Event::Discovered(Err(status)));
    assert_eq!(reaction.action, Action::Stop);
    assert_eq!(
        reaction.log,
        vec![
            "ERROR: Cannot find servers on discovery server: BadConnectionClosed (2158886912)",
            "Discovery Failed: BadConnectionClosed (2158886912)",
        ]
    );
    assert_eq!(driver.state(), DriverState::Failed);
    assert_eq!(driver.failure(), Some(Failure::Discovery(DiscoveryError { status })));
    assert_eq!(driver.exit_code(), 1);
    assert!(driver.is_finished());
}

#[test]
fn the_first_url_is_selected() {
    let mut driver = Driver::new(config());
    driver.step(Event::Start);
    let servers = vec![
        DiscoveredServer { application_name: "none".to_string(), discovery_urls: vec![] },
        DiscoveredServer {
            application_name: "two".to_string(),
            discovery_urls: vec!["opc.tcp://b:1".to_string(), "opc.tcp://b:2".to_string()],
        },
        DiscoveredServer {
            application_name: "one".to_string(),
            discovery_urls: vec!["opc.tcp://c:1".to_string()],
        },
    ];
    match driver.step(Event::Discovered(Ok(servers))).action {
        Action::Connect { endpoint, .. } => assert_eq!(endpoint.url(), "opc.tcp://b:1"),
        other => panic!("not a connect: {:?}", other),
    }
}

#[test]
fn the_endpoint_follows_the_configuration() {
    let mut config = config();
    config.security_policy = SecurityPolicy::Basic256Sha256;
    config.security_mode = SecurityMode::SignAndEncrypt;
    config.identity =
        IdentityToken::UserName { user: "u".to_string(), password: "p".to_string() };
    let mut driver = Driver::new(config);
    driver.step(Event::Start);
    match driver.step(Event::Discovered(Ok(one_server()))).action {
        Action::Connect { endpoint, identity, .. } => {
            assert_eq!(endpoint.security_policy(), "Basic256Sha256");
            assert_eq!(endpoint.security_mode(), SecurityMode::SignAndEncrypt);
            assert_eq!(
                identity,
                IdentityToken::UserName { user: "u".to_string(), password: "p".to_string() }
            );
        }
        other => panic!("not a connect: {:?}", other),
    }
}

#[test]
fn negotiation_error_fails_the_run() {
    let rejected = ConnectError::Rejected(StatusCode::new(0x8021_0000));
    let cases = vec![
        (ConnectError::Configuration, "Connect Failed: the client configuration is not valid"),
        (rejected, "Connect Failed: BadIdentityTokenRejected"),
    ];
    for (error, line) in cases {
        let mut driver = Driver::new(config());
        driver.step(Event::Start);
        driver.step(Event::Discovered(Ok(one_server())));
        let reaction = driver.step(Event::SessionOpened(Err(error)));
        assert_eq!(reaction, Reaction { action: Action::Stop, log: vec![line.to_string()] });
        assert_eq!(driver.state(), DriverState::Failed);
        assert_eq!(driver.failure(), Some(Failure::Connect(error)));
        assert_eq!(driver.exit_code(), 1);
    }
}

#[test]
fn session_that_never_connects_fails_the_run() {
    let mut driver = Driver::new(config());
    driver.step(Event::Start);
    driver.step(Event::Discovered(Ok(one_server())));
    driver.step(Event::SessionOpened(Ok(())));
    let reaction = driver.step(Event::ConnectionResolved(false));
    assert_eq!(reaction.action, Action::Stop);
    assert_eq!(
        reaction.log,
        vec!["Connect Failed: the session closed before it was connected"]
    );
    assert_eq!(driver.state(), DriverState::Failed);
    assert_eq!(driver.failure(), Some(Failure::Connect(ConnectError::Closed)));
}

#[test]
fn subscription_error_disconnects_the_session() {
    let mut driver = driver_in_subscribing();
    let status = StatusCode::new(0x8077_0000);
    let reaction = driver.step(Event::SubscriptionCreated(Err(status)));
    assert_eq!(reaction.action, Action::Disconnect);
    assert_eq!(reaction.log, vec!["Error, got an issue while Subscribing BadTooManySubscriptions"]);
    assert_eq!(driver.state(), DriverState::Disconnecting);
    assert_eq!(driver.failure(), Some(Failure::Subscription(SubscriptionError { status })));

    let reaction = driver.step(Event::Disconnected(Ok(())));
    assert_eq!(reaction, Reaction { action: Action::Stop, log: vec![] });
    assert_eq!(driver.state(), DriverState::Terminated);
    assert_eq!(driver.failure(), Some(Failure::Subscription(SubscriptionError { status })));
    assert_eq!(driver.exit_code(), 1);
}

#[test]
fn rejected_items_disconnect_the_session() {
    let mut driver = driver_in_subscribing();
    driver.step(Event::SubscriptionCreated(Ok(5)));
    let status = StatusCode::new(BAD_SUBSCRIPTION_ID_INVALID);
    let reaction = driver.step(Event::ItemsCreated(Err(status)));
    assert_eq!(reaction.action, Action::Disconnect);
    assert_eq!(
        reaction.log,
        vec!["Error, got an issue while Subscribing BadSubscriptionIdInvalid"]
    );
    assert_eq!(driver.state(), DriverState::Disconnecting);
    assert_eq!(driver.failure(), Some(Failure::Monitor(MonitorError::Rejected(status))));
    assert!(driver.items().is_empty());
}

#[test]
fn answer_of_another_length_disconnects_the_session() {
    let mut driver = driver_in_subscribing();
    driver.step(Event::SubscriptionCreated(Ok(5)));
    let reaction = driver.step(Event::ItemsCreated(Ok(vec![good(1)])));
    assert_eq!(reaction.action, Action::Disconnect);
    assert_eq!(
        reaction.log,
        vec!["Error, got an issue while Subscribing: asked for 4 items, got 1 results"]
    );
    assert_eq!(
        driver.failure(),
        Some(Failure::Monitor(MonitorError::CountMismatch { expected: 4, received: 1 }))
    );
}

#[test]
fn one_unknown_node_leaves_the_others_dispatchable() {
    let mut driver = driver_in_subscribing();
    driver.step(Event::SubscriptionCreated(Ok(5)));
    let unknown = CreateResult { status: StatusCode::new(BAD_NODE_ID_UNKNOWN), monitored_item_id: 0 };
    let reaction = driver.step(Event::ItemsCreated(Ok(vec![good(1), good(2), unknown, good(4)])));
    assert_eq!(reaction.action, Action::AwaitSessionEnd);
    assert_eq!(driver.state(), DriverState::Active);
    assert_eq!(driver.failure(), None);
    let created: Vec<bool> = driver.items().iter().map(|r| r.is_created()).collect();
    assert_eq!(created, vec![true, true, false, true]);
    assert_eq!(driver.items()[2].status, StatusCode::new(BAD_NODE_ID_UNKNOWN));
    assert_eq!(driver.items()[2].node_id, NodeId::text(2, "v3"));

    let items = monitored_items(driver.items());
    assert_eq!(items.len(), 3);
    let names = ["v1", "v2", "v4"];
    for (item, name) in items.iter().zip(names.iter()) {
        let data = DataValue::present(Value::Unsigned(1), None, None, None);
        match dispatch(data, item) {
            Notification::Value { node_id, .. } => assert_eq!(node_id, NodeId::text(2, name)),
            other => panic!("not a value: {:?}", other),
        }
    }
}

#[test]
fn all_items_refused_still_makes_the_run_active() {
    let mut driver = driver_in_subscribing();
    driver.step(Event::SubscriptionCreated(Ok(5)));
    let unknown = CreateResult { status: StatusCode::new(BAD_NODE_ID_UNKNOWN), monitored_item_id: 0 };
    driver.step(Event::ItemsCreated(Ok(vec![unknown; 4])));
    assert_eq!(driver.state(), DriverState::Active);
    assert_eq!(driver.items().len(), 4);
    assert!(monitored_items(driver.items()).is_empty());
}

#[test]
fn disconnect_error_is_logged_and_ends_the_run() {
    let mut driver = driver_in_subscribing();
    let status = StatusCode::new(0x8077_0000);
    driver.step(Event::SubscriptionCreated(Err(status)));
    let failure = driver.failure();
    let reaction = driver.step(Event::Disconnected(Err(StatusCode::new(BAD_CONNECTION_CLOSED))));
    assert_eq!(
        reaction,
        Reaction {
            action: Action::Stop,
            log: vec!["Disconnect failed: BadConnectionClosed".to_string()]
        }
    );
    assert_eq!(driver.state(), DriverState::Terminated);
    assert_eq!(driver.failure(), failure);
}

#[test]
fn disconnect_reported_twice_changes_nothing() {
    let mut driver = driver_in_subscribing();
    driver.step(Event::SubscriptionCreated(Err(StatusCode::new(0x8077_0000))));
    driver.step(Event::Disconnected(Ok(())));
    let failure = driver.failure();
    for outcome in [Ok(()), Err(StatusCode::new(BAD_CONNECTION_CLOSED))] {
        let reaction = driver.step(Event::Disconnected(outcome));
        assert_eq!(reaction, Reaction { action: Action::Stop, log: vec![] });
        assert_eq!(driver.state(), DriverState::Terminated);
        assert_eq!(driver.failure(), failure);
    }
}

#[test]
fn disconnect_report_without_a_session_does_not_panic() {
    let mut driver = Driver::new(config());
    let reaction = driver.step(Event::Disconnected(Err(StatusCode::new(BAD_CONNECTION_CLOSED))));
    assert_eq!(reaction.action, Action::Stop);
    assert!(driver.is_finished());
}

#[test]
fn unexpected_event_fails_the_run() {
    let mut driver = Driver::new(config());
    let reaction = driver.step(Event::ConnectionResolved(true));
    assert_eq!(reaction, Reaction { action: Action::Stop, log: vec!["Unexpected event".to_string()] });
    assert_eq!(driver.state(), DriverState::Failed);
    assert_eq!(driver.failure(), Some(Failure::Protocol));
    assert_eq!(driver.exit_code(), 1);
}

#[test]
fn second_subscription_answer_is_unexpected() {
    let mut driver = driver_in_subscribing();
    driver.step(Event::SubscriptionCreated(Ok(5)));
    let reaction = driver.step(Event::SubscriptionCreated(Ok(6)));
    assert_eq!(reaction.action, Action::Stop);
    assert_eq!(driver.state(), DriverState::Failed);
    assert_eq!(driver.subscription_id(), Some(5));
}

#[test]
fn items_before_the_subscription_are_unexpected() {
    let mut driver = driver_in_subscribing();
    let reaction = driver.step(Event::ItemsCreated(Ok(vec![good(1), good(2), good(3), good(4)])));
    assert_eq!(reaction.action, Action::Stop);
    assert_eq!(driver.state(), DriverState::Failed);
    assert!(driver.items().is_empty());
}

#[test]
fn an_earlier_failure_stays_recorded() {
    let mut driver = driver_in_subscribing();
    let status = StatusCode::new(0x8077_0000);
    driver.step(Event::SubscriptionCreated(Err(status)));
    let reaction = driver.step(Event::Start);
    assert_eq!(reaction, Reaction { action: Action::Stop, log: vec![] });
    assert_eq!(driver.state(), DriverState::Failed);
    assert_eq!(driver.failure(), Some(Failure::Subscription(SubscriptionError { status })));
}

#[test]
fn failed_is_reachable_from_every_state_that_is_not_final() {
    let prefixes: Vec<Vec<Event>> = vec![
        vec![],
        vec![Event::Start],
        vec![Event::Start, Event::Discovered(Ok(one_server()))],
        vec![Event::Start, Event::Discovered(Ok(one_server())), Event::SessionOpened(Ok(()))],
        vec![
            Event::Start,
            Event::Discovered(Ok(one_server())),
            Event::SessionOpened(Ok(())),
            Event::ConnectionResolved(true),
        ],
        vec![
            Event::Start,
            Event::Discovered(Ok(one_server())),
            Event::SessionOpened(Ok(())),
            Event::ConnectionResolved(true),
            Event::SubscriptionCreated(Ok(1)),
            Event::ItemsCreated(Ok(vec![good(1), good(2), good(3), good(4)])),
        ],
        vec![
            Event::Start,
            Event::Discovered(Ok(one_server())),
            Event::SessionOpened(Ok(())),
            Event::ConnectionResolved(true),
            Event::SubscriptionCreated(Err(StatusCode::new(BAD_CONNECTION_CLOSED))),
        ],
    ];
    let states = [
        DriverState::Idle,
        DriverState::Discovering,
        DriverState::Connecting,
        DriverState::WaitingForConnection,
        DriverState::Subscribing,
        DriverState::Active,
        DriverState::Disconnecting,
    ];
    for (prefix, state) in prefixes.into_iter().zip(states.iter()) {
        let mut driver = Driver::new(config());
        for event in prefix {
            driver.step(event);
        }
        assert_eq!(driver.state(), *state);
        let unexpected =
            if *state == DriverState::Idle { Event::ConnectionResolved(true) } else { Event::Start };
        assert_eq!(driver.step(unexpected).action, Action::Stop);
        assert_eq!(driver.state(), DriverState::Failed);
    }
}

#[test]
fn final_states_ignore_every_event() {
    let mut failed = Driver::new(config());
    failed.step(Event::Start);
    failed.step(Event::Discovered(Err(StatusCode::new(BAD_CONNECTION_CLOSED))));
    let failure = failed.failure();
    for event in all_events() {
        let reaction = failed.step(event);
        assert_eq!(reaction, Reaction { action: Action::Stop, log: vec![] });
        assert_eq!(failed.state(), DriverState::Failed);
        assert_eq!(failed.failure(), failure);
    }
}

#[test]
fn final_states() {
    assert!(DriverState::Terminated.is_final());
    assert!(DriverState::Failed.is_final());
    for state in [
        DriverState::Idle,
        DriverState::Discovering,
        DriverState::Connecting,
        DriverState::WaitingForConnection,
        DriverState::Subscribing,
        DriverState::Active,
        DriverState::Disconnecting,
    ] {
        assert!(!state.is_final());
    }
}
