//! The error of each phase of a run.

use vstd::prelude::*;
use crate::status::StatusCode;

verus! {

/// The discovery endpoint could not be queried.
#[derive(Clone, Copy, Debug, PartialEq, Eq, Structural)]
pub struct DiscoveryError {
    pub status: StatusCode,
}

/// No session could be established.
#[derive(Clone, Copy, Debug, PartialEq, Eq, Structural)]
pub enum ConnectError {
    /// The client could not be built from its configuration.
    Configuration,
    /// The endpoint, the security negotiation or the identity was rejected.
    Rejected(StatusCode),
    /// The session ended before it reported that it was connected.
    Closed,
}

/// The server did not create the subscription.
#[derive(Clone, Copy, Debug, PartialEq, Eq, Structural)]
pub struct SubscriptionError {
    pub status: StatusCode,
}

/// The batch of monitored items failed as a whole.
#[derive(Clone, Copy, Debug, PartialEq, Eq, Structural)]
pub enum MonitorError {
    /// The server rejected the request.
    Rejected(StatusCode),
    /// The answer does not hold one result for each requested item.
    CountMismatch { expected: usize, received: usize },
}

/// Why a run did not do what it set out to do.
#[derive(Clone, Copy, Debug, PartialEq, Eq, Structural)]
pub enum Failure {
    Discovery(DiscoveryError),
    Connect(ConnectError),
    Subscription(SubscriptionError),
    Monitor(MonitorError),
    /// An event arrived that the state was not waiting for.
    Protocol,
}

impl Failure {
    /// The status code that came with the failure, if one did.
    pub open spec fn status_spec(self) -> Option<StatusCode> {
        match self {
            Failure::Discovery(e) => Some(e.status),
            Failure::Connect(ConnectError::Rejected(status)) => Some(status),
            Failure::Connect(_) => None,
            Failure::Subscription(e) => Some(e.status),
            Failure::Monitor(MonitorError::Rejected(status)) => Some(status),
            Failure::Monitor(_) => None,
            Failure::Protocol => None,
        }
    }

    #[verifier::when_used_as_spec(status_spec)]
    pub fn status(self) -> (status: Option<StatusCode>)
        ensures
            status == self.status_spec(),
    {
        match self {
            Failure::Discovery(e) => Some(e.status),
            Failure::Connect(ConnectError::Rejected(status)) => Some(status),
            Failure::Connect(_) => None,
            Failure::Subscription(e) => Some(e.status),
            Failure::Monitor(MonitorError::Rejected(status)) => Some(status),
            Failure::Monitor(_) => None,
            Failure::Protocol => None,
        }
    }
}

} // verus!
