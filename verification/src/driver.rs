//! The lifecycle of one run: discover, connect, subscribe, stay active,
//! shut down.
//!
//! A [`Driver`] never touches the network. Its caller reports each outcome
//! of the protocol stack as an [`Event`]; the driver moves to its next state
//! and answers with the [`Action`] to perform next.

use vstd::prelude::*;
use vstd::string::*;
use crate::discovery::{
    advertises_url, discover, discovery_result, response_view, server_urls, DiscoveredServer,
    DiscoveredServerView,
};
use crate::endpoint::{
    anonymous_policy, endpoint_of, ClientConfig, ClientConfigView, EndpointDescriptor,
    EndpointDescriptorView, IdentityToken, IdentityTokenView, SecurityMode, SecurityPolicy,
    UserTokenPolicy, UserTokenPolicyView,
};
use crate::error::{ConnectError, Failure};
use crate::node::{NodeId, NodeIdView};
use crate::report::{
    disconnect_error_line, disconnect_error_text, discovery_error_line, discovery_error_text,
    discovery_report, discovery_report_text, discovery_started_line, discovery_started_text,
    failure_text, no_servers_text, subscription_created_line, subscription_created_text,
};
use crate::stack::status_code_text;
use crate::status::StatusCode;
use crate::subscription::{
    answers_view, default_request, monitor_requests, monitor_result, monitor_results, node_views,
    request_views, result_views, subscribe_result, subscription_result, CreateResult,
    MonitoredItemRequest, MonitoredItemRequestView, MonitoredItemResult, MonitoredItemResultView,
    SubscriptionParams, TimestampsToReturn,
};
use crate::text::texts;

verus! {

/// Where a run stands.
#[derive(Clone, Copy, Debug, PartialEq, Eq, Structural)]
pub enum DriverState {
    /// Nothing has happened yet.
    Idle,
    /// The discovery endpoint has been asked for its servers.
    Discovering,
    /// A session with the chosen server is being negotiated.
    Connecting,
    /// The session exists and has yet to report that it is connected.
    WaitingForConnection,
    /// The subscription and its monitored items are being created.
    Subscribing,
    /// Data changes are flowing; the session runs until it ends by itself.
    Active,
    /// The session is being closed after the subscription failed.
    Disconnecting,
    /// The run is over.
    Terminated,
    /// The run was given up.
    Failed,
}

impl DriverState {
    /// No event leads out of a final state.
    pub open spec fn is_final_spec(self) -> bool {
        self == DriverState::Terminated || self == DriverState::Failed
    }

    /// Whether the run is over in this state.
    #[verifier::when_used_as_spec(is_final_spec)]
    pub fn is_final(self) -> (b: bool)
        ensures
            b == self.is_final_spec(),
    {
        match self {
            DriverState::Terminated => true,
            DriverState::Failed => true,
            _ => false,
        }
    }
}

/// Everything that a run is configured with.
#[derive(Debug, PartialEq, Eq)]
pub struct DriverConfig {
    pub discovery_url: String,
    pub client: ClientConfig,
    pub security_policy: SecurityPolicy,
    pub security_mode: SecurityMode,
    pub user_token_policy: UserTokenPolicy,
    pub identity: IdentityToken,
    pub subscription: SubscriptionParams,
    pub timestamps: TimestampsToReturn,
    /// The nodes to monitor. The same node twice is monitored twice.
    pub nodes: Vec<NodeId>,
}

/// What a [`DriverConfig`] stands for.
pub struct DriverConfigView {
    pub discovery_url: Seq<char>,
    pub client: ClientConfigView,
    pub security_policy: SecurityPolicy,
    pub security_mode: SecurityMode,
    pub user_token_policy: UserTokenPolicyView,
    pub identity: IdentityTokenView,
    pub subscription: SubscriptionParams,
    pub timestamps: TimestampsToReturn,
    pub nodes: Seq<NodeIdView>,
}

impl View for DriverConfig {
    type V = DriverConfigView;

    open spec fn view(&self) -> DriverConfigView {
        DriverConfigView {
            discovery_url: self.discovery_url@,
            client: self.client@,
            security_policy: self.security_policy,
            security_mode: self.security_mode,
            user_token_policy: self.user_token_policy@,
            identity: self.identity@,
            subscription: self.subscription,
            timestamps: self.timestamps,
            nodes: node_views(self.nodes@),
        }
    }
}

impl DriverConfig {
    /// The configuration of a run without security and without a user: the
    /// session is opened with the anonymous policy and the anonymous
    /// identity, and values come with both timestamps.
    pub fn anonymous(
        discovery_url: String,
        client: ClientConfig,
        subscription: SubscriptionParams,
        nodes: Vec<NodeId>,
    ) -> (config: DriverConfig)
        ensures
            config@ == (DriverConfigView {
                discovery_url: discovery_url@,
                client: client@,
                security_policy: SecurityPolicy::NoSecurity,
                security_mode: SecurityMode::NoSecurity,
                user_token_policy: anonymous_policy(),
                identity: IdentityTokenView::Anonymous,
                subscription,
                timestamps: TimestampsToReturn::Both,
                nodes: node_views(nodes@),
            }),
    {
        DriverConfig {
            discovery_url,
            client,
            security_policy: SecurityPolicy::NoSecurity,
            security_mode: SecurityMode::NoSecurity,
            user_token_policy: UserTokenPolicy::anonymous(),
            identity: IdentityToken::Anonymous,
            subscription,
            timestamps: TimestampsToReturn::Both,
            nodes,
        }
    }
}

/// An outcome of the protocol stack, reported to the driver.
#[derive(Debug, PartialEq, Eq)]
pub enum Event {
    /// The run is to begin.
    Start,
    /// The discovery endpoint answered, or could not be asked.
    Discovered(Result<Vec<DiscoveredServer>, StatusCode>),
    /// The negotiation of the session ended.
    SessionOpened(Result<(), ConnectError>),
    /// The wait for the connection ended: with the session connected, or
    /// with the session gone.
    ConnectionResolved(bool),
    /// The server answered the request for a subscription.
    SubscriptionCreated(Result<u32, StatusCode>),
    /// The server answered the request for monitored items.
    ItemsCreated(Result<Vec<CreateResult>, StatusCode>),
    /// The session's background task ran to its end.
    SessionClosed(StatusCode),
    /// The request to disconnect returned.
    Disconnected(Result<(), StatusCode>),
}

/// What an [`Event`] stands for.
pub enum EventView {
    Start,
    Discovered(Result<Seq<DiscoveredServerView>, StatusCode>),
    SessionOpened(Result<(), ConnectError>),
    ConnectionResolved(bool),
    SubscriptionCreated(Result<u32, StatusCode>),
    ItemsCreated(Result<Seq<CreateResult>, StatusCode>),
    SessionClosed(StatusCode),
    Disconnected(Result<(), StatusCode>),
}

impl View for Event {
    type V = EventView;

    open spec fn view(&self) -> EventView {
        match self {
            Event::Start => EventView::Start,
            Event::Discovered(response) => EventView::Discovered(response_view(*response)),
            Event::SessionOpened(result) => EventView::SessionOpened(*result),
            Event::ConnectionResolved(connected) => EventView::ConnectionResolved(*connected),
            Event::SubscriptionCreated(response) => EventView::SubscriptionCreated(*response),
            Event::ItemsCreated(response) => EventView::ItemsCreated(answers_view(*response)),
            Event::SessionClosed(status) => EventView::SessionClosed(*status),
            Event::Disconnected(result) => EventView::Disconnected(*result),
        }
    }
}

/// What the caller is to do next. It reports the outcome as the event that
/// the action names.
#[derive(Debug, PartialEq, Eq)]
pub enum Action {
    /// Ask the discovery endpoint at `url` for its servers; report
    /// [`Event::Discovered`].
    Discover { url: String },
    /// Build a client and open a session; report [`Event::SessionOpened`].
    Connect { config: ClientConfig, endpoint: EndpointDescriptor, identity: IdentityToken },
    /// Wait until the session is connected; report
    /// [`Event::ConnectionResolved`].
    WaitForConnection,
    /// Create the subscription; report [`Event::SubscriptionCreated`].
    CreateSubscription { params: SubscriptionParams },
    /// Register the items in one batch; report [`Event::ItemsCreated`].
    CreateMonitoredItems {
        subscription_id: u32,
        timestamps: TimestampsToReturn,
        requests: Vec<MonitoredItemRequest>,
    },
    /// Let the session run until its background task ends; report
    /// [`Event::SessionClosed`].
    AwaitSessionEnd,
    /// Disconnect the session; report [`Event::Disconnected`].
    Disconnect,
    /// Nothing is left to do. A background task that was started is still
    /// run to its end before the process exits.
    Stop,
}

/// What an [`Action`] stands for.
pub enum ActionView {
    Discover { url: Seq<char> },
    Connect {
        config: ClientConfigView,
        endpoint: EndpointDescriptorView,
        identity: IdentityTokenView,
    },
    WaitForConnection,
    CreateSubscription { params: SubscriptionParams },
    CreateMonitoredItems {
        subscription_id: u32,
        timestamps: TimestampsToReturn,
        requests: Seq<MonitoredItemRequestView>,
    },
    AwaitSessionEnd,
    Disconnect,
    Stop,
}

impl View for Action {
    type V = ActionView;

    open spec fn view(&self) -> ActionView {
        match self {
            Action::Discover { url } => ActionView::Discover { url: url@ },
            Action::Connect { config, endpoint, identity } => ActionView::Connect {
                config: config@,
                endpoint: endpoint@,
                identity: identity@,
            },
            Action::WaitForConnection => ActionView::WaitForConnection,
            Action::CreateSubscription { params } => ActionView::CreateSubscription {
                params: *params,
            },
            Action::CreateMonitoredItems { subscription_id, timestamps, requests } => {
                ActionView::CreateMonitoredItems {
                    subscription_id: *subscription_id,
                    timestamps: *timestamps,
                    requests: request_views(requests@),
                }
            },
            Action::AwaitSessionEnd => ActionView::AwaitSessionEnd,
            Action::Disconnect => ActionView::Disconnect,
            Action::Stop => ActionView::Stop,
        }
    }
}

/// The answer of a driver to one event.
#[derive(Debug, PartialEq, Eq)]
pub struct Reaction {
    /// What the caller is to do next.
    pub action: Action,
    /// The lines to log, in order.
    pub log: Vec<String>,
}

/// The driver of one run.
#[derive(Debug, PartialEq, Eq)]
pub struct Driver {
    config: DriverConfig,
    state: DriverState,
    subscription_id: Option<u32>,
    items: Vec<MonitoredItemResult>,
    failure: Option<Failure>,
}

/// What a [`Driver`] stands for.
pub struct DriverView {
    pub config: DriverConfigView,
    pub state: DriverState,
    /// The subscription, once the server has created it.
    pub subscription_id: Option<u32>,
    /// The outcome for each node, once the server has answered.
    pub items: Seq<MonitoredItemResultView>,
    /// The first thing that went wrong, if anything did.
    pub failure: Option<Failure>,
}

impl View for Driver {
    type V = DriverView;

    closed spec fn view(&self) -> DriverView {
        DriverView {
            config: self.config@,
            state: self.state,
            subscription_id: self.subscription_id,
            items: result_views(self.items@),
            failure: self.failure,
        }
    }
}

impl DriverView {
    /// A driver that has not started.
    pub open spec fn initial(config: DriverConfigView) -> DriverView {
        DriverView {
            config,
            state: DriverState::Idle,
            subscription_id: None,
            items: Seq::empty(),
            failure: None,
        }
    }

    /// The same driver in another state.
    pub open spec fn in_state(self, state: DriverState) -> DriverView {
        DriverView { state, ..self }
    }

    /// The run is given up because of `failure`.
    pub open spec fn fail(self, failure: Failure) -> (DriverView, ActionView) {
        (
            DriverView { state: DriverState::Failed, failure: Some(failure), ..self },
            ActionView::Stop,
        )
    }

    /// The subscription failed: the session is closed before the run ends.
    pub open spec fn give_up_session(self, failure: Failure) -> (DriverView, ActionView) {
        (
            DriverView { state: DriverState::Disconnecting, failure: Some(failure), ..self },
            ActionView::Disconnect,
        )
    }

    /// An event arrived that the state was not waiting for. A failure that
    /// was recorded before stays.
    pub open spec fn fault(self) -> (DriverView, ActionView) {
        (
            DriverView {
                state: DriverState::Failed,
                failure: match self.failure {
                    Some(earlier) => Some(earlier),
                    None => Some(Failure::Protocol),
                },
                ..self
            },
            ActionView::Stop,
        )
    }

    /// The answer to a discovery response: connect to the first URL; end
    /// the run where there is none; give up on an error.
    pub open spec fn on_discovered(
        self,
        response: Result<Seq<DiscoveredServerView>, StatusCode>,
    ) -> (DriverView, ActionView) {
        match discovery_result(response) {
            Err(e) => self.fail(Failure::Discovery(e)),
            Ok(urls) => if urls.len() == 0 {
                (self.in_state(DriverState::Terminated), ActionView::Stop)
            } else {
                (
                    self.in_state(DriverState::Connecting),
                    ActionView::Connect {
                        config: self.config.client,
                        endpoint: endpoint_of(
                            urls[0],
                            self.config.security_policy,
                            self.config.security_mode,
                            self.config.user_token_policy,
                        ),
                        identity: self.config.identity,
                    },
                )
            },
        }
    }

    /// The answer to the end of the negotiation.
    pub open spec fn on_session_opened(self, result: Result<(), ConnectError>) -> (
        DriverView,
        ActionView,
    ) {
        match result {
            Ok(_) => (
                self.in_state(DriverState::WaitingForConnection),
                ActionView::WaitForConnection,
            ),
            Err(e) => self.fail(Failure::Connect(e)),
        }
    }

    /// The answer to the end of the wait for the connection.
    pub open spec fn on_connection_resolved(self, connected: bool) -> (DriverView, ActionView) {
        if connected {
            (
                self.in_state(DriverState::Subscribing),
                ActionView::CreateSubscription { params: self.config.subscription },
            )
        } else {
            self.fail(Failure::Connect(ConnectError::Closed))
        }
    }

    /// The answer to the server's response to the subscription request.
    pub open spec fn on_subscription_created(self, response: Result<u32, StatusCode>) -> (
        DriverView,
        ActionView,
    ) {
        match subscription_result(response) {
            Ok(id) => (
                DriverView { subscription_id: Some(id), ..self },
                ActionView::CreateMonitoredItems {
                    subscription_id: id,
                    timestamps: self.config.timestamps,
                    requests: self.config.nodes.map_values(|n: NodeIdView| default_request(n)),
                },
            ),
            Err(e) => self.give_up_session(Failure::Subscription(e)),
        }
    }

    /// The answer to the server's response to the batch of items.
    pub open spec fn on_items_created(self, response: Result<Seq<CreateResult>, StatusCode>) -> (
        DriverView,
        ActionView,
    ) {
        match monitor_result(self.config.nodes, response) {
            Ok(items) => (
                DriverView { state: DriverState::Active, items, ..self },
                ActionView::AwaitSessionEnd,
            ),
            Err(e) => self.give_up_session(Failure::Monitor(e)),
        }
    }

    /// The state after `event` and the action that answers it.
    pub open spec fn step(self, event: EventView) -> (DriverView, ActionView) {
        if self.state.is_final_spec() {
            (self, ActionView::Stop)
        } else {
            match (self.state, event) {
                (DriverState::Idle, EventView::Start) => (
                    self.in_state(DriverState::Discovering),
                    ActionView::Discover { url: self.config.discovery_url },
                ),
                (DriverState::Discovering, EventView::Discovered(response)) => self.on_discovered(
                    response,
                ),
                (DriverState::Connecting, EventView::SessionOpened(result)) => {
                    self.on_session_opened(result)
                },
                (DriverState::WaitingForConnection, EventView::ConnectionResolved(connected)) => {
                    self.on_connection_resolved(connected)
                },
                (DriverState::Subscribing, EventView::SubscriptionCreated(response)) => {
                    if self.subscription_id is None {
                        self.on_subscription_created(response)
                    } else {
                        self.fault()
                    }
                },
                (DriverState::Subscribing, EventView::ItemsCreated(response)) => {
                    if self.subscription_id is Some {
                        self.on_items_created(response)
                    } else {
                        self.fault()
                    }
                },
                (DriverState::Active, EventView::SessionClosed(_)) => (
                    self.in_state(DriverState::Terminated),
                    ActionView::Stop,
                ),
                (DriverState::Disconnecting, EventView::Disconnected(_)) => (
                    self.in_state(DriverState::Terminated),
                    ActionView::Stop,
                ),
                _ => self.fault(),
            }
        }
    }

    /// The lines that tell of `event` itself.
    pub open spec fn announcement(self, event: EventView) -> Seq<Seq<char>> {
        if self.state.is_final_spec() {
            Seq::empty()
        } else {
            match (self.state, event) {
                (DriverState::Idle, EventView::Start) => seq![
                    discovery_started_text(self.config.discovery_url),
                ],
                (DriverState::Discovering, EventView::Discovered(Ok(servers))) => {
                    if server_urls(servers).len() == 0 {
                        discovery_report_text(servers).push(no_servers_text())
                    } else {
                        discovery_report_text(servers)
                    }
                },
                (DriverState::Discovering, EventView::Discovered(Err(status))) => seq![
                    discovery_error_text(status_code_text(status.bits), status.bits),
                ],
                (DriverState::Subscribing, EventView::SubscriptionCreated(Ok(id))) => {
                    if self.subscription_id is None {
                        seq![subscription_created_text(id)]
                    } else {
                        Seq::empty()
                    }
                },
                (DriverState::Disconnecting, EventView::Disconnected(Err(status))) => seq![
                    disconnect_error_text(status_code_text(status.bits)),
                ],
                _ => Seq::empty(),
            }
        }
    }

    /// The lines to log for `event`: those that tell of the event, then the
    /// report of the failure that the step records, if it records one.
    pub open spec fn log(self, event: EventView) -> Seq<Seq<char>> {
        match (self.failure, self.step(event).0.failure) {
            (None, Some(failure)) => self.announcement(event).push(failure_text(failure)),
            _ => self.announcement(event),
        }
    }

    /// What holds of a driver at every point of a run.
    pub open spec fn wf(self) -> bool {
        &&& self.state == DriverState::Failed ==> self.failure is Some
        &&& self.failure is Some ==> (self.state == DriverState::Disconnecting
            || self.state.is_final_spec())
        &&& self.subscription_id is Some ==> !(self.state == DriverState::Idle || self.state
            == DriverState::Discovering || self.state == DriverState::Connecting || self.state
            == DriverState::WaitingForConnection)
        &&& self.state == DriverState::Active ==> {
            &&& self.subscription_id is Some
            &&& self.items.len() == self.config.nodes.len()
            &&& forall|i: int|
                0 <= i < self.items.len() ==> (#[trigger] self.items[i]).node_id
                    == self.config.nodes[i]
        }
        &&& self.state != DriverState::Active && !self.state.is_final_spec()
            ==> self.items.len() == 0
    }

    /// The exit code of a run that ended in this state: 0 unless something
    /// went wrong.
    pub open spec fn exit_code(self) -> u8 {
        if self.failure is Some {
            1
        } else {
            0
        }
    }
}

impl Driver {
    /// A driver for one run with `config`, in [`DriverState::Idle`].
    pub fn new(config: DriverConfig) -> (driver: Driver)
        ensures
            driver@ == DriverView::initial(config@),
            driver@.wf(),
    {
        let driver = Driver {
            config,
            state: DriverState::Idle,
            subscription_id: None,
            items: Vec::new(),
            failure: None,
        };
        assert(driver@.items =~= Seq::empty());
        driver
    }

    /// Where the run stands.
    pub fn state(&self) -> (state: DriverState)
        ensures
            state == self@.state,
    {
        self.state
    }

    /// What the run is configured with.
    pub fn config(&self) -> (config: &DriverConfig)
        ensures
            config@ == self@.config,
    {
        &self.config
    }

    /// The subscription's id, once the server has assigned it.
    pub fn subscription_id(&self) -> (id: Option<u32>)
        ensures
            id == self@.subscription_id,
    {
        self.subscription_id
    }

    /// The outcome for each node, in the order of the configured nodes.
    /// Empty until the server has answered.
    pub fn items(&self) -> (items: &Vec<MonitoredItemResult>)
        ensures
            result_views(items@) == self@.items,
    {
        &self.items
    }

    /// What went wrong, if anything did.
    pub fn failure(&self) -> (failure: Option<Failure>)
        ensures
            failure == self@.failure,
    {
        self.failure
    }

    /// Whether the run is over.
    pub fn is_finished(&self) -> (b: bool)
        ensures
            b == self@.state.is_final_spec(),
    {
        self.state.is_final()
    }

    /// The exit code for the process: 0 unless something went wrong.
    pub fn exit_code(&self) -> (code: u8)
        ensures
            code == self@.exit_code(),
    {
        if self.failure.is_some() {
            1
        } else {
            0
        }
    }

    fn fail(&mut self, failure: Failure) -> (action: Action)
        ensures
            (final(self)@, action@) == old(self)@.fail(failure),
    {
        self.state = DriverState::Failed;
        self.failure = Some(failure);
        Action::Stop
    }

    fn give_up_session(&mut self, failure: Failure) -> (action: Action)
        ensures
            (final(self)@, action@) == old(self)@.give_up_session(failure),
    {
        self.state = DriverState::Disconnecting;
        self.failure = Some(failure);
        Action::Disconnect
    }

    fn fault(&mut self) -> (action: Action)
        ensures
            (final(self)@, action@) == old(self)@.fault(),
    {
        self.state = DriverState::Failed;
        if self.failure.is_none() {
            self.failure = Some(Failure::Protocol);
        }
        Action::Stop
    }

    fn on_discovered(&mut self, response: Result<Vec<DiscoveredServer>, StatusCode>) -> (action:
        Action)
        ensures
            (final(self)@, action@) == old(self)@.on_discovered(response_view(response)),
    {
        match discover(response) {
            Err(e) => self.fail(Failure::Discovery(e)),
            Ok(urls) => {
                if urls.len() == 0 {
                    self.state = DriverState::Terminated;
                    Action::Stop
                } else {
                    let endpoint = EndpointDescriptor::new(
                        urls[0].clone(),
                        self.config.security_policy,
                        self.config.security_mode,
                        self.config.user_token_policy.clone(),
                    );
                    self.state = DriverState::Connecting;
                    Action::Connect {
                        config: self.config.client.clone(),
                        endpoint,
                        identity: self.config.identity.clone(),
                    }
                }
            },
        }
    }

    fn on_items_created(&mut self, response: Result<Vec<CreateResult>, StatusCode>) -> (action:
        Action)
        ensures
            (final(self)@, action@) == old(self)@.on_items_created(answers_view(response)),
    {
        match monitor_results(&self.config.nodes, response) {
            Ok(items) => {
                self.items = items;
                self.state = DriverState::Active;
                Action::AwaitSessionEnd
            },
            Err(e) => self.give_up_session(Failure::Monitor(e)),
        }
    }

    fn announce(&self, event: &Event) -> (lines: Vec<String>)
        ensures
            texts(lines@) == self@.announcement(event@),
    {
        let mut lines: Vec<String> = Vec::new();
        assert(texts(lines@) =~= Seq::empty());
        if self.state.is_final() {
            return lines;
        }
        match self.state {
            DriverState::Idle => match event {
                Event::Start => {
                    lines.push(discovery_started_line(self.config.discovery_url.as_str()));
                    assert(texts(lines@) =~= seq![
                        discovery_started_text(self@.config.discovery_url),
                    ]);
                },
                _ => {},
            },
            DriverState::Discovering => match event {
                Event::Discovered(Ok(servers)) => {
                    lines = discovery_report(servers);
                    if !advertises_url(servers) {
                        let ghost report = texts(lines@);
                        lines.push(String::from_str("No servers found at the discovery URL"));
                        assert(texts(lines@) =~= report.push(no_servers_text()));
                    }
                },
                Event::Discovered(Err(status)) => {
                    let text = status.text();
                    lines.push(discovery_error_line(text.as_str(), status.bits));
                    assert(texts(lines@) =~= seq![
                        discovery_error_text(status_code_text(status.bits), status.bits),
                    ]);
                },
                _ => {},
            },
            DriverState::Subscribing => match event {
                Event::SubscriptionCreated(Ok(id)) => {
                    if self.subscription_id.is_none() {
                        lines.push(subscription_created_line(*id));
                        assert(texts(lines@) =~= seq![subscription_created_text(*id)]);
                    }
                },
                _ => {},
            },
            DriverState::Disconnecting => match event {
                Event::Disconnected(Err(status)) => {
                    let text = status.text();
                    lines.push(disconnect_error_line(text.as_str()));
                    assert(texts(lines@) =~= seq![
                        disconnect_error_text(status_code_text(status.bits)),
                    ]);
                },
                _ => {},
            },
            _ => {},
        }
        lines
    }

    /// Takes the next event of the run and answers with the next action and
    /// the lines to log.
    ///
    /// An event that the state is not waiting for ends the run in
    /// [`DriverState::Failed`]. In a final state every event is ignored.
    pub fn step(&mut self, event: Event) -> (reaction: Reaction)
        ensures
            (final(self)@, reaction.action@) == old(self)@.step(event@),
            texts(reaction.log@) == old(self)@.log(event@),
            old(self)@.wf() ==> final(self)@.wf(),
    {
        let had_failure = self.failure.is_some();
        let mut log = self.announce(&event);
        let action = self.advance(event);
        if !had_failure {
            match self.failure {
                Some(failure) => {
                    let ghost announced = texts(log@);
                    log.push(failure.describe());
                    assert(texts(log@) =~= announced.push(failure_text(failure)));
                },
                None => {},
            }
        }
        Reaction { action, log }
    }

    fn advance(&mut self, event: Event) -> (action: Action)
        ensures
            (final(self)@, action@) == old(self)@.step(event@),
            old(self)@.wf() ==> final(self)@.wf(),
    {
        proof {
            if self@.wf() {
                lemma_step_keeps_wf(self@, event@);
            }
        }
        if self.state.is_final() {
            return Action::Stop;
        }
        match (self.state, event) {
            (DriverState::Idle, Event::Start) => {
                self.state = DriverState::Discovering;
                Action::Discover { url: self.config.discovery_url.clone() }
            },
            (DriverState::Discovering, Event::Discovered(response)) => self.on_discovered(response),
            (DriverState::Connecting, Event::SessionOpened(result)) => match result {
                Ok(_) => {
                    self.state = DriverState::WaitingForConnection;
                    Action::WaitForConnection
                },
                Err(e) => self.fail(Failure::Connect(e)),
            },
            (DriverState::WaitingForConnection, Event::ConnectionResolved(connected)) => {
                if connected {
                    self.state = DriverState::Subscribing;
                    Action::CreateSubscription { params: self.config.subscription }
                } else {
                    self.fail(Failure::Connect(ConnectError::Closed))
                }
            },
            (DriverState::Subscribing, Event::SubscriptionCreated(response)) => {
                if self.subscription_id.is_some() {
                    return self.fault();
                }
                match subscribe_result(response) {
                    Ok(id) => {
                        self.subscription_id = Some(id);
                        Action::CreateMonitoredItems {
                            subscription_id: id,
                            timestamps: self.config.timestamps,
                            requests: monitor_requests(&self.config.nodes),
                        }
                    },
                    Err(e) => self.give_up_session(Failure::Subscription(e)),
                }
            },
            (DriverState::Subscribing, Event::ItemsCreated(response)) => {
                if self.subscription_id.is_none() {
                    return self.fault();
                }
                self.on_items_created(response)
            },
            (DriverState::Active, Event::SessionClosed(_)) => {
                self.state = DriverState::Terminated;
                Action::Stop
            },
            (DriverState::Disconnecting, Event::Disconnected(_)) => {
                self.state = DriverState::Terminated;
                Action::Stop
            },
            _ => self.fault(),
        }
    }
}

/// Every step keeps what holds of a driver at every point of a run.
pub proof fn lemma_step_keeps_wf(driver: DriverView, event: EventView)
    requires
        driver.wf(),
    ensures
        driver.step(event).0.wf(),
        driver.step(event).0.config == driver.config,
{
}

} // verus!
