//! What holds of every run of a [`Driver`](crate::driver::Driver), stated
//! over sequences of events.

use vstd::prelude::*;
use crate::discovery::{server_urls, DiscoveredServerView};
use crate::driver::{
    lemma_step_keeps_wf, ActionView, DriverConfigView, DriverState, DriverView, EventView,
};
use crate::endpoint::endpoint_of;
use crate::error::{DiscoveryError, Failure, MonitorError, SubscriptionError};
use crate::node::NodeIdView;
use crate::report::disconnect_error_text;
use crate::stack::status_code_text;
use crate::status::StatusCode;
use crate::subscription::{default_request, item_result, monitor_result, CreateResult};

verus! {

/// The driver after it has taken `events` in order.
pub open spec fn run(driver: DriverView, events: Seq<EventView>) -> DriverView
    decreases events.len(),
{
    if events.len() == 0 {
        driver
    } else {
        run(driver, events.drop_last()).step(events.last()).0
    }
}

/// The actions with which the driver answers `events`, one for each event.
pub open spec fn actions(driver: DriverView, events: Seq<EventView>) -> Seq<ActionView>
    decreases events.len(),
{
    if events.len() == 0 {
        Seq::empty()
    } else {
        actions(driver, events.drop_last()).push(
            run(driver, events.drop_last()).step(events.last()).1,
        )
    }
}

/// An action that opens, uses or closes a session.
pub open spec fn touches_session(action: ActionView) -> bool {
    action is Connect || action is WaitForConnection || action is CreateSubscription
        || action is CreateMonitoredItems || action is AwaitSessionEnd || action is Disconnect
}

/// Taking events one after the other is taking them all.
pub proof fn lemma_run_splits(driver: DriverView, first: Seq<EventView>, rest: Seq<EventView>)
    ensures
        run(driver, first + rest) == run(run(driver, first), rest),
        actions(driver, first + rest) == actions(driver, first) + actions(
            run(driver, first),
            rest,
        ),
    decreases rest.len(),
{
    if rest.len() == 0 {
        assert(first + rest =~= first);
        assert(actions(driver, first) + actions(run(driver, first), rest) =~= actions(
            driver,
            first,
        ));
    } else {
        assert((first + rest).drop_last() =~= first + rest.drop_last());
        assert((first + rest).last() == rest.last());
        lemma_run_splits(driver, first, rest.drop_last());
        assert(actions(driver, first + rest) =~= actions(driver, first) + actions(
            run(driver, first),
            rest,
        ));
    }
}

/// What holds of a driver at the start of a run holds at every point of it,
/// and the configuration never changes.
pub proof fn lemma_run_keeps_wf(driver: DriverView, events: Seq<EventView>)
    requires
        driver.wf(),
    ensures
        run(driver, events).wf(),
        run(driver, events).config == driver.config,
        actions(driver, events).len() == events.len(),
    decreases events.len(),
{
    if events.len() > 0 {
        lemma_run_keeps_wf(driver, events.drop_last());
        lemma_step_keeps_wf(run(driver, events.drop_last()), events.last());
    }
}

/// A run that is over stays as it is: whatever is reported afterwards, the
/// driver does not change and asks for nothing.
pub proof fn lemma_final_state_absorbs(driver: DriverView, events: Seq<EventView>)
    requires
        driver.state.is_final_spec(),
    ensures
        run(driver, events) == driver,
        actions(driver, events).len() == events.len(),
        forall|i: int|
            0 <= i < events.len() ==> #[trigger] actions(driver, events)[i] == ActionView::Stop,
    decreases events.len(),
{
    if events.len() > 0 {
        lemma_final_state_absorbs(driver, events.drop_last());
    }
}

/// An empty discovery result and a discovery error end the run differently:
/// without URLs the run ends in `Terminated` with nothing recorded, and on
/// an error it ends in `Failed` with the error recorded.
pub proof fn lemma_empty_discovery_is_no_error(
    driver: DriverView,
    servers: Seq<DiscoveredServerView>,
    status: StatusCode,
)
    requires
        driver.wf(),
        driver.state == DriverState::Discovering,
        server_urls(servers).len() == 0,
    ensures
        driver.step(EventView::Discovered(Ok(servers))) == (
            driver.in_state(DriverState::Terminated),
            ActionView::Stop,
        ),
        driver.step(EventView::Discovered(Ok(servers))).0.failure is None,
        driver.step(EventView::Discovered(Ok(servers))).0.exit_code() == 0,
        driver.step(EventView::Discovered(Err(status))).0.state == DriverState::Failed,
        driver.step(EventView::Discovered(Err(status))).0.failure == Some(
            Failure::Discovery(DiscoveryError { status }),
        ),
        driver.step(EventView::Discovered(Err(status))).0.exit_code() == 1,
        driver.step(EventView::Discovered(Err(status))).1 == ActionView::Stop,
{
}

/// A discovery result with at least one URL leads to a connection with the
/// first URL, and with no other.
pub proof fn lemma_first_url_is_selected(driver: DriverView, servers: Seq<DiscoveredServerView>)
    requires
        driver.state == DriverState::Discovering,
        server_urls(servers).len() > 0,
    ensures
        driver.step(EventView::Discovered(Ok(servers))) == (
            driver.in_state(DriverState::Connecting),
            ActionView::Connect {
                config: driver.config.client,
                endpoint: endpoint_of(
                    server_urls(servers)[0],
                    driver.config.security_policy,
                    driver.config.security_mode,
                    driver.config.user_token_policy,
                ),
                identity: driver.config.identity,
            },
        ),
{
}

/// Where discovery finds no URL, the run ends in `Terminated` and no action
/// of the whole run opens, uses or closes a session, whatever is reported
/// after the discovery result.
pub proof fn lemma_no_servers_no_session(
    config: DriverConfigView,
    servers: Seq<DiscoveredServerView>,
    rest: Seq<EventView>,
)
    requires
        server_urls(servers).len() == 0,
    ensures
        ({
            let events = seq![EventView::Start, EventView::Discovered(Ok(servers))] + rest;
            let driver = DriverView::initial(config);
            &&& run(driver, events) == driver.in_state(DriverState::Terminated)
            &&& run(driver, events).failure is None
            &&& actions(driver, events).len() == events.len()
            &&& forall|i: int|
                0 <= i < events.len() ==> !touches_session(#[trigger] actions(driver, events)[i])
        }),
{
    let start = seq![EventView::Start, EventView::Discovered(Ok(servers))];
    let driver = DriverView::initial(config);
    let events = start + rest;
    assert(start.drop_last() =~= seq![EventView::Start]);
    assert(seq![EventView::Start].drop_last() =~= Seq::<EventView>::empty());
    assert(run(driver, Seq::empty()) == driver);
    assert(actions(driver, Seq::empty()) =~= Seq::<ActionView>::empty());
    assert(run(driver, seq![EventView::Start]) == driver.in_state(DriverState::Discovering));
    assert(actions(driver, seq![EventView::Start]) =~= seq![
        ActionView::Discover { url: config.discovery_url },
    ]);
    let ended = run(driver, start);
    assert(ended == driver.in_state(DriverState::Terminated));
    assert(actions(driver, start) =~= seq![
        ActionView::Discover { url: config.discovery_url },
        ActionView::Stop,
    ]);
    lemma_run_splits(driver, start, rest);
    lemma_final_state_absorbs(ended, rest);
    assert forall|i: int| 0 <= i < events.len() implies !touches_session(
        #[trigger] actions(driver, events)[i],
    ) by {
        if i >= 2 {
            assert(actions(driver, events)[i] == actions(ended, rest)[i - 2]);
        }
    }
}

/// A subscription that cannot be created, or whose items cannot be
/// registered as a batch, never leaves the session open: the driver asks to
/// disconnect and records the failure.
pub proof fn lemma_subscription_failure_disconnects(
    driver: DriverView,
    status: StatusCode,
    answers: Seq<CreateResult>,
)
    requires
        driver.state == DriverState::Subscribing,
    ensures
        driver.subscription_id is None ==> driver.step(
            EventView::SubscriptionCreated(Err(status)),
        ) == driver.give_up_session(Failure::Subscription(SubscriptionError { status })),
        driver.subscription_id is Some ==> driver.step(EventView::ItemsCreated(Err(status)))
            == driver.give_up_session(Failure::Monitor(MonitorError::Rejected(status))),
        driver.subscription_id is Some && answers.len() != driver.config.nodes.len()
            ==> driver.step(EventView::ItemsCreated(Ok(answers))).0.state
            == DriverState::Disconnecting && driver.step(EventView::ItemsCreated(Ok(answers))).1
            == ActionView::Disconnect,
        forall|failure: Failure|
            (#[trigger] driver.give_up_session(failure)).0.state == DriverState::Disconnecting
                && driver.give_up_session(failure).1 == ActionView::Disconnect,
{
}

/// Items that the server refuses one by one do not fail the subscription:
/// whatever the status of each answer, a batch that is answered item for
/// item makes the run active, with one result for each node in the order of
/// the nodes.
pub proof fn lemma_item_failures_keep_the_run_active(driver: DriverView, answers: Seq<CreateResult>)
    requires
        driver.state == DriverState::Subscribing,
        driver.subscription_id is Some,
        answers.len() == driver.config.nodes.len(),
    ensures
        driver.step(EventView::ItemsCreated(Ok(answers))).0.state == DriverState::Active,
        driver.step(EventView::ItemsCreated(Ok(answers))).1 == ActionView::AwaitSessionEnd,
        driver.step(EventView::ItemsCreated(Ok(answers))).0.items.len() == answers.len(),
        forall|i: int|
            0 <= i < answers.len() ==> #[trigger] driver.step(
                EventView::ItemsCreated(Ok(answers)),
            ).0.items[i] == item_result(driver.config.nodes[i], answers[i]),
{
}

/// The outcome of a disconnect does not matter: once it is reported the run
/// is over, with nothing new recorded. An error is logged and nothing more;
/// and a report that comes again, or for a session that is gone, changes
/// nothing.
pub proof fn lemma_disconnect_always_terminates(
    driver: DriverView,
    outcome: Result<(), StatusCode>,
    again: Result<(), StatusCode>,
)
    requires
        driver.state == DriverState::Disconnecting,
    ensures
        driver.step(EventView::Disconnected(outcome)) == (
            driver.in_state(DriverState::Terminated),
            ActionView::Stop,
        ),
        outcome matches Err(status) ==> driver.log(EventView::Disconnected(outcome)) == seq![
            disconnect_error_text(status_code_text(status.bits)),
        ],
        outcome is Ok ==> driver.log(EventView::Disconnected(outcome)) == Seq::<
            Seq<char>,
        >::empty(),
        driver.step(EventView::Disconnected(outcome)).0.step(EventView::Disconnected(again)) == (
            driver.in_state(DriverState::Terminated),
            ActionView::Stop,
        ),
        driver.step(EventView::Disconnected(outcome)).0.log(EventView::Disconnected(again))
            == Seq::<Seq<char>>::empty(),
{
}

/// Each action has one cause. In particular, a subscription is asked for
/// only when the session has reported that it is connected, items only for
/// a subscription that the server has just created, and a disconnect only
/// when the subscription has failed.
pub proof fn lemma_actions_have_causes(driver: DriverView, event: EventView)
    ensures
        ({
            let (next, action) = driver.step(event);
            &&& action is Discover ==> driver.state == DriverState::Idle && event is Start
            &&& action is Connect ==> driver.state == DriverState::Discovering && (
            event matches EventView::Discovered(Ok(servers)) && server_urls(servers).len() > 0)
            &&& action is WaitForConnection ==> driver.state == DriverState::Connecting && (
            event matches EventView::SessionOpened(result) && result is Ok)
            &&& action is CreateSubscription ==> driver.state == DriverState::WaitingForConnection
                && event == EventView::ConnectionResolved(true)
            &&& action matches ActionView::CreateMonitoredItems { subscription_id, .. }
                ==> driver.state == DriverState::Subscribing && event
                == EventView::SubscriptionCreated(Ok(subscription_id)) && next.subscription_id
                == Some(subscription_id)
            &&& action is AwaitSessionEnd ==> driver.state == DriverState::Subscribing && (
            event matches EventView::ItemsCreated(Ok(answers)) && answers.len()
                == driver.config.nodes.len())
            &&& action is Disconnect ==> driver.state == DriverState::Subscribing && next.state
                == DriverState::Disconnecting && next.failure is Some
        }),
{
}

/// In a state that is not final, an event that the state is not waiting for
/// ends the run in `Failed`.
pub proof fn lemma_failed_is_reachable_from_every_state(driver: DriverView)
    requires
        !driver.state.is_final_spec(),
    ensures
        exists|event: EventView| (#[trigger] driver.step(event)).0.state == DriverState::Failed,
{
    if driver.state == DriverState::Idle {
        assert(driver.step(EventView::ConnectionResolved(true)).0.state == DriverState::Failed);
    } else {
        assert(driver.step(EventView::Start).0.state == DriverState::Failed);
    }
}

/// The events of a run in which nothing goes wrong.
pub open spec fn smooth_events(
    servers: Seq<DiscoveredServerView>,
    subscription_id: u32,
    answers: Seq<CreateResult>,
) -> Seq<EventView> {
    seq![
        EventView::Start,
        EventView::Discovered(Ok(servers)),
        EventView::SessionOpened(Ok(())),
        EventView::ConnectionResolved(true),
        EventView::SubscriptionCreated(Ok(subscription_id)),
        EventView::ItemsCreated(Ok(answers)),
    ]
}

/// The actions of a run in which nothing goes wrong.
pub open spec fn smooth_actions(
    config: DriverConfigView,
    url: Seq<char>,
    subscription_id: u32,
) -> Seq<ActionView> {
    seq![
        ActionView::Discover { url: config.discovery_url },
        ActionView::Connect {
            config: config.client,
            endpoint: endpoint_of(
                url,
                config.security_policy,
                config.security_mode,
                config.user_token_policy,
            ),
            identity: config.identity,
        },
        ActionView::WaitForConnection,
        ActionView::CreateSubscription { params: config.subscription },
        ActionView::CreateMonitoredItems {
            subscription_id,
            timestamps: config.timestamps,
            requests: config.nodes.map_values(|n: NodeIdView| default_request(n)),
        },
        ActionView::AwaitSessionEnd,
    ]
}

/// Where discovery finds a URL, the session opens and connects, and the
/// server answers the subscription and each item, the run becomes active:
/// it has connected to the first URL, asked for one item for each node, and
/// holds one result for each node; when the session then ends, the run ends
/// in `Terminated` with nothing recorded.
pub proof fn lemma_smooth_run(
    config: DriverConfigView,
    servers: Seq<DiscoveredServerView>,
    subscription_id: u32,
    answers: Seq<CreateResult>,
    end: StatusCode,
)
    requires
        server_urls(servers).len() > 0,
        answers.len() == config.nodes.len(),
    ensures
        ({
            let driver = DriverView::initial(config);
            let events = smooth_events(servers, subscription_id, answers);
            let active = run(driver, events);
            &&& active.state == DriverState::Active
            &&& active.subscription_id == Some(subscription_id)
            &&& active.failure is None
            &&& monitor_result(config.nodes, Ok(answers)) == Ok::<_, MonitorError>(active.items)
            &&& actions(driver, events) == smooth_actions(
                config,
                server_urls(servers)[0],
                subscription_id,
            )
            &&& active.step(EventView::SessionClosed(end)) == (
                active.in_state(DriverState::Terminated),
                ActionView::Stop,
            )
        }),
{
    let driver = DriverView::initial(config);
    let events = smooth_events(servers, subscription_id, answers);
    let e1 = events.take(1);
    let e2 = events.take(2);
    let e3 = events.take(3);
    let e4 = events.take(4);
    let e5 = events.take(5);
    assert(e1.drop_last() =~= Seq::<EventView>::empty());
    assert(run(driver, Seq::empty()) == driver);
    assert(actions(driver, Seq::empty()) =~= Seq::<ActionView>::empty());
    assert(e2.drop_last() =~= e1);
    assert(e3.drop_last() =~= e2);
    assert(e4.drop_last() =~= e3);
    assert(e5.drop_last() =~= e4);
    assert(events.drop_last() =~= e5);
    assert(run(driver, e1).state == DriverState::Discovering);
    assert(run(driver, e2).state == DriverState::Connecting);
    assert(run(driver, e3).state == DriverState::WaitingForConnection);
    assert(run(driver, e4).state == DriverState::Subscribing);
    assert(run(driver, e5).state == DriverState::Subscribing);
    assert(run(driver, e5).subscription_id == Some(subscription_id));
    let expected = smooth_actions(config, server_urls(servers)[0], subscription_id);
    assert(actions(driver, e1) =~= expected.take(1));
    assert(actions(driver, e2) =~= expected.take(2));
    assert(actions(driver, e3) =~= expected.take(3));
    assert(actions(driver, e4) =~= expected.take(4));
    assert(actions(driver, e5) =~= expected.take(5));
    assert(actions(driver, events) =~= expected);
}

} // verus!
