//! Subscriptions and monitored items: what is asked of the server, and what
//! its answers mean.

use vstd::prelude::*;
use crate::error::{MonitorError, SubscriptionError};
use crate::node::{NodeId, NodeIdView};
use crate::stack::stack_item_settings;
use crate::status::StatusCode;

verus! {

/// The timing and delivery parameters that a subscription is requested with.
/// The server may revise them.
#[derive(Clone, Copy, Debug, PartialEq, Eq, Structural)]
pub struct SubscriptionParams {
    /// The requested publishing interval, in milliseconds.
    pub publishing_interval_ms: u64,
    pub lifetime_count: u32,
    pub max_keep_alive_count: u32,
    /// The most notifications in one publish response; 0 for no limit.
    pub max_notifications_per_publish: u32,
    pub priority: u8,
    pub publishing_enabled: bool,
}

/// Whether a monitored item samples and reports.
#[derive(Clone, Copy, Debug, PartialEq, Eq, Structural)]
pub enum MonitoringMode {
    Disabled,
    Sampling,
    Reporting,
}

/// Which timestamps the server sends with each value.
#[derive(Clone, Copy, Debug, PartialEq, Eq, Structural)]
pub enum TimestampsToReturn {
    Source,
    Server,
    Both,
    Neither,
}

/// The id of the attribute that holds a variable's value.
pub const ATTRIBUTE_VALUE: u32 = 13;

/// The settings of a monitored item besides its node.
#[derive(Clone, Copy, Debug, PartialEq, Eq, Structural)]
pub struct ItemSettings {
    pub attribute_id: u32,
    pub monitoring_mode: MonitoringMode,
    /// The client's handle for the item; 0 leaves the choice to the stack.
    pub client_handle: u32,
    pub queue_size: u32,
    pub discard_oldest: bool,
}

/// The settings of an item that is made from a node id alone: it reports
/// the value attribute, and everything else is zero.
pub open spec fn default_item_settings() -> ItemSettings {
    ItemSettings {
        attribute_id: ATTRIBUTE_VALUE,
        monitoring_mode: MonitoringMode::Reporting,
        client_handle: 0,
        queue_size: 0,
        discard_oldest: false,
    }
}

/// The request to watch one node.
#[derive(Debug, PartialEq, Eq)]
pub struct MonitoredItemRequest {
    pub node_id: NodeId,
    pub settings: ItemSettings,
}

/// What a [`MonitoredItemRequest`] stands for.
pub struct MonitoredItemRequestView {
    pub node_id: NodeIdView,
    pub settings: ItemSettings,
}

impl View for MonitoredItemRequest {
    type V = MonitoredItemRequestView;

    open spec fn view(&self) -> MonitoredItemRequestView {
        MonitoredItemRequestView { node_id: self.node_id@, settings: self.settings }
    }
}

impl Clone for MonitoredItemRequest {
    fn clone(&self) -> (copy: MonitoredItemRequest)
        ensures
            copy == *self,
    {
        MonitoredItemRequest { node_id: self.node_id.clone(), settings: self.settings }
    }
}

/// The request that watches `node` with the default settings.
pub open spec fn default_request(node: NodeIdView) -> MonitoredItemRequestView {
    MonitoredItemRequestView { node_id: node, settings: default_item_settings() }
}

/// The node ids of a sequence, each by its view.
pub open spec fn node_views(nodes: Seq<NodeId>) -> Seq<NodeIdView> {
    nodes.map_values(|n: NodeId| n@)
}

/// The requests of a sequence, each by its view.
pub open spec fn request_views(requests: Seq<MonitoredItemRequest>) -> Seq<
    MonitoredItemRequestView,
> {
    requests.map_values(|r: MonitoredItemRequest| r@)
}

impl MonitoredItemRequest {
    /// The request to watch the value of `node`, with the settings that the
    /// stack gives an item made from a node id alone.
    pub fn for_node(node: NodeId) -> (request: MonitoredItemRequest)
        ensures
            request@ == default_request(node@),
    {
        let settings = stack_item_settings(&node);
        MonitoredItemRequest { node_id: node, settings }
    }
}

/// One request for each node id, in the same order.
pub fn monitor_requests(nodes: &Vec<NodeId>) -> (requests: Vec<MonitoredItemRequest>)
    ensures
        request_views(requests@) == node_views(nodes@).map_values(
            |n: NodeIdView| default_request(n),
        ),
{
    let mut requests: Vec<MonitoredItemRequest> = Vec::new();
    let mut i: usize = 0;
    while i < nodes.len()
        invariant
            i <= nodes.len(),
            requests@.len() == i,
            forall|k: int| 0 <= k < i ==> (#[trigger] requests@[k])@ == default_request(nodes@[k]@),
        decreases nodes.len() - i,
    {
        requests.push(MonitoredItemRequest::for_node(nodes[i].clone()));
        i += 1;
    }
    assert(request_views(requests@) =~= node_views(nodes@).map_values(
        |n: NodeIdView| default_request(n),
    ));
    requests
}

/// What the server answers for one requested item.
#[derive(Clone, Copy, Debug, PartialEq, Eq, Structural)]
pub struct CreateResult {
    pub status: StatusCode,
    /// The server's id for the item; meaningless unless the status is good.
    pub monitored_item_id: u32,
}

/// The outcome for one node of a monitor call.
#[derive(Debug, PartialEq, Eq)]
pub struct MonitoredItemResult {
    pub node_id: NodeId,
    pub status: StatusCode,
    pub monitored_item_id: u32,
}

/// What a [`MonitoredItemResult`] stands for.
pub struct MonitoredItemResultView {
    pub node_id: NodeIdView,
    pub status: StatusCode,
    pub monitored_item_id: u32,
}

impl View for MonitoredItemResult {
    type V = MonitoredItemResultView;

    open spec fn view(&self) -> MonitoredItemResultView {
        MonitoredItemResultView {
            node_id: self.node_id@,
            status: self.status,
            monitored_item_id: self.monitored_item_id,
        }
    }
}

impl Clone for MonitoredItemResult {
    fn clone(&self) -> (copy: MonitoredItemResult)
        ensures
            copy == *self,
    {
        MonitoredItemResult {
            node_id: self.node_id.clone(),
            status: self.status,
            monitored_item_id: self.monitored_item_id,
        }
    }
}

impl MonitoredItemResultView {
    /// The server created the item.
    pub open spec fn created(self) -> bool {
        self.status.is_good_spec()
    }
}

impl MonitoredItemResult {
    /// Whether the server created the item.
    pub fn is_created(&self) -> (b: bool)
        ensures
            b == self@.created(),
    {
        self.status.is_good()
    }
}

/// The results of a sequence, each by its view.
pub open spec fn result_views(results: Seq<MonitoredItemResult>) -> Seq<MonitoredItemResultView> {
    results.map_values(|r: MonitoredItemResult| r@)
}

/// The outcome for the node at one position.
pub open spec fn item_result(node: NodeIdView, answer: CreateResult) -> MonitoredItemResultView {
    MonitoredItemResultView {
        node_id: node,
        status: answer.status,
        monitored_item_id: answer.monitored_item_id,
    }
}

/// What a monitor call returns for the server's response: the answers paired
/// with the nodes by position; an error where the server rejected the batch
/// or did not answer each item.
pub open spec fn monitor_result(
    nodes: Seq<NodeIdView>,
    response: Result<Seq<CreateResult>, StatusCode>,
) -> Result<Seq<MonitoredItemResultView>, MonitorError> {
    match response {
        Err(status) => Err(MonitorError::Rejected(status)),
        Ok(answers) => if answers.len() == nodes.len() {
            Ok(Seq::new(nodes.len(), |i: int| item_result(nodes[i], answers[i])))
        } else {
            Err(
                MonitorError::CountMismatch {
                    expected: nodes.len() as usize,
                    received: answers.len() as usize,
                },
            )
        },
    }
}

/// The view of a server's response to a batch of items.
pub open spec fn answers_view(response: Result<Vec<CreateResult>, StatusCode>) -> Result<
    Seq<CreateResult>,
    StatusCode,
> {
    match response {
        Ok(answers) => Ok(answers@),
        Err(status) => Err(status),
    }
}

/// The view of what a monitor call returns.
pub open spec fn outcome_view(outcome: Result<Vec<MonitoredItemResult>, MonitorError>) -> Result<
    Seq<MonitoredItemResultView>,
    MonitorError,
> {
    match outcome {
        Ok(results) => Ok(result_views(results@)),
        Err(e) => Err(e),
    }
}

/// Pairs the server's answers with the nodes that were asked for. An item
/// that the server refused is an entry of the result, not an error.
pub fn monitor_results(
    nodes: &Vec<NodeId>,
    response: Result<Vec<CreateResult>, StatusCode>,
) -> (outcome: Result<Vec<MonitoredItemResult>, MonitorError>)
    ensures
        outcome_view(outcome) == monitor_result(node_views(nodes@), answers_view(response)),
{
    match response {
        Err(status) => Err(MonitorError::Rejected(status)),
        Ok(answers) => {
            if answers.len() != nodes.len() {
                return Err(
                    MonitorError::CountMismatch { expected: nodes.len(), received: answers.len() },
                );
            }
            let mut results: Vec<MonitoredItemResult> = Vec::new();
            let mut i: usize = 0;
            while i < nodes.len()
                invariant
                    i <= nodes.len(),
                    answers.len() == nodes.len(),
                    results@.len() == i,
                    forall|k: int|
                        0 <= k < i ==> (#[trigger] results@[k])@ == item_result(
                            nodes@[k]@,
                            answers@[k],
                        ),
                decreases nodes.len() - i,
            {
                results.push(
                    MonitoredItemResult {
                        node_id: nodes[i].clone(),
                        status: answers[i].status,
                        monitored_item_id: answers[i].monitored_item_id,
                    },
                );
                i += 1;
            }
            assert(result_views(results@) =~= Seq::new(
                node_views(nodes@).len(),
                |i: int| item_result(node_views(nodes@)[i], answers@[i]),
            ));
            Ok(results)
        },
    }
}

/// What a subscribe call returns for the server's response: the id that the
/// server assigned, or the error.
pub open spec fn subscription_result(response: Result<u32, StatusCode>) -> Result<
    u32,
    SubscriptionError,
> {
    match response {
        Ok(id) => Ok(id),
        Err(status) => Err(SubscriptionError { status }),
    }
}

/// Turns the server's response to a subscription request into the result of
/// a subscribe call.
pub fn subscribe_result(response: Result<u32, StatusCode>) -> (result: Result<
    u32,
    SubscriptionError,
>)
    ensures
        result == subscription_result(response),
{
    match response {
        Ok(id) => Ok(id),
        Err(status) => Err(SubscriptionError { status }),
    }
}

/// A monitored item as the client knows it once the server has created it.
#[derive(Debug, PartialEq, Eq)]
pub struct MonitoredItem {
    /// The server's id for the item.
    pub id: u32,
    pub node_id: NodeId,
}

/// What a [`MonitoredItem`] stands for.
pub struct MonitoredItemView {
    pub id: u32,
    pub node_id: NodeIdView,
}

impl View for MonitoredItem {
    type V = MonitoredItemView;

    open spec fn view(&self) -> MonitoredItemView {
        MonitoredItemView { id: self.id, node_id: self.node_id@ }
    }
}

/// The items of a sequence, each by its view.
pub open spec fn item_views(items: Seq<MonitoredItem>) -> Seq<MonitoredItemView> {
    items.map_values(|m: MonitoredItem| m@)
}

/// The item that a result with a good status stands for.
pub open spec fn created_item(result: MonitoredItemResultView) -> MonitoredItemView {
    MonitoredItemView { id: result.monitored_item_id, node_id: result.node_id }
}

/// The items that the server created, in the order of the results.
pub open spec fn created_items(results: Seq<MonitoredItemResultView>) -> Seq<MonitoredItemView> {
    results.filter(|r: MonitoredItemResultView| r.created()).map_values(
        |r: MonitoredItemResultView| created_item(r),
    )
}

/// The monitored items that exist after a monitor call: one for each result
/// with a good status.
pub fn monitored_items(results: &Vec<MonitoredItemResult>) -> (items: Vec<MonitoredItem>)
    ensures
        item_views(items@) == created_items(result_views(results@)),
{
    let mut items: Vec<MonitoredItem> = Vec::new();
    let mut i: usize = 0;
    let ghost created = |r: MonitoredItemResultView| r.created();
    proof {
        reveal(Seq::filter);
        assert(result_views(results@).take(0) =~= Seq::empty());
        assert(item_views(items@) =~= created_items(result_views(results@).take(0)));
    }
    while i < results.len()
        invariant
            i <= results.len(),
            created == |r: MonitoredItemResultView| r.created(),
            item_views(items@) == created_items(result_views(results@).take(i as int)),
        decreases results.len() - i,
    {
        let result = &results[i];
        let ghost before = item_views(items@);
        proof {
            reveal(Seq::filter);
            let views = result_views(results@);
            assert(views.take(i + 1).drop_last() =~= views.take(i as int));
            assert(views.take(i + 1).last() == result@);
            if result@.created() {
                assert(views.take(i + 1).filter(created) == views.take(i as int).filter(
                    created,
                ).push(result@));
                assert(created_items(views.take(i + 1)) =~= before.push(created_item(result@)));
            } else {
                assert(views.take(i + 1).filter(created) == views.take(i as int).filter(created));
            }
        }
        if result.is_created() {
            let item = MonitoredItem {
                id: result.monitored_item_id,
                node_id: result.node_id.clone(),
            };
            items.push(item);
            assert(item_views(items@) =~= before.push(created_item(result@)));
        }
        i += 1;
    }
    assert(result_views(results@).take(i as int) =~= result_views(results@));
    items
}

/// A monitor call that succeeds returns one result for each node, in the
/// order of the nodes, whatever the status of each item; and it succeeds
/// whenever the server answers each item.
pub proof fn lemma_monitor_keeps_count_and_order(
    nodes: Seq<NodeIdView>,
    response: Result<Seq<CreateResult>, StatusCode>,
)
    ensures
        monitor_result(nodes, response) matches Ok(results) ==> {
            &&& results.len() == nodes.len()
            &&& forall|i: int| 0 <= i < nodes.len() ==> (#[trigger] results[i]).node_id == nodes[i]
        },
        response matches Ok(answers) ==> (monitor_result(nodes, response) is Ok <==> answers.len()
            == nodes.len()),
        response is Err ==> monitor_result(nodes, response) is Err,
{
}

/// The status of one item decides its own entry and no other: a response
/// that differs at one position gives results that differ at that position
/// only.
pub proof fn lemma_item_failure_is_local(
    nodes: Seq<NodeIdView>,
    answers: Seq<CreateResult>,
    k: int,
    answer: CreateResult,
)
    requires
        answers.len() == nodes.len(),
        0 <= k < nodes.len(),
    ensures
        monitor_result(nodes, Ok(answers.update(k, answer))) == Ok::<
            Seq<MonitoredItemResultView>,
            MonitorError,
        >(monitor_result(nodes, Ok(answers))->Ok_0.update(k, item_result(nodes[k], answer))),
{
    let changed = monitor_result(nodes, Ok(answers.update(k, answer)))->Ok_0;
    let base = monitor_result(nodes, Ok(answers))->Ok_0;
    assert(changed =~= base.update(k, item_result(nodes[k], answer)));
}

} // verus!
