//! Dispatch of data changes: from what the stack delivers for a monitored
//! item to the notification that the application sees.

use vstd::prelude::*;
use vstd::string::*;
use crate::node::{node_id_text, NodeId, NodeIdView};
use crate::stack::status_code_text;
use crate::status::{StatusCode, GOOD};
use crate::subscription::{MonitoredItem, MonitoredItemView};
use crate::value::{value_text, DataValue, DataValueView, Value, ValueView};

verus! {

/// What the application is told about one data change.
#[derive(Debug, PartialEq, Eq)]
pub enum Notification {
    /// The node has a new value.
    Value {
        node_id: NodeId,
        value: Value,
        status: StatusCode,
        source_timestamp: Option<i64>,
        server_timestamp: Option<i64>,
    },
    /// The node has no value, and the status says why.
    Missing { node_id: NodeId, status: StatusCode },
}

/// What a [`Notification`] stands for.
pub enum NotificationView {
    Value {
        node_id: NodeIdView,
        value: ValueView,
        status: StatusCode,
        source_timestamp: Option<i64>,
        server_timestamp: Option<i64>,
    },
    Missing { node_id: NodeIdView, status: StatusCode },
}

impl View for Notification {
    type V = NotificationView;

    open spec fn view(&self) -> NotificationView {
        match self {
            Notification::Value { node_id, value, status, source_timestamp, server_timestamp } => {
                NotificationView::Value {
                    node_id: node_id@,
                    value: value@,
                    status: *status,
                    source_timestamp: *source_timestamp,
                    server_timestamp: *server_timestamp,
                }
            },
            Notification::Missing { node_id, status } => NotificationView::Missing {
                node_id: node_id@,
                status: *status,
            },
        }
    }
}

/// The notification for a snapshot of a monitored item: the value with its
/// status and timestamps, where the status is good unless one was sent; or,
/// without a value, the status that explains its absence.
pub open spec fn notification_of(data: DataValueView, item: MonitoredItemView) -> NotificationView {
    match data.value {
        Some(value) => NotificationView::Value {
            node_id: item.node_id,
            value,
            status: data.value_status(),
            source_timestamp: data.source_timestamp,
            server_timestamp: data.server_timestamp,
        },
        None => NotificationView::Missing { node_id: item.node_id, status: data.status.unwrap() },
    }
}

/// Turns a snapshot that arrived for `item` into the notification for the
/// application. An absent value is reported, not treated as a fault.
pub fn dispatch(data: DataValue, item: &MonitoredItem) -> (notification: Notification)
    requires
        data.wf(),
    ensures
        notification@ == notification_of(data@, item@),
{
    let DataValue { value, status, source_timestamp, server_timestamp } = data;
    match value {
        Some(value) => {
            let status = match status {
                Some(code) => code,
                None => StatusCode { bits: GOOD },
            };
            Notification::Value {
                node_id: item.node_id.clone(),
                value,
                status,
                source_timestamp,
                server_timestamp,
            }
        },
        None => Notification::Missing { node_id: item.node_id.clone(), status: status.unwrap() },
    }
}

/// The log line for a value: `Item "`, the node, `", Value = ` and the value.
pub open spec fn value_line_text(node: Seq<char>, value: Seq<char>) -> Seq<char> {
    "Item \""@ + node + "\", Value = "@ + value
}

/// The log line for an absent value: `Item "`, the node,
/// `", Value not found, error: ` and the status.
pub open spec fn missing_line_text(node: Seq<char>, status: Seq<char>) -> Seq<char> {
    "Item \""@ + node + "\", Value not found, error: "@ + status
}

/// The log line for a notification.
pub open spec fn notification_text(notification: NotificationView) -> Seq<char> {
    match notification {
        NotificationView::Value { node_id, value, .. } => value_line_text(
            node_id_text(node_id),
            value_text(value),
        ),
        NotificationView::Missing { node_id, status } => missing_line_text(
            node_id_text(node_id),
            status_code_text(status.bits),
        ),
    }
}

/// Writes the log line for a value from the texts of the node and the value.
pub fn value_line(node: &str, value: &str) -> (line: String)
    ensures
        line@ == value_line_text(node@, value@),
{
    let mut line = String::from_str("Item \"");
    line.append(node);
    line.append("\", Value = ");
    line.append(value);
    line
}

/// Writes the log line for an absent value from the texts of the node and
/// the status.
pub fn missing_line(node: &str, status: &str) -> (line: String)
    ensures
        line@ == missing_line_text(node@, status@),
{
    let mut line = String::from_str("Item \"");
    line.append(node);
    line.append("\", Value not found, error: ");
    line.append(status);
    line
}

impl Notification {
    /// The node that the notification is about.
    pub fn node_id(&self) -> (node: &NodeId)
        ensures
            self@ matches NotificationView::Value { node_id, .. } ==> node@ == node_id,
            self@ matches NotificationView::Missing { node_id, .. } ==> node@ == node_id,
    {
        match self {
            Notification::Value { node_id, .. } => node_id,
            Notification::Missing { node_id, .. } => node_id,
        }
    }

    /// Writes the log line for the notification.
    pub fn render(&self) -> (line: String)
        ensures
            line@ == notification_text(self@),
    {
        match self {
            Notification::Value { node_id, value, .. } => {
                let node = node_id.to_text();
                let value = value.text();
                value_line(node.as_str(), value.as_str())
            },
            Notification::Missing { node_id, status } => {
                let node = node_id.to_text();
                let status = status.text();
                missing_line(node.as_str(), status.as_str())
            },
        }
    }
}

/// A notification tells of a value exactly where the snapshot holds one,
/// and of a missing value exactly where the snapshot holds the status for
/// its absence.
pub proof fn lemma_dispatch_follows_snapshot(data: DataValueView, item: MonitoredItemView)
    requires
        data.wf(),
    ensures
        notification_of(data, item) is Value <==> data.value is Some,
        notification_of(data, item) is Missing <==> data.missing_status() is Some,
        notification_of(data, item) matches NotificationView::Missing { status, .. }
            ==> data.missing_status() == Some(status),
        notification_of(data, item) matches NotificationView::Value { value, .. } ==> data.value
            == Some(value),
{
}

} // verus!
