//! Client-side orchestration of an OPC UA session: discovery, connection,
//! subscription, monitored items and the dispatch of data changes.
//!
//! The crate holds the decisions; the network is driven by its caller. The
//! caller feeds each outcome of the protocol stack to a [`driver::Driver`]
//! and performs the [`driver::Action`] that comes back.

pub mod discovery;
pub mod dispatch;
pub mod driver;
pub mod endpoint;
pub mod error;
pub mod laws;
pub mod node;
pub mod report;
pub mod stack;
pub mod status;
pub mod subscription;
pub mod text;
pub mod value;
