//! Decision logic of a Prometheus exporter for a c-lightning node.
//!
//! Everything here is free of I/O. A driver owns the sockets, the timers and
//! the channels; it tells the state machines of this library what happened
//! and does what they answer.
//!
//! - [`producer`] coalesces scrapes into polls that keep a minimum distance,
//!   and hands each outcome to everyone who waits for it.
//! - [`poll`] puts the questions of one poll to the node, all or nothing.
//! - [`rpc_client`] numbers JSON-RPC requests and judges the replies.
//! - [`exposition`] turns the metrics of a poll into gauges.
//! - [`server`] picks the reply to an HTTP request.

pub mod error;
pub mod exposition;
pub mod poll;
pub mod producer;
pub mod responses;
pub mod rpc_client;
pub mod server;
mod text;
