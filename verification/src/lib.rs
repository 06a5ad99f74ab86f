//! Response dispatch for multiplexed HTTP transports.
//!
//! A connection carries many streams; each stream carries one request and
//! one response. This library holds what is decided along the way, and
//! states and proves what it decides:
//!
//! - [`body`]: what a response body is, and the adapter that turns a
//!   sequence of chunks into one without ever surfacing an empty chunk;
//! - [`dispatch::prepare`]: the head of a response as it goes on the wire;
//! - [`dispatch::pipeline`]: the steps by which one response is sent under
//!   the flow control of its stream, with the proof that no byte of the body
//!   is lost, repeated or reordered;
//! - [`dispatch::accept`] and [`dispatch::connection`]: the loop that accepts
//!   streams, with the proof that what happens on one stream touches neither
//!   the loop nor any other stream;
//! - [`dispatch::connect`] and [`dispatch::payload`]: bringing a connection
//!   up, and the body of a request;
//! - [`data`], [`dev`], [`error`], [`message`]: application data, helpers,
//!   client errors, and the types of a response;
//! - [`wire`]: what is taken from the `bytes`, `http` and `itoa` crates, and
//!   what is assumed of it.
//!
//! The library waits for nothing and sends nothing: whoever drives it polls,
//! sends and spawns, tells it how that went, and is told what to do next.

pub mod body;
pub mod data;
pub mod dev;
pub mod dispatch;
pub mod error;
pub mod message;
pub mod wire;
