//! Dispatching responses over one multiplexed connection: preparing the head
//! of a response, the pipeline that streams one response, and the loop that
//! accepts streams.

pub mod accept;
pub mod connect;
pub mod connection;
pub mod error;
pub mod payload;
pub mod pipeline;
pub mod prepare;
