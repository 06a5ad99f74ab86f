//! Response bodies: a declared size and a lazy sequence of byte chunks.

pub mod any_body;
pub mod body_stream;
pub mod message_body;
pub mod size;
pub mod sized_stream;
