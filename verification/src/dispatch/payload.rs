//! The body of a request as it arrives on a stream.
//!
//! Whoever reads the stream acts and the payload decides: every chunk that
//! arrives gives its length back to the flow control of the stream before it
//! is handed on, so that the peer may send as much again.

use bytes::Bytes;
use vstd::prelude::*;

verus! {

/// What happens with what reading the stream gave.
pub enum Received<C, E> {
    /// Release this much capacity on the stream, then hand on the chunk if
    /// that went well.
    Release {
        /// The chunk that arrived.
        chunk: C,
        /// Its length, which is the capacity to release.
        len: usize,
    },
    /// Hand this on as the next item of the payload: a failure, or `None`
    /// for the end.
    Yield(Option<Result<C, E>>),
}

/// What is done with what reading the stream gave: a chunk has its length
/// released first, a failure and the end are handed on as they are.
pub open spec fn received<E>(read: Option<Result<Seq<u8>, E>>) -> Received<Seq<u8>, E> {
    match read {
        Some(Ok(chunk)) => Received::Release { chunk, len: chunk.len() as usize },
        Some(Err(error)) => Received::Yield(Some(Err(error))),
        None => Received::Yield(None),
    }
}

/// The item that a chunk becomes once its capacity was released: the chunk
/// itself, or what releasing failed with.
pub open spec fn released<C, E>(chunk: C, release: Result<(), E>) -> Option<Result<C, E>> {
    match release {
        Ok(_) => Some(Ok(chunk)),
        Err(error) => Some(Err(error)),
    }
}

/// What was received, as plain values.
pub open spec fn received_view<E>(step: Received<Bytes, E>) -> Received<Seq<u8>, E> {
    match step {
        Received::Release { chunk, len } => Received::Release {
            chunk: crate::wire::buf::bytes_content(chunk),
            len,
        },
        Received::Yield(Some(Ok(chunk))) => Received::Yield(
            Some(Ok(crate::wire::buf::bytes_content(chunk))),
        ),
        Received::Yield(Some(Err(error))) => Received::Yield(Some(Err(error))),
        Received::Yield(None) => Received::Yield(None),
    }
}

/// The stream of a peer as the body of a request. `S` is the handle that
/// the stream is read through.
pub struct Payload<S> {
    /// The handle that the stream is read through.
    pub stream: S,
}

impl<S> Payload<S> {
    /// The payload that is read through `stream`.
    pub fn new(stream: S) -> (payload: Self)
        ensures
            payload.stream == stream,
    {
        Payload { stream }
    }

    /// Takes in what reading the stream gave and answers with what to do.
    pub fn on_data<E>(read: Option<Result<Bytes, E>>) -> (step: Received<Bytes, E>)
        ensures
            received_view(step) == received(crate::body::message_body::read_view(read)),
    {
        match read {
            Some(Ok(chunk)) => {
                let len = chunk.len();
                Received::Release { chunk, len }
            },
            Some(Err(error)) => Received::Yield(Some(Err(error))),
            None => Received::Yield(None),
        }
    }

    /// Takes in how releasing the capacity of `chunk` went and answers with
    /// the item to hand on.
    pub fn on_release<E>(chunk: Bytes, release: Result<(), E>) -> (item: Option<Result<Bytes, E>>)
        ensures
            item == released(chunk, release),
    {
        match release {
            Ok(_) => Some(Ok(chunk)),
            Err(error) => Some(Err(error)),
        }
    }
}

} // verus!
