//! The kinds of body that a response is built with, as one type.

use crate::body::body_stream::BodyStream;
use crate::body::message_body::ChunkStream;
use crate::body::message_body::MessageBody;
use crate::body::message_body::Polled;
use crate::body::size::BodySize;
use bytes::Bytes;
use std::task::Context;
use vstd::prelude::*;

verus! {

/// The body of a response, chosen when the response is built.
pub enum AnyBody<S> {
    /// An empty body.
    Empty,
    /// A buffer, sent with its length.
    Buffer(Bytes),
    /// A sequence of chunks, sent without a length.
    Stream(BodyStream<S>),
}

impl<S: ChunkStream> MessageBody for AnyBody<S> {
    type Failure = S::Failure;

    open spec fn declared_size(&self) -> BodySize {
        match self {
            AnyBody::Empty => BodySize::Empty,
            AnyBody::Buffer(buffer) => BodySize::Sized(
                crate::wire::buf::bytes_content(*buffer).len() as u64,
            ),
            AnyBody::Stream(_) => BodySize::Stream,
        }
    }

    /// Nothing for an empty body, the bytes of a buffer that holds any as
    /// one chunk, and for a sequence what its adapter surfaces.
    open spec fn upcoming(&self) -> Seq<Result<Seq<u8>, S::Failure>> {
        match self {
            AnyBody::Empty => Seq::empty(),
            AnyBody::Buffer(buffer) => if crate::wire::buf::bytes_content(*buffer).len() == 0 {
                Seq::empty()
            } else {
                seq![Ok(crate::wire::buf::bytes_content(*buffer))]
            },
            AnyBody::Stream(stream) => stream.upcoming(),
        }
    }

    fn size(&self) -> (size: BodySize) {
        match self {
            AnyBody::Empty => BodySize::Empty,
            AnyBody::Buffer(buffer) => BodySize::Sized(buffer.len() as u64),
            AnyBody::Stream(_) => BodySize::Stream,
        }
    }

    fn poll_next(&mut self, cx: &mut Context<'_>) -> (polled: Polled<
        Option<Result<Bytes, S::Failure>>,
    >)
        ensures
            !(*old(self) is Stream) ==> polled is Ready,
    {
        match self {
            AnyBody::Empty => Polled::Ready(None),
            AnyBody::Buffer(buffer) => {
                if buffer.is_empty() {
                    Polled::Ready(None)
                } else {
                    let len = buffer.len();
                    let ghost before = crate::wire::buf::bytes_content(*buffer);
                    let chunk = buffer.split_to(len);
                    proof {
                        assert(before.take(len as int) =~= before);
                        assert(seq![Ok::<Seq<u8>, S::Failure>(before)].skip(1) =~= Seq::empty());
                    }
                    Polled::Ready(Some(Ok(chunk)))
                }
            },
            AnyBody::Stream(stream) => stream.poll_next(cx),
        }
    }
}

} // verus!
