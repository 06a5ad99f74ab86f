//! A sequence of chunks as a body of known length.

use crate::body::body_stream::BodyStream;
use crate::body::message_body::ChunkStream;
use crate::body::message_body::MessageBody;
use crate::body::message_body::Polled;
use crate::body::size::BodySize;
use bytes::Bytes;
use std::task::Context;
use vstd::prelude::*;

verus! {

/// A response body over a sequence of chunks whose length together is known
/// in advance.
///
/// The body is sent with that length. Chunks without bytes are passed over
/// as by a `BodyStream`.
pub struct SizedStream<S> {
    size: u64,
    stream: BodyStream<S>,
}

impl<S> SizedStream<S> {
    /// The length that the body declares.
    pub closed spec fn declared_len(self) -> u64 {
        self.size
    }

    /// The sequence that the body wraps.
    pub closed spec fn inner(self) -> S {
        self.stream.inner()
    }
}

impl<S: ChunkStream> SizedStream<S> {
    /// A body of `size` bytes over `stream`.
    pub fn new(size: u64, stream: S) -> (body: Self)
        ensures
            body.declared_len() == size,
            body.inner() == stream,
    {
        SizedStream { size, stream: BodyStream::new(stream) }
    }
}

impl<S: ChunkStream> MessageBody for SizedStream<S> {
    type Failure = S::Failure;

    open spec fn declared_size(&self) -> BodySize {
        BodySize::Sized(self.declared_len())
    }

    /// The items of the wrapped sequence but its chunks without bytes.
    open spec fn upcoming(&self) -> Seq<Result<Seq<u8>, S::Failure>> {
        crate::body::body_stream::surfaced(self.inner().upcoming())
    }

    fn size(&self) -> (size: BodySize) {
        BodySize::Sized(self.size)
    }

    /// Polls the wrapped sequence until it is not ready, ends, fails or
    /// yields a chunk that holds a byte, and hands that over as it is.
    fn poll_next(&mut self, cx: &mut Context<'_>) -> (polled: Polled<
        Option<Result<Bytes, S::Failure>>,
    >)
        ensures
            final(self).declared_len() == old(self).declared_len(),
            exists|skipped: int|
                #[trigger] crate::body::body_stream::passed_over(
                    old(self).inner().upcoming(),
                    final(self).inner().upcoming(),
                    skipped,
                    crate::body::body_stream::handed_over(polled),
                ),
            polled matches Polled::Ready(Some(Ok(chunk))) ==> crate::wire::buf::bytes_content(
                chunk,
            ).len() > 0,
    {
        let polled = self.stream.poll_next(cx);
        proof {
            let skipped = choose|skipped: int|
                #[trigger] crate::body::body_stream::passed_over(
                    old(self).stream.inner().upcoming(),
                    self.stream.inner().upcoming(),
                    skipped,
                    crate::body::body_stream::handed_over(polled),
                );
            assert(crate::body::body_stream::passed_over(
                old(self).inner().upcoming(),
                self.inner().upcoming(),
                skipped,
                crate::body::body_stream::handed_over(polled),
            ));
        }
        polled
    }
}

} // verus!
