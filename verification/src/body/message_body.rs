//! The contract between the producer of a response body and the pipeline
//! that sends it.

use crate::body::size::BodySize;
use bytes::Bytes;
use std::collections::VecDeque;
use std::task::Context;
use vstd::prelude::*;

verus! {

/// The type `std::task::Context`: the handle by which a poll arranges to be
/// woken. Verified code only passes it on.
#[verifier::external_type_specification]
#[verifier::external_body]
pub struct ExContext<'a>(std::task::Context<'a>);

/// What one poll hands back: a result, or word that none is ready yet and
/// that the task will be woken when one may be.
pub enum Polled<T> {
    /// The result of the poll.
    Ready(T),
    /// Nothing is ready yet.
    Pending,
}

/// An item of a chunk sequence as plain values: the bytes of a chunk, or the
/// failure of the producer.
pub open spec fn item_view<E>(item: Result<Bytes, E>) -> Result<Seq<u8>, E> {
    match item {
        Ok(chunk) => Ok(crate::wire::buf::bytes_content(chunk)),
        Err(error) => Err(error),
    }
}

/// What one read of a chunk sequence gives, as plain values: an item, or
/// `None` for the end.
pub open spec fn read_view<E>(read: Option<Result<Bytes, E>>) -> Option<Result<Seq<u8>, E>> {
    match read {
        Some(item) => Some(item_view(item)),
        None => None,
    }
}

/// The items of a chunk sequence as plain values.
pub open spec fn items_view<E>(items: Seq<Result<Bytes, E>>) -> Seq<Result<Seq<u8>, E>> {
    items.map_values(|item: Result<Bytes, E>| item_view(item))
}

/// How one poll relates the items that a sequence had yet to yield before it
/// to those it has yet to yield after it: nothing is consumed while nothing
/// is ready, the end is reported only when no item is left, and an item that
/// is handed over is the first of those outstanding.
pub open spec fn poll_advances<E>(
    polled: Polled<Option<Result<Bytes, E>>>,
    before: Seq<Result<Seq<u8>, E>>,
    after: Seq<Result<Seq<u8>, E>>,
) -> bool {
    match polled {
        Polled::Pending => after == before,
        Polled::Ready(None) => before.len() == 0 && after.len() == 0,
        Polled::Ready(Some(item)) => {
            &&& before.len() > 0
            &&& before[0] == item_view(item)
            &&& after == before.skip(1)
        },
    }
}

/// A fallible sequence of byte chunks that is polled for one item at a time.
pub trait ChunkStream {
    /// What the producer fails with.
    type Failure;

    /// The items that the sequence has yet to yield before it ends, in order.
    /// Where an implementation does not say what they are, they are some
    /// sequence that goes with the state of the implementation.
    open spec fn upcoming(&self) -> Seq<Result<Seq<u8>, Self::Failure>> {
        vstd::pervasive::arbitrary::<spec_fn(&Self) -> Seq<Result<Seq<u8>, Self::Failure>>>()(
            self,
        )
    }

    /// Polls for the next item; `None` is the end of the sequence.
    fn poll_next(&mut self, cx: &mut Context<'_>) -> (polled: Polled<
        Option<Result<Bytes, Self::Failure>>,
    >)
        ensures
            poll_advances(polled, old(self).upcoming(), final(self).upcoming()),
    ;
}

/// Items that were queued in advance, as a sequence: it is always ready,
/// yields the items from the front and ends when the queue is empty.
impl<E> ChunkStream for VecDeque<Result<Bytes, E>> {
    type Failure = E;

    open spec fn upcoming(&self) -> Seq<Result<Seq<u8>, E>> {
        items_view(self@)
    }

    fn poll_next(&mut self, cx: &mut Context<'_>) -> (polled: Polled<Option<Result<Bytes, E>>>)
        ensures
            polled is Ready,
    {
        let item = self.pop_front();
        proof {
            if old(self)@.len() > 0 {
                assert(items_view(old(self)@).skip(1) =~= items_view(old(self)@.skip(1)));
            }
        }
        Polled::Ready(item)
    }
}

/// The body of a response: a size declared in advance and a sequence of
/// chunks that is polled on demand.
pub trait MessageBody {
    /// What the producer fails with.
    type Failure;

    /// The size that the body declares. Where an implementation does not
    /// say what it is, it is some size that goes with the state of the
    /// implementation.
    open spec fn declared_size(&self) -> BodySize {
        vstd::pervasive::arbitrary::<spec_fn(&Self) -> BodySize>()(self)
    }

    /// The items that the body has yet to yield before it ends, in order.
    /// Where an implementation does not say what they are, they are some
    /// sequence that goes with the state of the implementation.
    open spec fn upcoming(&self) -> Seq<Result<Seq<u8>, Self::Failure>> {
        vstd::pervasive::arbitrary::<spec_fn(&Self) -> Seq<Result<Seq<u8>, Self::Failure>>>()(
            self,
        )
    }

    /// The size that the body declares. It has no effect on the body.
    fn size(&self) -> (size: BodySize)
        ensures
            size == self.declared_size(),
    ;

    /// Polls for the next chunk; `None` is the end of the body.
    fn poll_next(&mut self, cx: &mut Context<'_>) -> (polled: Polled<
        Option<Result<Bytes, Self::Failure>>,
    >)
        ensures
            poll_advances(polled, old(self).upcoming(), final(self).upcoming()),
    ;
}

/// The body without bytes: it declares itself empty and ends at once.
impl MessageBody for () {
    type Failure = ();

    open spec fn declared_size(&self) -> BodySize {
        BodySize::Empty
    }

    open spec fn upcoming(&self) -> Seq<Result<Seq<u8>, ()>> {
        Seq::empty()
    }

    fn size(&self) -> (size: BodySize) {
        BodySize::Empty
    }

    fn poll_next(&mut self, cx: &mut Context<'_>) -> (polled: Polled<Option<Result<Bytes, ()>>>)
        ensures
            polled is Ready,
    {
        Polled::Ready(None)
    }
}

/// A buffer as a body of known length: it yields its bytes as one chunk and
/// is empty afterwards.
impl MessageBody for Bytes {
    type Failure = ();

    open spec fn declared_size(&self) -> BodySize {
        BodySize::Sized(crate::wire::buf::bytes_content(*self).len() as u64)
    }

    open spec fn upcoming(&self) -> Seq<Result<Seq<u8>, ()>> {
        if crate::wire::buf::bytes_content(*self).len() == 0 {
            Seq::empty()
        } else {
            seq![Ok(crate::wire::buf::bytes_content(*self))]
        }
    }

    fn size(&self) -> (size: BodySize) {
        BodySize::Sized(self.len() as u64)
    }

    fn poll_next(&mut self, cx: &mut Context<'_>) -> (polled: Polled<Option<Result<Bytes, ()>>>)
        ensures
            polled is Ready,
    {
        if self.is_empty() {
            Polled::Ready(None)
        } else {
            let len = self.len();
            let chunk = self.split_to(len);
            proof {
                let before = crate::wire::buf::bytes_content(*old(self));
                assert(before.take(len as int) =~= before);
                assert(old(self).upcoming().skip(1) =~= Seq::empty());
            }
            Polled::Ready(Some(Ok(chunk)))
        }
    }
}

} // verus!
