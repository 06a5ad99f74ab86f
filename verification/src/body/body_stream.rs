//! The adapter that turns a sequence of chunks into a response body.

use crate::body::message_body::ChunkStream;
use crate::body::message_body::MessageBody;
use crate::body::message_body::Polled;
use crate::body::size::BodySize;
use bytes::Bytes;
use std::task::Context;
use vstd::prelude::*;

verus! {

/// Whether an item is a chunk without bytes.
pub open spec fn is_empty_chunk<E>(item: Result<Seq<u8>, E>) -> bool {
    item matches Ok(bytes) && bytes.len() == 0
}

/// The test that an item passes when it is not a chunk without bytes.
pub open spec fn not_empty_chunk<E>() -> spec_fn(Result<Seq<u8>, E>) -> bool {
    |item: Result<Seq<u8>, E>| !is_empty_chunk(item)
}

/// What an adapter surfaces of the items of a sequence: all of them but the
/// chunks without bytes, in their order.
pub open spec fn surfaced<E>(items: Seq<Result<Seq<u8>, E>>) -> Seq<Result<Seq<u8>, E>> {
    items.filter(not_empty_chunk::<E>())
}

/// What is surfaced of a sequence is its first item, unless that is a chunk
/// without bytes, followed by what is surfaced of the rest.
pub proof fn lemma_surfaced_front<E>(items: Seq<Result<Seq<u8>, E>>)
    requires
        items.len() > 0,
    ensures
        surfaced(items) == (if is_empty_chunk(items[0]) {
            surfaced(items.skip(1))
        } else {
            seq![items[0]] + surfaced(items.skip(1))
        }),
{
    let first = seq![items[0]];
    assert(items =~= first + items.skip(1));
    Seq::filter_distributes_over_add(first, items.skip(1), not_empty_chunk::<E>());
    reveal_with_fuel(Seq::filter, 2);
    assert(first.drop_last() =~= Seq::empty());
    if is_empty_chunk(items[0]) {
        assert(first.filter(not_empty_chunk::<E>()) =~= Seq::empty());
        assert(Seq::<Result<Seq<u8>, E>>::empty() + surfaced(items.skip(1)) =~= surfaced(
            items.skip(1),
        ));
    } else {
        assert(first.filter(not_empty_chunk::<E>()) =~= first);
    }
}

/// What is surfaced of a sequence is the sequence with its chunks without
/// bytes removed: an item that stands anywhere in it is surfaced at its place
/// among the others exactly when it is not such a chunk, be it a chunk that
/// holds bytes or a failure. No chunk without bytes is surfaced, and a
/// sequence that has none is surfaced as it is.
pub proof fn lemma_surfaced_removes_empty_chunks<E>(
    before: Seq<Result<Seq<u8>, E>>,
    item: Result<Seq<u8>, E>,
    after: Seq<Result<Seq<u8>, E>>,
)
    ensures
        surfaced(before + seq![item] + after) == (if is_empty_chunk(item) {
            surfaced(before) + surfaced(after)
        } else {
            surfaced(before) + seq![item] + surfaced(after)
        }),
        forall|i: int|
            0 <= i < surfaced(before).len() ==> !is_empty_chunk(#[trigger] surfaced(before)[i]),
        (forall|i: int| 0 <= i < before.len() ==> !is_empty_chunk(#[trigger] before[i]))
            ==> surfaced(before) == before,
{
    let one = seq![item];
    Seq::filter_distributes_over_add(before + one, after, not_empty_chunk::<E>());
    Seq::filter_distributes_over_add(before, one, not_empty_chunk::<E>());
    lemma_surfaced_front(one);
    assert(one.skip(1) =~= Seq::empty());
    assert(surfaced(one.skip(1)) =~= Seq::empty()) by {
        reveal_with_fuel(Seq::filter, 1);
    }
    if is_empty_chunk(item) {
        assert(surfaced(before) + surfaced(one) =~= surfaced(before));
    } else {
        assert(surfaced(one) =~= one);
    }
    assert forall|i: int| 0 <= i < surfaced(before).len() implies !is_empty_chunk(
        #[trigger] surfaced(before)[i],
    ) by {
        before.lemma_filter_pred(not_empty_chunk::<E>(), i);
    }
    if forall|i: int| 0 <= i < before.len() ==> !is_empty_chunk(#[trigger] before[i]) {
        lemma_surfaced_of_kept(before);
    }
}

/// A sequence without chunks without bytes is surfaced as it is.
proof fn lemma_surfaced_of_kept<E>(items: Seq<Result<Seq<u8>, E>>)
    requires
        forall|i: int| 0 <= i < items.len() ==> !is_empty_chunk(#[trigger] items[i]),
    ensures
        surfaced(items) == items,
    decreases items.len(),
{
    if items.len() == 0 {
        reveal_with_fuel(Seq::filter, 1);
    } else {
        lemma_surfaced_front(items);
        assert forall|i: int| 0 <= i < items.skip(1).len() implies !is_empty_chunk(
            #[trigger] items.skip(1)[i],
        ) by {
            assert(items.skip(1)[i] == items[i + 1]);
        }
        lemma_surfaced_of_kept(items.skip(1));
        assert(seq![items[0]] + items.skip(1) =~= items);
    }
}

/// Whether a poll of the adapter took the wrapped sequence from `before` to
/// `after` by passing over `skipped` chunks without bytes and nothing else
/// and then, where an item was handed over, taking that item.
pub open spec fn passed_over<E>(
    before: Seq<Result<Seq<u8>, E>>,
    after: Seq<Result<Seq<u8>, E>>,
    skipped: int,
    handed: Option<Result<Seq<u8>, E>>,
) -> bool {
    &&& 0 <= skipped <= before.len()
    &&& forall|i: int| 0 <= i < skipped ==> is_empty_chunk(#[trigger] before[i])
    &&& match handed {
        Some(item) => skipped < before.len() && before[skipped] == item && after == before.skip(
            skipped + 1,
        ),
        None => after == before.skip(skipped),
    }
}

/// The item that a poll handed over, as plain values, if it handed one over.
pub open spec fn handed_over<E>(polled: Polled<Option<Result<Bytes, E>>>) -> Option<
    Result<Seq<u8>, E>,
> {
    match polled {
        Polled::Ready(Some(item)) => Some(crate::body::message_body::item_view(item)),
        _ => None,
    }
}

/// A response body over a sequence of chunks.
///
/// The body is sent without a length. Chunks without bytes are passed over,
/// so that the transmission ends when the sequence ends and not before.
pub struct BodyStream<S> {
    stream: S,
}

impl<S> BodyStream<S> {
    /// The sequence that the body wraps.
    pub closed spec fn inner(self) -> S {
        self.stream
    }
}

impl<S: ChunkStream> BodyStream<S> {
    /// A body over `stream`.
    pub fn new(stream: S) -> (body: Self)
        ensures
            body.inner() == stream,
    {
        BodyStream { stream }
    }

    /// Whether the adapter hands on what a poll of the wrapped sequence
    /// gave: it does, unless that is a chunk without bytes, after which it
    /// polls again.
    pub fn hands_on(polled: &Polled<Option<Result<Bytes, S::Failure>>>) -> (hands: bool)
        ensures
            hands == !(handed_over(*polled) matches Some(item) && is_empty_chunk(item)),
    {
        match polled {
            Polled::Ready(Some(Ok(chunk))) => !chunk.is_empty(),
            _ => true,
        }
    }
}

impl<S: ChunkStream> MessageBody for BodyStream<S> {
    type Failure = S::Failure;

    open spec fn declared_size(&self) -> BodySize {
        BodySize::Stream
    }

    /// The items of the wrapped sequence but its chunks without bytes.
    open spec fn upcoming(&self) -> Seq<Result<Seq<u8>, S::Failure>> {
        surfaced(self.inner().upcoming())
    }

    fn size(&self) -> (size: BodySize) {
        BodySize::Stream
    }

    /// Polls the wrapped sequence until it is not ready, ends, fails or
    /// yields a chunk that holds a byte, and hands that over as it is.
    fn poll_next(&mut self, cx: &mut Context<'_>) -> (polled: Polled<
        Option<Result<Bytes, S::Failure>>,
    >)
        ensures
            exists|skipped: int|
                #[trigger] passed_over(
                    old(self).inner().upcoming(),
                    final(self).inner().upcoming(),
                    skipped,
                    handed_over(polled),
                ),
            polled matches Polled::Ready(Some(Ok(chunk))) ==> crate::wire::buf::bytes_content(
                chunk,
            ).len() > 0,
            polled matches Polled::Ready(None) ==> final(self).inner().upcoming().len() == 0,
    {
        let ghost given = self.stream.upcoming();
        let ghost mut skipped = 0int;
        proof {
            assert(given.skip(0) =~= given);
        }
        loop
            invariant
                surfaced(self.stream.upcoming()) == surfaced(old(self).stream.upcoming()),
                given == old(self).stream.upcoming(),
                passed_over(given, self.stream.upcoming(), skipped, None),
            decreases self.stream.upcoming().len(),
        {
            let ghost before = self.stream.upcoming();
            let polled = self.stream.poll_next(cx);
            proof {
                if before.len() > 0 {
                    lemma_surfaced_front(before);
                    let rest = surfaced(before.skip(1));
                    assert((seq![before[0]] + rest).skip(1) =~= rest);
                    assert(before[0] == given[skipped]);
                    assert(before.skip(1) =~= given.skip(skipped + 1));
                } else {
                    reveal_with_fuel(Seq::filter, 1);
                }
            }
            if Self::hands_on(&polled) {
                proof {
                    if polled matches Polled::Ready(None) {
                        assert(self.stream.upcoming() =~= before);
                    }
                    assert(passed_over(
                        old(self).inner().upcoming(),
                        self.inner().upcoming(),
                        skipped,
                        handed_over(polled),
                    ));
                }
                return polled;
            }
            proof {
                skipped = skipped + 1;
            }
        }
    }
}

} // verus!
