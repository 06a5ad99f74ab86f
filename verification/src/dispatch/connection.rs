//! One connection as a whole: the accept loop and the pipelines of all the
//! streams that it has spawned, each going its own way.
//!
//! Nothing here runs. The loop and every pipeline are values of their own,
//! and each is changed only by what it is told itself; the definitions here
//! put them side by side so that this can be said of any order in which
//! things happen on a connection, and the laws say it.

use crate::dispatch::pipeline::Event;
use crate::dispatch::pipeline::PipelineModel;
use vstd::prelude::*;

verus! {

/// A connection as plain values.
pub struct ConnectionModel {
    /// Whether the loop still accepts streams.
    pub accepting: bool,
    /// The pipelines of the streams that were spawned, in the order in which
    /// they were accepted.
    pub pipelines: Seq<PipelineModel>,
}

/// One thing that happens on a connection.
pub enum Happening<E, T, B> {
    /// Accepting gave this: a stream, whose pipeline is started, an error,
    /// or `None` for the end of the streams.
    Accept(Option<Result<PipelineModel, E>>),
    /// The pipeline of a stream is told this.
    Stream {
        /// The number of the stream among those spawned.
        stream: int,
        /// What its pipeline is told.
        event: Event<Seq<u8>, T, B>,
    },
}

/// Where a pipeline stands after it was told something: where the event
/// leads it if the event answers it, and where it stood otherwise.
pub open spec fn told<T, B>(
    pipeline: PipelineModel,
    event: Event<Seq<u8>, T, B>,
) -> PipelineModel {
    if crate::dispatch::pipeline::answers(pipeline.phase, event) {
        crate::dispatch::pipeline::next(pipeline, event).0
    } else {
        pipeline
    }
}

/// The connection after one thing has happened on it. What accepting gives
/// is heard by the loop alone, and only while it accepts; what a pipeline is
/// told changes that pipeline alone.
pub open spec fn happen<E, T, B>(
    from: ConnectionModel,
    what: Happening<E, T, B>,
) -> ConnectionModel {
    match what {
        Happening::Accept(accepted) => if from.accepting {
            match crate::dispatch::accept::accept_next(from.accepting, accepted) {
                (accepting, crate::dispatch::accept::LoopAction::Spawn(pipeline)) => ConnectionModel {
                    accepting,
                    pipelines: from.pipelines.push(pipeline),
                },
                (accepting, crate::dispatch::accept::LoopAction::Stop(_)) => ConnectionModel {
                    accepting,
                    pipelines: from.pipelines,
                },
            }
        } else {
            from
        },
        Happening::Stream { stream, event } => if 0 <= stream < from.pipelines.len() {
            ConnectionModel {
                accepting: from.accepting,
                pipelines: from.pipelines.update(stream, told(from.pipelines[stream], event)),
            }
        } else {
            from
        },
    }
}

/// The connection after a run of things has happened on it, one after the
/// other.
pub open spec fn after_all<E, T, B>(
    from: ConnectionModel,
    happenings: Seq<Happening<E, T, B>>,
) -> ConnectionModel
    decreases happenings.len(),
{
    if happenings.len() == 0 {
        from
    } else {
        after_all(happen(from, happenings[0]), happenings.skip(1))
    }
}

/// What the pipeline of one stream is told in a run of happenings, in the
/// order in which it is told.
pub open spec fn told_to<E, T, B>(happenings: Seq<Happening<E, T, B>>, stream: int) -> Seq<
    Event<Seq<u8>, T, B>,
>
    decreases happenings.len(),
{
    if happenings.len() == 0 {
        Seq::empty()
    } else {
        match happenings[0] {
            Happening::Stream { stream: of, event } if of == stream => seq![event] + told_to(
                happenings.skip(1),
                stream,
            ),
            _ => told_to(happenings.skip(1), stream),
        }
    }
}

/// Where a pipeline stands after it was told a run of events.
pub open spec fn told_all<T, B>(
    pipeline: PipelineModel,
    events: Seq<Event<Seq<u8>, T, B>>,
) -> PipelineModel
    decreases events.len(),
{
    if events.len() == 0 {
        pipeline
    } else {
        told_all(told(pipeline, events[0]), events.skip(1))
    }
}

/// Whether accepting ends or fails somewhere in a run of happenings.
pub open spec fn accepting_ends<E, T, B>(happenings: Seq<Happening<E, T, B>>) -> bool {
    exists|i: int|
        0 <= i < happenings.len() && (#[trigger] happenings[i] matches Happening::Accept(accepted)
            && !(accepted matches Some(Ok(_))))
}

/// What happens on one stream stays on that stream: whatever its pipeline is
/// told, be it that its body failed, the loop accepts as before, as many
/// streams are there as before, and every other pipeline stands where it
/// stood.
pub proof fn lemma_a_stream_touches_nothing_else<E, T, B>(
    from: ConnectionModel,
    stream: int,
    event: Event<Seq<u8>, T, B>,
)
    ensures
        happen(from, Happening::<E, T, B>::Stream { stream, event }).accepting == from.accepting,
        happen(from, Happening::<E, T, B>::Stream { stream, event }).pipelines.len()
            == from.pipelines.len(),
        forall|other: int|
            0 <= other < from.pipelines.len() && other != stream ==> (#[trigger] happen(
                from,
                Happening::<E, T, B>::Stream { stream, event },
            ).pipelines[other]) == from.pipelines[other],
        from.accepting ==> forall|pipeline: PipelineModel|
            (#[trigger] happen(
                happen(from, Happening::<E, T, B>::Stream { stream, event }),
                Happening::<E, T, B>::Accept(Some(Ok(pipeline))),
            )).pipelines.last() == pipeline,
{
}

/// In whatever order things happen on a connection, every stream fares as
/// if it were alone: its pipeline ends up where the events that it was told
/// itself lead it, and the streams before it and after it, with all that
/// happened to them, make no difference.
pub proof fn lemma_streams_are_independent<E, T, B>(
    from: ConnectionModel,
    happenings: Seq<Happening<E, T, B>>,
    stream: int,
)
    requires
        0 <= stream < from.pipelines.len(),
    ensures
        stream < after_all(from, happenings).pipelines.len(),
        after_all(from, happenings).pipelines[stream] == told_all(
            from.pipelines[stream],
            told_to(happenings, stream),
        ),
    decreases happenings.len(),
{
    if happenings.len() > 0 {
        let mid = happen(from, happenings[0]);
        lemma_streams_are_independent(mid, happenings.skip(1), stream);
        match happenings[0] {
            Happening::Stream { stream: of, event } => {
                if of == stream {
                    let events = told_to(happenings, stream);
                    assert(events[0] == event);
                    assert(events.skip(1) =~= told_to(happenings.skip(1), stream));
                }
            },
            Happening::Accept(_) => {},
        }
    }
}

/// The loop stops accepting only when accepting itself ends or fails: while
/// it does neither, the loop accepts, whatever the streams of the
/// connection are told and however they end.
pub proof fn lemma_only_accepting_stops_the_loop<E, T, B>(
    from: ConnectionModel,
    happenings: Seq<Happening<E, T, B>>,
)
    requires
        from.accepting,
        !accepting_ends(happenings),
    ensures
        after_all(from, happenings).accepting,
    decreases happenings.len(),
{
    if happenings.len() > 0 {
        let first = happenings[0];
        let mid = happen(from, first);
        assert(mid.accepting) by {
            match first {
                Happening::Accept(accepted) => {
                    if !(accepted matches Some(Ok(_))) {
                        assert(accepting_ends(happenings));
                    }
                },
                Happening::Stream { .. } => {},
            }
        }
        assert(!accepting_ends(happenings.skip(1))) by {
            if accepting_ends(happenings.skip(1)) {
                let i = choose|i: int|
                    0 <= i < happenings.skip(1).len() && (#[trigger] happenings.skip(
                        1,
                    )[i] matches Happening::Accept(accepted) && !(accepted matches Some(Ok(_))));
                assert(happenings.skip(1)[i] == happenings[i + 1]);
                assert(accepting_ends(happenings));
            }
        }
        lemma_only_accepting_stops_the_loop(mid, happenings.skip(1));
    }
}

} // verus!
