//! The pipeline that sends one response over one stream.
//!
//! The pipeline decides and whoever drives it acts: it is told how each
//! thing it asked for went and answers with what to do next. The head goes
//! first; then the body is polled chunk by chunk, and each chunk is sent in
//! as many frames as the capacity that the transport grants makes necessary;
//! an empty frame that ends the stream goes last.

use crate::body::message_body::MessageBody;
use crate::dispatch::error::DispatchError;
use crate::dispatch::prepare::prepare_response;
use crate::dispatch::prepare::WireHead;
use crate::message::ResponseHead;
use crate::message::ServiceConfig;
use crate::message::Version;
use crate::wire::header::NAMES_ALWAYS_STORED;
use bytes::Bytes;
use vstd::prelude::*;

verus! {

/// The most capacity that the pipeline asks for at once.
pub const CHUNK_SIZE: usize = 16_384;

/// Where a pipeline stands.
#[derive(Clone, Copy, Debug, PartialEq, Eq, Structural)]
pub enum Phase {
    /// The head was handed out and the pipeline waits to hear how sending it
    /// went.
    Head,
    /// The pipeline waits for the next item of the body.
    Polling,
    /// The pipeline holds a chunk and waits for capacity to send it.
    Reserving,
    /// A frame of the chunk was handed out and the pipeline waits to hear
    /// how sending it went.
    Sending,
    /// The frame that ends the stream was handed out and the pipeline waits
    /// to hear how sending it went.
    Draining,
    /// The pipeline has ended.
    Done,
}

/// What the pipeline is told. `C` is the type of a chunk, `T` what the
/// transport fails with, `B` what the producer of the body fails with.
pub enum Event<C, T, B> {
    /// How sending the head went.
    HeadSent(Result<(), T>),
    /// What polling the body gave: `None` when the body has ended.
    BodyPolled(Option<Result<C, B>>),
    /// What waiting for capacity gave: `None` when the peer has closed the
    /// stream and no capacity will come.
    Capacity(Option<Result<usize, T>>),
    /// How sending a data frame went.
    DataSent(Result<(), T>),
}

/// What the pipeline asks for.
pub enum Action<C, T, B> {
    /// Poll the body for its next item.
    PollBody,
    /// Reserve this much capacity on the stream and wait for a grant.
    AwaitCapacity {
        /// The number of bytes to reserve.
        reserve: usize,
    },
    /// Send a data frame.
    SendData {
        /// The bytes of the frame.
        data: C,
        /// Whether the frame ends the stream.
        end_of_stream: bool,
    },
    /// Nothing more: the pipeline has ended with this outcome.
    Finish(Result<(), DispatchError<T, B>>),
}

/// A pipeline as plain values.
pub struct PipelineModel {
    /// Where the pipeline stands.
    pub phase: Phase,
    /// Whether the response ends with its head.
    pub eof: bool,
    /// What is left to send of the chunk in hand.
    pub chunk: Seq<u8>,
}

/// An event as plain values.
pub open spec fn event_view<T, B>(event: Event<Bytes, T, B>) -> Event<Seq<u8>, T, B> {
    match event {
        Event::HeadSent(sent) => Event::HeadSent(sent),
        Event::BodyPolled(Some(Ok(chunk))) => Event::BodyPolled(
            Some(Ok(crate::wire::buf::bytes_content(chunk))),
        ),
        Event::BodyPolled(Some(Err(error))) => Event::BodyPolled(Some(Err(error))),
        Event::BodyPolled(None) => Event::BodyPolled(None),
        Event::Capacity(granted) => Event::Capacity(granted),
        Event::DataSent(sent) => Event::DataSent(sent),
    }
}

/// An action as plain values.
pub open spec fn action_view<T, B>(action: Action<Bytes, T, B>) -> Action<Seq<u8>, T, B> {
    match action {
        Action::PollBody => Action::PollBody,
        Action::AwaitCapacity { reserve } => Action::AwaitCapacity { reserve },
        Action::SendData { data, end_of_stream } => Action::SendData {
            data: crate::wire::buf::bytes_content(data),
            end_of_stream,
        },
        Action::Finish(outcome) => Action::Finish(outcome),
    }
}

/// Whether an event tells a pipeline in this phase how what it asked for
/// went.
pub open spec fn answers<T, B>(phase: Phase, event: Event<Seq<u8>, T, B>) -> bool {
    match phase {
        Phase::Head => event is HeadSent,
        Phase::Polling => event is BodyPolled,
        Phase::Reserving => event is Capacity,
        Phase::Sending => event is DataSent,
        Phase::Draining => event is DataSent,
        Phase::Done => false,
    }
}

/// The capacity that the pipeline asks for to send `chunk`: the length of
/// the chunk, but never more than `CHUNK_SIZE`.
pub open spec fn reservation(chunk: Seq<u8>) -> usize {
    if chunk.len() <= CHUNK_SIZE {
        chunk.len() as usize
    } else {
        CHUNK_SIZE
    }
}

/// The number of bytes that go into the next frame when `granted` bytes of
/// capacity were granted: all that were granted, but never more than the
/// chunk has left.
pub open spec fn frame_len(chunk: Seq<u8>, granted: usize) -> int {
    if granted <= chunk.len() {
        granted as int
    } else {
        chunk.len() as int
    }
}

/// A pipeline that has ended.
pub open spec fn ended(from: PipelineModel) -> PipelineModel {
    PipelineModel { phase: Phase::Done, eof: from.eof, chunk: from.chunk }
}

/// The pipeline in another phase.
pub open spec fn moved(from: PipelineModel, phase: Phase) -> PipelineModel {
    PipelineModel { phase, eof: from.eof, chunk: from.chunk }
}

/// Where a pipeline stands after an event that answers it, and what it asks
/// for next.
pub open spec fn next<T, B>(from: PipelineModel, event: Event<Seq<u8>, T, B>) -> (
    PipelineModel,
    Action<Seq<u8>, T, B>,
) {
    match event {
        Event::HeadSent(Err(error)) => (
            ended(from),
            Action::Finish(Err(DispatchError::SendResponse(error))),
        ),
        Event::HeadSent(Ok(_)) => if from.eof {
            (ended(from), Action::Finish(Ok(())))
        } else {
            (moved(from, Phase::Polling), Action::PollBody)
        },
        Event::BodyPolled(None) => (
            moved(from, Phase::Draining),
            Action::SendData { data: Seq::empty(), end_of_stream: true },
        ),
        Event::BodyPolled(Some(Err(error))) => (
            ended(from),
            Action::Finish(Err(DispatchError::ResponseBody(error))),
        ),
        Event::BodyPolled(Some(Ok(chunk))) => (
            PipelineModel { phase: Phase::Reserving, eof: from.eof, chunk },
            Action::AwaitCapacity { reserve: reservation(chunk) },
        ),
        Event::Capacity(None) => (ended(from), Action::Finish(Ok(()))),
        Event::Capacity(Some(Err(error))) => (
            ended(from),
            Action::Finish(Err(DispatchError::SendData(error))),
        ),
        Event::Capacity(Some(Ok(granted))) => (
            PipelineModel {
                phase: Phase::Sending,
                eof: from.eof,
                chunk: from.chunk.skip(frame_len(from.chunk, granted)),
            },
            Action::SendData {
                data: from.chunk.take(frame_len(from.chunk, granted)),
                end_of_stream: false,
            },
        ),
        Event::DataSent(Err(error)) => (
            ended(from),
            Action::Finish(Err(DispatchError::SendData(error))),
        ),
        Event::DataSent(Ok(_)) => if from.phase is Draining {
            (ended(from), Action::Finish(Ok(())))
        } else if from.chunk.len() == 0 {
            (moved(from, Phase::Polling), Action::PollBody)
        } else {
            (
                moved(from, Phase::Reserving),
                Action::AwaitCapacity { reserve: reservation(from.chunk) },
            )
        },
    }
}

/// The capacity that a run of grants adds up to.
pub open spec fn total_granted(grants: Seq<usize>) -> nat
    decreases grants.len(),
{
    if grants.len() == 0 {
        0
    } else {
        grants[0] as nat + total_granted(grants.skip(1))
    }
}

/// The data frames that a pipeline hands out for the chunk in its hand while
/// the grants of `grants` arrive one after the other and every frame is sent:
/// one frame for each grant, until the chunk is sent or no grant is left.
pub open spec fn frames_sent(chunk: Seq<u8>, grants: Seq<usize>) -> Seq<Seq<u8>>
    decreases grants.len(),
{
    if grants.len() == 0 {
        Seq::empty()
    } else {
        let reserving = PipelineModel { phase: Phase::Reserving, eof: false, chunk };
        let granted = next::<(), ()>(reserving, Event::Capacity(Some(Ok(grants[0]))));
        let sent = next::<(), ()>(granted.0, Event::DataSent(Ok(())));
        let frame = seq![granted.1->data];
        if sent.0.phase is Reserving {
            frame + frames_sent(sent.0.chunk, grants.skip(1))
        } else {
            frame
        }
    }
}

/// Splitting conserves the chunk: where the grants add up to at least the
/// length of the chunk, the frames that are sent for it, put one after the
/// other, are the chunk, each byte once and in its place.
pub proof fn lemma_splitting_conserves_chunk(chunk: Seq<u8>, grants: Seq<usize>)
    requires
        total_granted(grants) >= chunk.len(),
    ensures
        frames_sent(chunk, grants).flatten() == chunk,
    decreases grants.len(),
{
    if grants.len() == 0 {
        assert(frames_sent(chunk, grants).flatten() =~= chunk);
    } else {
        let cut = frame_len(chunk, grants[0]);
        let frame = chunk.take(cut);
        let rest = chunk.skip(cut);
        let later = if rest.len() == 0 {
            Seq::<Seq<u8>>::empty()
        } else {
            frames_sent(rest, grants.skip(1))
        };
        if rest.len() != 0 {
            lemma_splitting_conserves_chunk(rest, grants.skip(1));
        }
        let frames = seq![frame] + later;
        assert(frames_sent(chunk, grants) =~= frames);
        assert(frames.first() == frame);
        assert(frames.drop_first() =~= later);
        assert(later.flatten() =~= rest);
        assert(frames.flatten() =~= frame + rest);
        assert(frame + rest =~= chunk);
    }
}

/// Frames keep to the capacity that was granted: there is at most one frame
/// for each grant, no frame is longer than its grant, and what the frames
/// hold together is a prefix of the chunk.
pub proof fn lemma_frames_keep_to_grants(chunk: Seq<u8>, grants: Seq<usize>)
    ensures
        frames_sent(chunk, grants).len() <= grants.len(),
        forall|i: int|
            0 <= i < frames_sent(chunk, grants).len() ==> (#[trigger] frames_sent(
                chunk,
                grants,
            )[i]).len() <= grants[i],
        frames_sent(chunk, grants).flatten().is_prefix_of(chunk),
    decreases grants.len(),
{
    if grants.len() == 0 {
        assert(frames_sent(chunk, grants).flatten() =~= Seq::empty());
    } else {
        let cut = frame_len(chunk, grants[0]);
        let frame = chunk.take(cut);
        let rest = chunk.skip(cut);
        let later = if rest.len() == 0 {
            Seq::<Seq<u8>>::empty()
        } else {
            frames_sent(rest, grants.skip(1))
        };
        if rest.len() != 0 {
            lemma_frames_keep_to_grants(rest, grants.skip(1));
        }
        let frames = seq![frame] + later;
        assert(frames_sent(chunk, grants) =~= frames);
        assert forall|i: int| 0 <= i < frames.len() implies (#[trigger] frames[i]).len()
            <= grants[i] by {
            if i > 0 {
                assert(frames[i] == later[i - 1]);
                assert(grants[i] == grants.skip(1)[i - 1]);
            }
        }
        assert(frames.first() == frame);
        assert(frames.drop_first() =~= later);
        assert(later.flatten().is_prefix_of(rest)) by {
            if rest.len() == 0 {
                assert(later.flatten() =~= Seq::empty());
            }
        }
        assert(frames.flatten() =~= frame + later.flatten());
        assert(frame + rest =~= chunk);
        assert((frame + later.flatten()).is_prefix_of(chunk));
    }
}

/// Whether a pipeline holds nothing outside the phases in which it sends a
/// chunk. A pipeline starts so and stays so.
pub open spec fn settled(pipeline: PipelineModel) -> bool {
    pipeline.phase is Head || pipeline.phase is Polling || pipeline.phase is Draining
        ==> pipeline.chunk.len() == 0
}

/// The bytes that an event hands to the pipeline: those of a chunk of the
/// body, and none otherwise.
pub open spec fn taken_in<T, B>(event: Event<Seq<u8>, T, B>) -> Seq<u8> {
    match event {
        Event::BodyPolled(Some(Ok(chunk))) => chunk,
        _ => Seq::empty(),
    }
}

/// The bytes that an action hands out: those of a data frame, and none
/// otherwise.
pub open spec fn handed_out<T, B>(action: Action<Seq<u8>, T, B>) -> Seq<u8> {
    match action {
        Action::SendData { data, .. } => data,
        _ => Seq::empty(),
    }
}

/// No step loses, repeats or reorders a byte: what a step hands out,
/// followed by what the pipeline holds after it, is what the pipeline held
/// before it followed by what the step took in. Over a whole response, which
/// starts and ends with nothing in hand, the frames put together are
/// therefore the chunks of the body put together.
pub proof fn lemma_step_conserves_bytes<T, B>(from: PipelineModel, event: Event<Seq<u8>, T, B>)
    requires
        settled(from),
        answers(from.phase, event),
    ensures
        settled(next(from, event).0),
        handed_out(next(from, event).1) + next(from, event).0.chunk == from.chunk + taken_in(
            event,
        ),
        next(from, event).1 matches Action::Finish(Ok(_)) && !(event is Capacity) ==> next(
            from,
            event,
        ).0.chunk.len() == 0,
{
    let after = next(from, event).0;
    let action = next(from, event).1;
    assert(handed_out(action) + after.chunk =~= from.chunk + taken_in(event));
}

/// Whether each event of a run answers the pipeline as the events before it
/// have left it.
pub open spec fn answered<T, B>(from: PipelineModel, events: Seq<Event<Seq<u8>, T, B>>) -> bool
    decreases events.len(),
{
    events.len() > 0 ==> answers(from.phase, events[0]) && answered(
        next(from, events[0]).0,
        events.skip(1),
    )
}

/// Where a run of events leaves the pipeline.
pub open spec fn after_run<T, B>(
    from: PipelineModel,
    events: Seq<Event<Seq<u8>, T, B>>,
) -> PipelineModel
    decreases events.len(),
{
    if events.len() == 0 {
        from
    } else {
        after_run(next(from, events[0]).0, events.skip(1))
    }
}

/// The bytes that the pipeline hands out over a run of events, frame after
/// frame.
pub open spec fn sent_over<T, B>(from: PipelineModel, events: Seq<Event<Seq<u8>, T, B>>) -> Seq<u8>
    decreases events.len(),
{
    if events.len() == 0 {
        Seq::empty()
    } else {
        handed_out(next(from, events[0]).1) + sent_over(next(from, events[0]).0, events.skip(1))
    }
}

/// The bytes that a run of events hands to the pipeline, chunk after chunk.
pub open spec fn polled_over<T, B>(events: Seq<Event<Seq<u8>, T, B>>) -> Seq<u8>
    decreases events.len(),
{
    if events.len() == 0 {
        Seq::empty()
    } else {
        taken_in(events[0]) + polled_over(events.skip(1))
    }
}

/// Over any run of events, what was sent followed by what is still in hand
/// is what was in hand at first followed by what the body yielded: every
/// byte of the body goes out once, in its place, and nothing else does.
pub proof fn lemma_run_conserves_bytes<T, B>(
    from: PipelineModel,
    events: Seq<Event<Seq<u8>, T, B>>,
)
    requires
        settled(from),
        answered(from, events),
    ensures
        settled(after_run(from, events)),
        sent_over(from, events) + after_run(from, events).chunk == from.chunk + polled_over(
            events,
        ),
    decreases events.len(),
{
    if events.len() == 0 {
        assert(sent_over(from, events) + after_run(from, events).chunk =~= from.chunk
            + polled_over(events));
    } else {
        let mid = next(from, events[0]).0;
        let out = handed_out(next(from, events[0]).1);
        lemma_step_conserves_bytes(from, events[0]);
        lemma_run_conserves_bytes(mid, events.skip(1));
        let rest_sent = sent_over(mid, events.skip(1));
        let rest_polled = polled_over(events.skip(1));
        let end = after_run(from, events).chunk;
        assert((out + rest_sent) + end =~= out + (rest_sent + end));
        assert(out + (mid.chunk + rest_polled) =~= (out + mid.chunk) + rest_polled);
        assert((from.chunk + taken_in(events[0])) + rest_polled =~= from.chunk + (taken_in(
            events[0],
        ) + rest_polled));
    }
}

/// A pipeline ends exactly when it asks for nothing more, and once it has
/// ended no event answers it. It asks for the body to be polled exactly when
/// it goes on to wait for the body.
pub proof fn lemma_finish_is_final<T, B>(from: PipelineModel, event: Event<Seq<u8>, T, B>)
    requires
        answers(from.phase, event),
    ensures
        next(from, event).1 is Finish <==> next(from, event).0.phase is Done,
        next(from, event).1 is PollBody <==> next(from, event).0.phase is Polling,
        forall|later: Event<Seq<u8>, T, B>| !answers(Phase::Done, later),
{
}

/// Whether the pipeline is through with the body: it sends the frame that
/// ends the stream, or has ended.
pub open spec fn body_closed(phase: Phase) -> bool {
    phase is Draining || phase is Done
}

/// A body that has ended or failed is never polled again: either closes the
/// body for the pipeline, and a pipeline that is through with the body stays
/// so and does not ask for it to be polled.
pub proof fn lemma_closed_body_is_not_polled<T, B>(
    from: PipelineModel,
    event: Event<Seq<u8>, T, B>,
)
    requires
        answers(from.phase, event),
    ensures
        event matches Event::BodyPolled(None) ==> body_closed(next(from, event).0.phase),
        event matches Event::BodyPolled(Some(Err(_))) ==> body_closed(next(from, event).0.phase),
        body_closed(from.phase) ==> body_closed(next(from, event).0.phase) && !(next(
            from,
            event,
        ).1 is PollBody),
{
}

/// The head goes first: no data frame is handed out before the pipeline was
/// told that the head was sent, and none at all for a response that ends
/// with its head.
pub proof fn lemma_head_goes_first<T, B>(from: PipelineModel, event: Event<Seq<u8>, T, B>)
    requires
        from.phase is Head,
        answers(from.phase, event),
    ensures
        !(next(from, event).1 is SendData),
        from.eof || event matches Event::HeadSent(Err(_)) <==> next(from, event).0.phase is Done,
{
}

/// The pipeline of one response.
pub struct Pipeline {
    phase: Phase,
    eof: bool,
    chunk: Bytes,
}

/// A pipeline that was started: the head to send first, and whether the
/// response ends with it.
pub struct Started {
    /// The pipeline, which waits to hear how sending the head went.
    pub pipeline: Pipeline,
    /// The head to send.
    pub head: WireHead,
    /// Whether the head is to be sent as the end of the stream.
    pub eof: bool,
}

impl View for Pipeline {
    type V = PipelineModel;

    closed spec fn view(&self) -> PipelineModel {
        PipelineModel {
            phase: self.phase,
            eof: self.eof,
            chunk: crate::wire::buf::bytes_content(self.chunk),
        }
    }
}

/// The capacity to ask for to send `chunk`.
fn reserve_for(chunk: &Bytes) -> (reserve: usize)
    ensures
        reserve == reservation(crate::wire::buf::bytes_content(*chunk)),
{
    let len = chunk.len();
    if len <= CHUNK_SIZE {
        len
    } else {
        CHUNK_SIZE
    }
}

impl Pipeline {
    /// Starts the pipeline of a response: prepares the head for the wire
    /// with the size that `body` declares.
    ///
    /// The result is `None` only where the header map refuses to store a
    /// header, which it never does for a head of fewer than
    /// `NAMES_ALWAYS_STORED - 1` headers.
    pub fn start<M: MessageBody>(
        config: &ServiceConfig,
        version: Version,
        head: &ResponseHead,
        body: &M,
    ) -> (started: Option<Started>)
        ensures
            head.headers.len() + 2 <= NAMES_ALWAYS_STORED ==> started is Some,
            started matches Some(s) ==> {
                &&& s.eof == crate::dispatch::prepare::effective_size(
                    head.status.value(),
                    body.declared_size(),
                ).spec_is_eof()
                &&& s.pipeline@ == (PipelineModel {
                    phase: Phase::Head,
                    eof: s.eof,
                    chunk: Seq::empty(),
                })
                &&& s.head.status == head.status
                &&& s.head.version == version
                &&& crate::wire::header::header_map_values(s.head.headers)
                    == crate::dispatch::prepare::prepared_headers(
                    crate::wire::header::header_value_bytes(config.date),
                    head.status.value(),
                    crate::dispatch::prepare::header_pairs(head.headers@),
                    body.declared_size(),
                )
            },
    {
        let mut size = body.size();
        match prepare_response(config, version, head, &mut size) {
            Some(wire) => {
                let eof = size.is_eof();
                let pipeline = Pipeline { phase: Phase::Head, eof, chunk: Bytes::new() };
                Some(Started { pipeline, head: wire, eof })
            },
            None => None,
        }
    }

    /// Whether `event` tells the pipeline how what it asked for went.
    pub fn expects<T, B>(&self, event: &Event<Bytes, T, B>) -> (expected: bool)
        ensures
            expected == answers(self@.phase, event_view(*event)),
    {
        match self.phase {
            Phase::Head => matches!(event, Event::HeadSent(_)),
            Phase::Polling => matches!(event, Event::BodyPolled(_)),
            Phase::Reserving => matches!(event, Event::Capacity(_)),
            Phase::Sending => matches!(event, Event::DataSent(_)),
            Phase::Draining => matches!(event, Event::DataSent(_)),
            Phase::Done => false,
        }
    }

    /// Whether the pipeline has ended.
    pub fn is_done(&self) -> (done: bool)
        ensures
            done == (self@.phase is Done),
    {
        matches!(self.phase, Phase::Done)
    }

    /// Takes in how what the pipeline asked for went and answers with what
    /// to do next.
    pub fn step<T, B>(&mut self, event: Event<Bytes, T, B>) -> (action: Action<Bytes, T, B>)
        requires
            answers(old(self)@.phase, event_view(event)),
        ensures
            (final(self)@, action_view(action)) == next(old(self)@, event_view(event)),
    {
        match event {
            Event::HeadSent(Err(error)) => {
                self.phase = Phase::Done;
                Action::Finish(Err(DispatchError::SendResponse(error)))
            },
            Event::HeadSent(Ok(_)) => {
                if self.eof {
                    self.phase = Phase::Done;
                    Action::Finish(Ok(()))
                } else {
                    self.phase = Phase::Polling;
                    Action::PollBody
                }
            },
            Event::BodyPolled(None) => {
                self.phase = Phase::Draining;
                Action::SendData { data: Bytes::new(), end_of_stream: true }
            },
            Event::BodyPolled(Some(Err(error))) => {
                self.phase = Phase::Done;
                Action::Finish(Err(DispatchError::ResponseBody(error)))
            },
            Event::BodyPolled(Some(Ok(chunk))) => {
                let reserve = reserve_for(&chunk);
                self.chunk = chunk;
                self.phase = Phase::Reserving;
                Action::AwaitCapacity { reserve }
            },
            Event::Capacity(None) => {
                self.phase = Phase::Done;
                Action::Finish(Ok(()))
            },
            Event::Capacity(Some(Err(error))) => {
                self.phase = Phase::Done;
                Action::Finish(Err(DispatchError::SendData(error)))
            },
            Event::Capacity(Some(Ok(granted))) => {
                let len = self.chunk.len();
                let take = if granted <= len {
                    granted
                } else {
                    len
                };
                let data = self.chunk.split_to(take);
                self.phase = Phase::Sending;
                Action::SendData { data, end_of_stream: false }
            },
            Event::DataSent(Err(error)) => {
                self.phase = Phase::Done;
                Action::Finish(Err(DispatchError::SendData(error)))
            },
            Event::DataSent(Ok(_)) => {
                if matches!(self.phase, Phase::Draining) {
                    self.phase = Phase::Done;
                    Action::Finish(Ok(()))
                } else if self.chunk.is_empty() {
                    self.phase = Phase::Polling;
                    Action::PollBody
                } else {
                    self.phase = Phase::Reserving;
                    Action::AwaitCapacity { reserve: reserve_for(&self.chunk) }
                }
            },
        }
    }
}

} // verus!
