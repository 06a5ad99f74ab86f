//! The loop that accepts the streams of one connection.
//!
//! The loop decides and whoever drives it acts: it is told what accepting
//! gave and answers with a stream to spawn a pipeline for, or with the end
//! of the connection. Nothing a pipeline does comes back to the loop.

use crate::dispatch::error::DispatchError;
use crate::dispatch::error::Level;
use crate::message::ServiceConfig;
use vstd::prelude::*;

verus! {

/// What the loop asks for after an attempt to accept a stream.
pub enum LoopAction<S, E> {
    /// Spawn a pipeline of its own for this stream, and accept again without
    /// waiting for it.
    Spawn(S),
    /// Stop: the connection has ended with this outcome.
    Stop(Result<(), E>),
}

/// Where an accept loop stands after it was told what accepting gave, and
/// what it asks for: a stream is spawned and the loop goes on, the end of the
/// streams ends the loop for good, and a failure to accept ends it with that
/// failure.
pub open spec fn accept_next<S, E>(accepting: bool, accepted: Option<Result<S, E>>) -> (
    bool,
    LoopAction<S, E>,
) {
    match accepted {
        Some(Ok(stream)) => (accepting, LoopAction::Spawn(stream)),
        Some(Err(error)) => (false, LoopAction::Stop(Err(error))),
        None => (false, LoopAction::Stop(Ok(()))),
    }
}

/// What is logged when a pipeline has ended: nothing where it succeeded,
/// else the level of its failure.
pub open spec fn logged<T, B>(outcome: Result<(), DispatchError<T, B>>) -> Option<Level> {
    match outcome {
        Ok(_) => None,
        Err(error) => Some(error.spec_level()),
    }
}

/// The dispatcher of one connection: what every request of the connection is
/// built from, and whether the loop still accepts streams.
///
/// `F` is the handle on the application's service, `C` the connection, `D`
/// what was gathered when the connection was made, and `A` the type of the
/// peer's address.
pub struct Dispatcher<F, C, D, A> {
    /// The handle on the service that answers requests.
    pub flow: F,
    /// The connection that streams are accepted from.
    pub connection: C,
    /// What was gathered when the connection was made; every request gets it.
    pub on_connect_data: D,
    /// The settings that every pipeline of the connection gets.
    pub config: ServiceConfig,
    /// The address of the peer, where it is known; every request carries it.
    pub peer_addr: Option<A>,
    /// Whether the loop still accepts streams: it does until the streams
    /// end or accepting fails.
    pub accepting: bool,
}

impl<F, C, D, A> Dispatcher<F, C, D, A> {
    /// A dispatcher that accepts streams.
    pub fn new(
        flow: F,
        connection: C,
        on_connect_data: D,
        config: ServiceConfig,
        peer_addr: Option<A>,
    ) -> (dispatcher: Self)
        ensures
            dispatcher.flow == flow,
            dispatcher.connection == connection,
            dispatcher.on_connect_data == on_connect_data,
            dispatcher.config == config,
            dispatcher.peer_addr == peer_addr,
            dispatcher.accepting,
    {
        Dispatcher { flow, connection, on_connect_data, config, peer_addr, accepting: true }
    }

    /// Whether the loop still accepts streams.
    pub fn is_accepting(&self) -> (accepting: bool)
        ensures
            accepting == self.accepting,
    {
        self.accepting
    }

    /// Takes in what accepting gave and answers with what to do. Nothing
    /// else of the dispatcher changes.
    pub fn on_accept<S, E>(&mut self, accepted: Option<Result<S, E>>) -> (action: LoopAction<S, E>)
        requires
            old(self).accepting,
        ensures
            (final(self).accepting, action) == accept_next(old(self).accepting, accepted),
            final(self).flow == old(self).flow,
            final(self).connection == old(self).connection,
            final(self).on_connect_data == old(self).on_connect_data,
            final(self).config == old(self).config,
            final(self).peer_addr == old(self).peer_addr,
    {
        match accepted {
            Some(Ok(stream)) => LoopAction::Spawn(stream),
            Some(Err(error)) => {
                self.accepting = false;
                LoopAction::Stop(Err(error))
            },
            None => {
                self.accepting = false;
                LoopAction::Stop(Ok(()))
            },
        }
    }
}

/// What to log when a pipeline has ended. The outcome of a pipeline goes
/// nowhere else.
pub fn on_pipeline_end<T, B>(outcome: &Result<(), DispatchError<T, B>>) -> (level: Option<Level>)
    ensures
        level == logged(*outcome),
{
    match outcome {
        Ok(_) => None,
        Err(error) => Some(error.level()),
    }
}

/// A stream that fails stays alone in it: when the body of a response fails,
/// its pipeline ends with that failure and asks for nothing more, and the
/// loop, which is told nothing of it, spawns the next stream as before.
pub proof fn lemma_stream_failure_is_isolated<S, E, T, B>(
    pipeline: crate::dispatch::pipeline::PipelineModel,
    failure: B,
    stream: S,
)
    ensures
        crate::dispatch::pipeline::next::<T, B>(
            pipeline,
            crate::dispatch::pipeline::Event::BodyPolled(Some(Err(failure))),
        ) == (
            crate::dispatch::pipeline::ended(pipeline),
            crate::dispatch::pipeline::Action::<Seq<u8>, T, B>::Finish(
                Err(DispatchError::ResponseBody(failure)),
            ),
        ),
        logged::<T, B>(Err(DispatchError::ResponseBody(failure))) == Some(Level::Error),
        accept_next::<S, E>(true, Some(Ok(stream))) == (true, LoopAction::<S, E>::Spawn(stream)),
{
}

} // verus!
