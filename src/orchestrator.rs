//! The session that runs one producer and one renderer: its phases and the
//! result it reports once both threads have ended.
//!
//! Closing the display ends the renderer only. The producer has no way to
//! hear of it and plays the track to its end, and the session waits for
//! both. A session that should stop the sound with the display would need a
//! second flag, written by the renderer and read by the producer.

use vstd::prelude::*;

use crate::producer::ProducerError;
use crate::renderer::RendererError;

verus! {

/// Error of a playback session.
#[derive(Clone, Debug)]
pub enum PlaybackError {
    Producer(ProducerError),
    Renderer(RendererError),
}

/// The session's result from the two threads' results: the producer's error
/// if it failed, else the renderer's, else success.
pub open spec fn joined(producer: Result<(), ProducerError>, renderer: Result<(), RendererError>) -> Result<(), PlaybackError> {
    match producer {
        Err(e) => Err(PlaybackError::Producer(e)),
        Ok(()) => match renderer {
            Err(e) => Err(PlaybackError::Renderer(e)),
            Ok(()) => Ok(()),
        },
    }
}

/// Combines the results of the two threads. A producer error wins over a
/// renderer error, which is most often a consequence of it.
pub fn join_results(producer: Result<(), ProducerError>, renderer: Result<(), RendererError>) -> (r: Result<(), PlaybackError>)
    ensures
        r == joined(producer, renderer),
{
    match producer {
        Err(e) => Err(PlaybackError::Producer(e)),
        Ok(()) => match renderer {
            Err(e) => Err(PlaybackError::Renderer(e)),
            Ok(()) => Ok(()),
        },
    }
}

/// Phases of a session. There is no pause: a started session runs until both
/// threads have ended, and a new session is needed to play again.
#[derive(Clone, Copy, Debug, PartialEq, Eq, Structural)]
pub enum Phase {
    /// Shared state allocated, no thread started.
    Idle,
    /// Both threads run.
    Running,
    /// One thread has ended, the other still runs.
    Draining,
    /// Both threads have ended.
    Done,
}

/// A playback session: its phase and the results of the threads that ended.
#[derive(Clone, Debug)]
pub struct Orchestrator {
    pub phase: Phase,
    pub producer: Option<Result<(), ProducerError>>,
    pub renderer: Option<Result<(), RendererError>>,
}

impl Orchestrator {
    /// The phase agrees with the results collected so far.
    pub open spec fn wf(&self) -> bool {
        let ended = (if self.producer is Some { 1int } else { 0 }) + (if self.renderer is Some {
            1int
        } else {
            0
        });
        match self.phase {
            Phase::Idle => ended == 0,
            Phase::Running => ended == 0,
            Phase::Draining => ended == 1,
            Phase::Done => ended == 2,
        }
    }

    pub fn new() -> (r: Orchestrator)
        ensures
            r.phase == Phase::Idle,
            r.producer is None,
            r.renderer is None,
            r.wf(),
    {
        Orchestrator { phase: Phase::Idle, producer: None, renderer: None }
    }

    /// Marks both threads as started.
    pub fn start(&mut self)
        requires
            old(self).phase == Phase::Idle,
            old(self).wf(),
        ensures
            final(self).phase == Phase::Running,
            final(self).producer == old(self).producer,
            final(self).renderer == old(self).renderer,
            final(self).wf(),
    {
        self.phase = Phase::Running;
    }

    /// Records the end of the producer thread with its result.
    pub fn producer_ended(&mut self, result: Result<(), ProducerError>)
        requires
            old(self).wf(),
            old(self).phase == Phase::Running || old(self).phase == Phase::Draining,
            old(self).producer is None,
        ensures
            final(self).producer == Some(result),
            final(self).renderer == old(self).renderer,
            final(self).phase == (if old(self).phase == Phase::Running {
                Phase::Draining
            } else {
                Phase::Done
            }),
            final(self).wf(),
    {
        self.producer = Some(result);
        self.phase = if self.renderer.is_some() {
            Phase::Done
        } else {
            Phase::Draining
        };
    }

    /// Records the end of the renderer thread with its result.
    pub fn renderer_ended(&mut self, result: Result<(), RendererError>)
        requires
            old(self).wf(),
            old(self).phase == Phase::Running || old(self).phase == Phase::Draining,
            old(self).renderer is None,
        ensures
            final(self).renderer == Some(result),
            final(self).producer == old(self).producer,
            final(self).phase == (if old(self).phase == Phase::Running {
                Phase::Draining
            } else {
                Phase::Done
            }),
            final(self).wf(),
    {
        self.renderer = Some(result);
        self.phase = if self.producer.is_some() {
            Phase::Done
        } else {
            Phase::Draining
        };
    }

    /// The session's result once both threads have ended.
    pub fn outcome(self) -> (r: Result<(), PlaybackError>)
        requires
            self.wf(),
            self.phase == Phase::Done,
        ensures
            r == joined(self.producer->Some_0, self.renderer->Some_0),
    {
        match (self.producer, self.renderer) {
            (Some(p), Some(q)) => join_results(p, q),
            _ => Ok(()),
        }
    }
}

} // verus!
