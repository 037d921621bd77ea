use vstd::prelude::*;

use crate::error::SoundError;

verus! {

/// The state a sound-server context reports.
#[derive(Debug, Clone, Copy, PartialEq, Eq, Structural)]
pub enum ContextState {
    Unconnected,
    Connecting,
    Authorizing,
    SettingName,
    Ready,
    Failed,
    Terminated,
}

/// What one tick of a connection's event loop came to.
#[derive(Debug, Clone, Copy, PartialEq, Eq, Structural)]
pub enum IterateResult {
    /// The loop was asked to quit, with this code.
    Quit(i32),
    /// The loop failed.
    Failure(i32),
    /// The tick dispatched this many events.
    Success(u32),
}

/// Where a connection being set up stands.
#[derive(Debug, Clone, Copy, PartialEq, Eq, Structural)]
pub enum ConnectionPhase {
    Connecting,
    Ready,
    Failed,
}

/// A connection to the sound server, driven to readiness one event-loop tick
/// at a time: the caller runs the tick and reports what it came to and the
/// context's state afterwards.
pub struct PulseAudioConnection {
    pub phase: ConnectionPhase,
}

/// The phase after a tick that came to `tick` and left the context in `state`.
pub open spec fn next_phase(tick: IterateResult, state: ContextState) -> ConnectionPhase {
    match tick {
        IterateResult::Success(_) => match state {
            ContextState::Ready => ConnectionPhase::Ready,
            ContextState::Failed | ContextState::Terminated => ConnectionPhase::Failed,
            _ => ConnectionPhase::Connecting,
        },
        _ => ConnectionPhase::Failed,
    }
}

impl PulseAudioConnection {
    /// A connection that has just asked to connect.
    pub fn new() -> (r: Self)
        ensures
            r.phase == ConnectionPhase::Connecting,
    {
        PulseAudioConnection { phase: ConnectionPhase::Connecting }
    }

    /// Maps one event-loop tick to its outcome: a quit or a failure of the
    /// loop is a connection error.
    pub fn iterate(tick: IterateResult) -> (r: Result<(), SoundError>)
        ensures
            r == (match tick {
                IterateResult::Success(_) => Ok::<(), SoundError>(()),
                _ => Err(SoundError::Connection),
            }),
    {
        match tick {
            IterateResult::Success(_) => Ok(()),
            _ => Err(SoundError::Connection),
        }
    }

    /// Takes one tick of the wait for readiness. Returns `Ok(true)` once the
    /// context is ready, `Ok(false)` while it is still connecting, and a
    /// connection error when the tick failed or the context failed or ended.
    /// A connection no longer connecting is left as it is.
    pub fn advance(&mut self, tick: IterateResult, state: ContextState) -> (r: Result<bool, SoundError>)
        ensures
            old(self).phase == ConnectionPhase::Connecting ==> final(self).phase == next_phase(tick, state),
            old(self).phase != ConnectionPhase::Connecting ==> final(self).phase == old(self).phase,
            r == (match final(self).phase {
                ConnectionPhase::Ready => Ok::<bool, SoundError>(true),
                ConnectionPhase::Connecting => Ok(false),
                ConnectionPhase::Failed => Err(SoundError::Connection),
            }),
    {
        if self.phase == ConnectionPhase::Connecting {
            self.phase = match Self::iterate(tick) {
                Err(_) => ConnectionPhase::Failed,
                Ok(()) => match state {
                    ContextState::Ready => ConnectionPhase::Ready,
                    ContextState::Failed | ContextState::Terminated => ConnectionPhase::Failed,
                    _ => ConnectionPhase::Connecting,
                },
            };
        }
        match self.phase {
            ConnectionPhase::Ready => Ok(true),
            ConnectionPhase::Connecting => Ok(false),
            ConnectionPhase::Failed => Err(SoundError::Connection),
        }
    }
}

} // verus!
