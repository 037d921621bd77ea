use vstd::prelude::*;

verus! {

/// The ways an operation of a sound device or of the sound-server client fails.
#[derive(Debug, Clone, Copy, PartialEq, Eq, Structural)]
pub enum SoundError {
    /// The sound server cannot be reached, or its connection broke down.
    Connection,
    /// The mixer's output is malformed, or a needed value is missing.
    Query,
    /// The operation needs state that has not been cached yet.
    State,
    /// A monitor or mixer process could not be started.
    Spawn,
}

} // verus!
