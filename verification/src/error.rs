//! The kinds of failure an engine meets, and which of them end it.

use vstd::prelude::*;

verus! {

/// What went wrong.
#[derive(Debug, Clone, Copy, PartialEq, Eq)]
pub enum EngineError {
    /// The watcher could not be built or registered. The engine never starts.
    Setup,
    /// The program could not be started. The slot stays empty and the engine
    /// goes on watching.
    Spawn,
    /// The watcher reported a failure in place of an event. The engine goes
    /// on watching.
    WatchStream,
    /// The watcher's channel is closed for good. The engine stops.
    ChannelClosed,
}

/// Setup failures and a closed channel end the engine; everything else is
/// reported and survived.
pub open spec fn fatal(e: EngineError) -> bool {
    e is Setup || e is ChannelClosed
}

impl EngineError {
    /// Whether this failure ends the engine.
    pub fn is_fatal(&self) -> (r: bool)
        ensures
            r == fatal(*self),
    {
        match self {
            EngineError::Setup | EngineError::ChannelClosed => true,
            EngineError::Spawn | EngineError::WatchStream => false,
        }
    }
}

} // verus!
