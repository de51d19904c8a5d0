//! The live state of a track, as the voice driver reports it.

use vstd::prelude::*;
use crate::timespan::TimeSpan;

verus! {

/// Whether a track is playing.
#[derive(Clone, Copy, Debug, PartialEq, Eq, Structural)]
pub enum PlayMode {
    /// The track is playing.
    Play,
    /// The track is paused and may be resumed.
    Pause,
    /// The track was stopped by hand.
    Stop,
    /// The track ran to its end.
    End,
    /// The track failed.
    Errored,
}

/// How often a track repeats.
#[derive(Clone, Copy, Debug, PartialEq, Eq, Structural)]
pub enum LoopState {
    /// The track repeats until told otherwise.
    Infinite,
    /// The track repeats this many more times.
    Finite(usize),
}

/// A snapshot of a track's playback.
#[derive(Clone, Copy, Debug, PartialEq, Eq)]
pub struct TrackState {
    pub playing: PlayMode,
    pub position: TimeSpan,
    pub loops: LoopState,
}

} // verus!
