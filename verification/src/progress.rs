//! Track progress snapshot: the current playback position and the total
//! duration of the active track, in milliseconds.
//!
//! The active decode session writes the position on every decoded packet and
//! the total duration once at session start; the UI and the end-of-track
//! detector read it. The surrounding application shares one cell behind a
//! lock; the cell itself is plain data with exact contracts.

use vstd::prelude::*;

verus! {

/// Playback progress of the active track: `(current position, total duration)`.
pub struct TrackProgress {
    current_position_ms: u64,
    total_duration_ms: u64,
}

impl TrackProgress {
    /// The current playback position, in milliseconds.
    pub closed spec fn current_ms(&self) -> u64 {
        self.current_position_ms
    }

    /// The total duration of the track, in milliseconds.
    pub closed spec fn total_ms(&self) -> u64 {
        self.total_duration_ms
    }

    /// A fresh cell, before any session has reported anything.
    pub fn new() -> (r: TrackProgress)
        ensures
            r.current_ms() == 0,
            r.total_ms() == 0,
    {
        TrackProgress { current_position_ms: 0, total_duration_ms: 0 }
    }

    /// Record the position of the most recently decoded packet.
    pub fn set_current_position(&mut self, position_ms: u64)
        ensures
            final(self).current_ms() == position_ms,
            final(self).total_ms() == old(self).total_ms(),
    {
        self.current_position_ms = position_ms;
    }

    /// Record the total duration, decoder-reported or estimated.
    pub fn set_total_duration(&mut self, duration_ms: u64)
        ensures
            final(self).total_ms() == duration_ms,
            final(self).current_ms() == old(self).current_ms(),
    {
        self.total_duration_ms = duration_ms;
    }

    /// Zero both cells; called when a new track begins loading, before the
    /// new session reports any real position.
    pub fn reset(&mut self)
        ensures
            final(self).current_ms() == 0,
            final(self).total_ms() == 0,
    {
        self.set_current_position(0);
        self.set_total_duration(0);
    }

    /// A consistent `(position, total)` snapshot pair.
    pub fn get_progress(&self) -> (r: (u64, u64))
        ensures
            r.0 == self.current_ms(),
            r.1 == self.total_ms(),
    {
        (self.current_position_ms, self.total_duration_ms)
    }
}

impl Default for TrackProgress {
    /// Same as [`TrackProgress::new`]: both cells at zero.
    fn default() -> (r: TrackProgress)
        ensures
            r.current_ms() == 0,
            r.total_ms() == 0,
    {
        TrackProgress::new()
    }
}

} // verus!
