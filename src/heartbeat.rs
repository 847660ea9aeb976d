//! Position heartbeat of a playing track, telling natural loops from seeks.
//!
//! Positions are in milliseconds. A seek-generation counter, bumped on every
//! explicit seek, is read before and after each position sample: it is the
//! only way to tell a seek from a natural loop, as both show a position that
//! suddenly went down.
use vstd::prelude::*;

verus! {

/// How far the position may go back without counting as a loop.
pub const LOOP_TOLERANCE_MS: u64 = 500;

/// How far a position after a seek may be from the seek's target and still be accepted.
pub const SEEK_LAG_BOUND_MS: u64 = 500;

/// What one tick of the heartbeat observed.
#[derive(Debug, Clone, Copy, PartialEq, Eq, Structural)]
pub struct Sample {
    /// The seek counter, read before the position.
    pub count_before: u64,
    /// The track's position.
    pub position: u64,
    /// Whether the engine reported the track as stopped.
    pub stopped: bool,
}

/// What the heartbeat decided on one tick.
#[derive(Debug, Clone, Copy, PartialEq, Eq, Structural)]
pub enum Tick {
    /// The track stopped: the heartbeat ends.
    Stopped,
    /// A seek raced the sample: it is dropped.
    Discarded,
    /// A seek happened since the last tick, but the engine has not caught up with it yet.
    Lagging,
    /// A seek happened since the last tick and the position agrees with it.
    Settled,
    /// No seek since the last tick.
    Report {
        /// The position went back further than the tolerance: the track looped.
        looped: bool,
        /// The new position, when it differs from the last known one.
        progress: Option<u64>,
    },
}

/// `|a - b|`.
pub open spec fn distance(a: u64, b: u64) -> int {
    if a >= b {
        a - b
    } else {
        b - a
    }
}

/// State of the heartbeat of one playing track.
#[derive(Debug, Clone, Copy)]
pub struct Heartbeat {
    seek_count: u64,
    local_seek_count: u64,
    last_known_pos: u64,
}

impl Heartbeat {
    /// The shared seek-generation counter.
    pub closed spec fn spec_seek_count(&self) -> u64 {
        self.seek_count
    }

    /// The counter value the heartbeat last accepted.
    pub closed spec fn spec_local_seek_count(&self) -> u64 {
        self.local_seek_count
    }

    /// The last position accepted, or the target of the last seek.
    pub closed spec fn spec_last_known_pos(&self) -> u64 {
        self.last_known_pos
    }

    /// A heartbeat for a track that starts at position 0 with no seeks.
    pub fn new() -> (r: Heartbeat)
        ensures
            r.spec_seek_count() == 0,
            r.spec_local_seek_count() == 0,
            r.spec_last_known_pos() == 0,
    {
        Heartbeat { seek_count: 0, local_seek_count: 0, last_known_pos: 0 }
    }

    pub fn seek_count(&self) -> (r: u64)
        ensures
            r == self.spec_seek_count(),
    {
        self.seek_count
    }

    pub fn last_known_position(&self) -> (r: u64)
        ensures
            r == self.spec_last_known_pos(),
    {
        self.last_known_pos
    }

    /// Records an explicit seek from `current` to `target`.
    ///
    /// Returns whether the track had looped just before the seek, which the
    /// heartbeat could not see yet.
    pub fn record_seek(&mut self, current: u64, target: u64) -> (looped: bool)
        ensures
            final(self).spec_seek_count() == old(self).spec_seek_count().wrapping_add(1),
            final(self).spec_local_seek_count() == old(self).spec_local_seek_count(),
            final(self).spec_last_known_pos() == target,
            looped == (current + LOOP_TOLERANCE_MS < old(self).spec_last_known_pos()),
    {
        let looped = (current as u128) + (LOOP_TOLERANCE_MS as u128) < (self.last_known_pos as u128);
        self.seek_count = self.seek_count.wrapping_add(1);
        self.last_known_pos = target;
        looped
    }

    /// Decides one tick from `s`; the seek counter read after the position
    /// is the heartbeat's own.
    pub fn tick(&mut self, s: Sample) -> (r: Tick)
        ensures
            final(self).spec_seek_count() == old(self).spec_seek_count(),
            s.stopped ==> r == Tick::Stopped && *final(self) == *old(self),
            !s.stopped && s.count_before != old(self).spec_seek_count() ==> r == Tick::Discarded
                && final(self).spec_last_known_pos() == old(self).spec_last_known_pos()
                && final(self).spec_local_seek_count() == old(self).spec_seek_count(),
            !s.stopped && s.count_before == old(self).spec_seek_count() && s.count_before
                != old(self).spec_local_seek_count() ==> if distance(
                s.position,
                old(self).spec_last_known_pos(),
            ) > SEEK_LAG_BOUND_MS {
                r == Tick::Lagging && *final(self) == *old(self)
            } else {
                r == Tick::Settled && final(self).spec_last_known_pos() == s.position
                    && final(self).spec_local_seek_count() == s.count_before
            },
            !s.stopped && s.count_before == old(self).spec_seek_count() && s.count_before
                == old(self).spec_local_seek_count() ==> r == (Tick::Report {
                looped: s.position + LOOP_TOLERANCE_MS < old(self).spec_last_known_pos(),
                progress: if s.position != old(self).spec_last_known_pos() {
                    Some(s.position)
                } else {
                    None
                },
            }) && final(self).spec_last_known_pos() == s.position && final(self).spec_local_seek_count()
                == old(self).spec_local_seek_count(),
    {
        if s.stopped {
            return Tick::Stopped;
        }
        if s.count_before != self.seek_count {
            self.local_seek_count = self.seek_count;
            return Tick::Discarded;
        }
        if s.count_before != self.local_seek_count {
            let lag = if s.position >= self.last_known_pos {
                s.position - self.last_known_pos
            } else {
                self.last_known_pos - s.position
            };
            if lag > SEEK_LAG_BOUND_MS {
                return Tick::Lagging;
            }
            self.local_seek_count = s.count_before;
            self.last_known_pos = s.position;
            return Tick::Settled;
        }
        let looped = (s.position as u128) + (LOOP_TOLERANCE_MS as u128) < (self.last_known_pos as u128);
        let progress = if s.position != self.last_known_pos {
            Some(s.position)
        } else {
            None
        };
        self.last_known_pos = s.position;
        Tick::Report { looped, progress }
    }
}

} // verus!
