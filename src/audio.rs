//! Values exchanged with the audio engine.
use vstd::prelude::*;

verus! {

/// How a track is handed to the audio engine.
#[derive(Debug, Clone, Copy, PartialEq, Eq, Structural)]
pub struct AudioConfig {
    start_paused: bool,
    /// Linear volume in percent: 100 plays the file as it is.
    volume: u32,
}

impl AudioConfig {
    pub closed spec fn spec_start_paused(&self) -> bool {
        self.start_paused
    }

    pub closed spec fn spec_volume(&self) -> u32 {
        self.volume
    }

    pub fn new(start_paused: bool, volume: u32) -> (r: AudioConfig)
        ensures
            r.spec_start_paused() == start_paused,
            r.spec_volume() == volume,
    {
        AudioConfig { start_paused, volume }
    }

    pub fn start_paused(&self) -> (r: bool)
        ensures
            r == self.spec_start_paused(),
    {
        self.start_paused
    }

    pub fn volume(&self) -> (r: u32)
        ensures
            r == self.spec_volume(),
    {
        self.volume
    }
}

/// Position within a playing track, in milliseconds.
#[derive(Debug, Clone, Copy, PartialEq, Eq, Structural)]
pub struct AudioProgress {
    current: u64,
    total: u64,
}

impl AudioProgress {
    pub closed spec fn spec_current(&self) -> u64 {
        self.current
    }

    pub closed spec fn spec_total(&self) -> u64 {
        self.total
    }

    pub fn new(current: u64, total: u64) -> (r: AudioProgress)
        ensures
            r.spec_current() == current,
            r.spec_total() == total,
    {
        AudioProgress { current, total }
    }

    pub fn current(&self) -> (r: u64)
        ensures
            r == self.spec_current(),
    {
        self.current
    }

    pub fn total(&self) -> (r: u64)
        ensures
            r == self.spec_total(),
    {
        self.total
    }
}

} // verus!
