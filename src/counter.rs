//! Counters that hand out fresh task and playlist-initialisation ids.
use vstd::prelude::*;

verus! {

/// Identifies a background task of the interface.
#[derive(Debug, Clone, Copy, PartialEq, Eq, Hash, Structural)]
pub struct TaskId(pub u64);

/// Identifies one playlist initialisation.
#[derive(Debug, Clone, Copy, PartialEq, Eq, Hash, Structural)]
pub struct PlaylistInitId(pub u64);

/// Hands out 1, 2, 3, ...
#[derive(Debug, Clone, Copy)]
pub struct Counter {
    n: u64,
}

impl Counter {
    /// The last value handed out; 0 before the first.
    pub closed spec fn spec_last(&self) -> u64 {
        self.n
    }

    pub fn new() -> (r: Counter)
        ensures
            r.spec_last() == 0,
    {
        Counter { n: 0 }
    }

    /// The value after the last one handed out.
    pub fn next(&mut self) -> (r: u64)
        requires
            old(self).spec_last() < u64::MAX,
        ensures
            r == old(self).spec_last() + 1,
            final(self).spec_last() == r,
    {
        self.n = self.n + 1;
        self.n
    }
}

/// Hands out fresh task ids.
#[derive(Debug, Clone, Copy)]
pub struct IdCounter {
    counter: Counter,
}

impl IdCounter {
    /// The last id number handed out; 0 before the first.
    pub closed spec fn spec_last(&self) -> u64 {
        self.counter.spec_last()
    }

    pub fn new() -> (r: IdCounter)
        ensures
            r.spec_last() == 0,
    {
        IdCounter { counter: Counter::new() }
    }

    pub fn next(&mut self) -> (r: TaskId)
        requires
            old(self).spec_last() < u64::MAX,
        ensures
            r.0 == old(self).spec_last() + 1,
            final(self).spec_last() == r.0,
    {
        TaskId(self.counter.next())
    }
}

/// Hands out fresh playlist-initialisation ids.
#[derive(Debug, Clone, Copy)]
pub struct PlaylistInitIdCounter {
    counter: Counter,
}

impl PlaylistInitIdCounter {
    /// The last id number handed out; 0 before the first.
    pub closed spec fn spec_last(&self) -> u64 {
        self.counter.spec_last()
    }

    pub fn new() -> (r: PlaylistInitIdCounter)
        ensures
            r.spec_last() == 0,
    {
        PlaylistInitIdCounter { counter: Counter::new() }
    }

    pub fn next(&mut self) -> (r: PlaylistInitId)
        requires
            old(self).spec_last() < u64::MAX,
        ensures
            r.0 == old(self).spec_last() + 1,
            final(self).spec_last() == r.0,
    {
        PlaylistInitId(self.counter.next())
    }
}

} // verus!
