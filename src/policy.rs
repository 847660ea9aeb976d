//! Per-track loop policy and the engine decisions that follow from it.
use vstd::prelude::*;

verus! {

/// How often a playing track repeats.
#[derive(Debug, Clone, Copy, PartialEq, Eq, Structural)]
pub enum LoopPolicy {
    NoLooping,
    Once,
    Infinite,
}

impl LoopPolicy {
    /// The policy that the loop button moves to from `self`.
    pub open spec fn spec_next(self) -> LoopPolicy {
        match self {
            LoopPolicy::Infinite => LoopPolicy::NoLooping,
            LoopPolicy::NoLooping => LoopPolicy::Once,
            LoopPolicy::Once => LoopPolicy::Infinite,
        }
    }

    /// The policy that is left once a track under `self` has looped.
    pub open spec fn spec_looped(self) -> LoopPolicy {
        match self {
            LoopPolicy::Infinite => LoopPolicy::Infinite,
            _ => LoopPolicy::NoLooping,
        }
    }

    /// Cycles no-looping, once, infinite, and back to no-looping.
    pub fn next(self) -> (r: LoopPolicy)
        ensures
            r == self.spec_next(),
    {
        match self {
            LoopPolicy::Infinite => LoopPolicy::NoLooping,
            LoopPolicy::NoLooping => LoopPolicy::Once,
            LoopPolicy::Once => LoopPolicy::Infinite,
        }
    }

    /// Downgrades the policy after one loop: infinite stays, the rest stop looping.
    pub fn looped(self) -> (r: LoopPolicy)
        ensures
            r == self.spec_looped(),
    {
        match self {
            LoopPolicy::Infinite => LoopPolicy::Infinite,
            _ => LoopPolicy::NoLooping,
        }
    }

    /// Whether the engine keeps a loop region on the track under this policy.
    pub fn loops(&self) -> (r: bool)
        ensures
            r == (*self != LoopPolicy::NoLooping),
    {
        match self {
            LoopPolicy::NoLooping => false,
            _ => true,
        }
    }
}

} // verus!
