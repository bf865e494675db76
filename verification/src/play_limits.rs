//! Per-round play limits: how many hands and discards remain in the current
//! blind, reset at the start of each blind and decremented on use, never
//! below zero.

use vstd::prelude::*;

verus! {

/// Play limits tracking the number of hands and discards available per round.
#[derive(Debug, Clone, PartialEq, Eq, Structural)]
pub struct PlayLimits {
    pub n_hands: u32,
    pub n_discards: u32,
    pub n_hands_remaining: u32,
    pub n_discards_remaining: u32,
}

impl PlayLimits {
    /// Create a new `PlayLimits` with the default values (4 hands, 3 discards).
    pub fn new() -> (r: PlayLimits)
        ensures
            r == (PlayLimits {
                n_hands: 4u32,
                n_discards: 3u32,
                n_hands_remaining: 4u32,
                n_discards_remaining: 3u32,
            }),
    {
        PlayLimits { n_hands: 4, n_discards: 3, n_hands_remaining: 4, n_discards_remaining: 3 }
    }

    /// Create a new `PlayLimits` with custom values, with both counters full.
    pub fn with_limits(n_hands: u32, n_discards: u32) -> (r: PlayLimits)
        ensures
            r == (PlayLimits {
                n_hands,
                n_discards,
                n_hands_remaining: n_hands,
                n_discards_remaining: n_discards,
            }),
    {
        PlayLimits { n_hands, n_discards, n_hands_remaining: n_hands, n_discards_remaining: n_discards }
    }

    /// Reset the remaining counters to the base limits.
    pub fn reset_remaining(&mut self)
        ensures
            *final(self) == (PlayLimits {
                n_hands_remaining: old(self).n_hands,
                n_discards_remaining: old(self).n_discards,
                ..*old(self)
            }),
    {
        self.n_hands_remaining = self.n_hands;
        self.n_discards_remaining = self.n_discards;
    }

    /// Decrement hands remaining, with a floor at zero.
    pub fn decrement_hands(&mut self)
        ensures
            final(self).n_hands_remaining == if old(self).n_hands_remaining > 0 {
                old(self).n_hands_remaining - 1
            } else {
                0int
            },
            final(self).n_hands == old(self).n_hands,
            final(self).n_discards == old(self).n_discards,
            final(self).n_discards_remaining == old(self).n_discards_remaining,
    {
        if self.n_hands_remaining > 0 {
            self.n_hands_remaining = self.n_hands_remaining - 1;
        }
    }

    /// Decrement discards remaining, with a floor at zero.
    pub fn decrement_discards(&mut self)
        ensures
            final(self).n_discards_remaining == if old(self).n_discards_remaining > 0 {
                old(self).n_discards_remaining - 1
            } else {
                0int
            },
            final(self).n_hands == old(self).n_hands,
            final(self).n_discards == old(self).n_discards,
            final(self).n_hands_remaining == old(self).n_hands_remaining,
    {
        if self.n_discards_remaining > 0 {
            self.n_discards_remaining = self.n_discards_remaining - 1;
        }
    }

    /// Check if any hands remain.
    pub fn has_hands_remaining(&self) -> (r: bool)
        ensures
            r == (self.n_hands_remaining > 0),
    {
        self.n_hands_remaining > 0
    }

    /// Check if any discards remain.
    pub fn has_discards_remaining(&self) -> (r: bool)
        ensures
            r == (self.n_discards_remaining > 0),
    {
        self.n_discards_remaining > 0
    }
}

impl Default for PlayLimits {
    /// The default limits: 4 hands and 3 discards, both counters full.
    fn default() -> (r: PlayLimits)
        ensures
            r == (PlayLimits {
                n_hands: 4u32,
                n_discards: 3u32,
                n_hands_remaining: 4u32,
                n_discards_remaining: 3u32,
            }),
    {
        PlayLimits::new()
    }
}

} // verus!
