//! The click counter of the web interface.
use vstd::prelude::*;

verus! {

/// A counter that shows how often its button was clicked, and that count
/// times a multiplier.
#[derive(Debug, Clone, Copy, PartialEq, Eq, Structural)]
pub struct Counter {
    pub multiplier: i64,
    pub count: i64,
}

impl Counter {
    /// A counter that was not clicked yet.
    pub fn new(multiplier: i64) -> (c: Counter)
        ensures
            c.multiplier == multiplier,
            c.count == 0,
    {
        Counter { multiplier, count: 0 }
    }

    /// One more click.
    pub fn click(&mut self)
        requires
            old(self).count < i64::MAX,
        ensures
            final(self).count == old(self).count + 1,
            final(self).multiplier == old(self).multiplier,
    {
        self.count = self.count + 1;
    }

    /// The count times the multiplier.
    pub fn scaled(&self) -> (v: i64)
        requires
            i64::MIN <= self.count * self.multiplier <= i64::MAX,
        ensures
            v == self.count * self.multiplier,
    {
        self.count * self.multiplier
    }
}

} // verus!
