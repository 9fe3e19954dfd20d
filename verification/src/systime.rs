use vstd::prelude::*;

verus! {

/// A monotonic clock, modelled as a millisecond counter that the embedder
/// advances.  The physical time source is outside this crate.
pub struct EspSystemTime {
    ticks_ms: u64,
}

impl View for EspSystemTime {
    type V = u64;

    closed spec fn view(&self) -> u64 {
        self.ticks_ms
    }
}

impl EspSystemTime {
    /// A clock at its epoch.
    pub fn new() -> (r: Self)
        ensures
            r@ == 0,
    {
        EspSystemTime { ticks_ms: 0 }
    }

    /// The embedder reports that `d` milliseconds passed; the clock saturates
    /// rather than wrapping.
    pub fn advance_ms(&mut self, d: u64)
        ensures
            final(self)@ == if old(self)@ + d <= u64::MAX {
                old(self)@ + d
            } else {
                u64::MAX as int
            },
    {
        self.ticks_ms = if self.ticks_ms <= u64::MAX - d {
            self.ticks_ms + d
        } else {
            u64::MAX
        };
    }

    /// Milliseconds since the epoch; never blocks.
    pub fn now(&self) -> (r: u64)
        ensures
            r == self@,
    {
        self.ticks_ms
    }
}

} // verus!
