//! The shared elapsed-seconds counter.
//!
//! One background ticker owns the only mutable reference and bumps the
//! counter once per real second; every worker reads it at the top of its
//! request loop. The counter itself is plain state: the ticker thread and
//! the lock around the counter live in the binary, which calls `tick`
//! under that lock.

use vstd::prelude::*;

verus! {

/// Elapsed whole seconds since the run started.
///
/// The counter only ever grows, one second at a time, so a value read at
/// any point is a lower bound for every later read.
pub struct Clock {
    pub elapsed_seconds: i32,
}

impl Clock {
    /// A clock that has not ticked yet.
    pub fn new() -> (c: Clock)
        ensures
            c.elapsed() == 0,
    {
        Clock { elapsed_seconds: 0 }
    }

    /// The current counter value, as contracts see it.
    pub open spec fn elapsed(&self) -> int {
        self.elapsed_seconds as int
    }

    /// One tick: exactly one more second has passed.
    pub fn tick(&mut self)
        requires
            old(self).elapsed() < i32::MAX,
        ensures
            final(self).elapsed() == old(self).elapsed() + 1,
    {
        self.elapsed_seconds = self.elapsed_seconds + 1;
    }

    /// Deliver `n` ticks in a row: the counter grows by exactly `n`.
    ///
    /// This is the counter's accuracy guarantee: a reader that samples
    /// the clock after `n` ticks have been delivered sees exactly `n`
    /// more than before them. Any slack between real seconds and the
    /// sampled value comes only from when the ticker gets scheduled,
    /// never from the counting itself.
    pub fn advance(&mut self, n: u32)
        requires
            old(self).elapsed() + n <= i32::MAX,
        ensures
            final(self).elapsed() == old(self).elapsed() + n,
    {
        let mut i: u32 = 0;
        while i < n
            invariant
                i <= n,
                self.elapsed() == old(self).elapsed() + i,
                old(self).elapsed() + n <= i32::MAX,
            decreases n - i,
        {
            self.tick();
            i = i + 1;
        }
    }

    /// An atomic read of the counter.
    pub fn read(&self) -> (e: i32)
        ensures
            e == self.elapsed(),
    {
        self.elapsed_seconds
    }
}

} // verus!
