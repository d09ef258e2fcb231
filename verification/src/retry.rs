//! The retry rule of the database writes: a write that fails is tried again
//! until it has failed a fixed number of times.
use vstd::prelude::*;

verus! {

/// How many times a database write is tried before it is given up.
pub const MAX_RETRY_COUNT: u32 = 3;

/// The failures so far of one database write.
pub struct RetryBudget {
    failures: u32,
    max: u32,
}

impl RetryBudget {
    pub closed spec fn failures(&self) -> nat {
        self.failures as nat
    }

    pub closed spec fn max(&self) -> nat {
        self.max as nat
    }

    /// No failure yet, out of `max` allowed.
    pub fn new(max: u32) -> (res: RetryBudget)
        requires
            max >= 1,
        ensures
            res.failures() == 0,
            res.max() == max,
    {
        RetryBudget { failures: 0, max }
    }

    /// The budget of the database writes: `MAX_RETRY_COUNT` tries.
    pub fn for_db_write() -> (res: RetryBudget)
        ensures
            res.failures() == 0,
            res.max() == MAX_RETRY_COUNT,
    {
        RetryBudget::new(MAX_RETRY_COUNT)
    }

    /// Counts a failed try; true when it was the last one allowed, so that
    /// the write is given up.
    pub fn record_failure(&mut self) -> (give_up: bool)
        requires
            old(self).failures() < old(self).max(),
        ensures
            final(self).failures() == old(self).failures() + 1,
            final(self).max() == old(self).max(),
            give_up == (final(self).failures() == final(self).max()),
    {
        self.failures = self.failures + 1;
        self.failures == self.max
    }

    /// The number of failed tries so far.
    pub fn failures_so_far(&self) -> (res: u32)
        ensures
            res == self.failures(),
    {
        self.failures
    }
}

} // verus!
