//! How often an insert is tried, and how long to wait in between.

use vstd::prelude::*;

verus! {

/// An insert is tried this many times before its last error is reported.
pub const MAX_ATTEMPTS: u64 = 5;

/// After the failure of attempt `n`, counted from zero, the wait is `n`
/// times this many milliseconds.
pub const BACKOFF_STEP_MILLIS: u64 = 100;

/// The wait after a failure of attempt `attempt`, counted from zero.
pub open spec fn backoff_millis(attempt: int) -> int {
    BACKOFF_STEP_MILLIS * attempt
}

/// The book-keeping of one insert that is retried on failure.
pub struct InsertRetry {
    failures: u64,
}

impl InsertRetry {
    #[verifier::type_invariant]
    spec fn within_limit(self) -> bool {
        self.failures <= MAX_ATTEMPTS
    }

    /// The number of attempts that have failed so far.
    pub closed spec fn failures(&self) -> int {
        self.failures as int
    }

    /// Before the first attempt.
    pub fn new() -> (retry: InsertRetry)
        ensures
            retry.failures() == 0,
    {
        InsertRetry { failures: 0 }
    }

    /// The number of attempts that have failed so far; never above the
    /// limit.
    pub fn failed_attempts(&self) -> (count: u64)
        ensures
            count == self.failures(),
            count <= MAX_ATTEMPTS,
    {
        proof {
            use_type_invariant(self);
        }
        self.failures
    }

    /// Whether one more attempt is due: yes until five have failed.
    pub fn may_attempt(&self) -> (due: bool)
        ensures
            due == (self.failures() < MAX_ATTEMPTS),
    {
        self.failures < MAX_ATTEMPTS
    }

    /// Records that the attempt just made has failed and says how many
    /// milliseconds to wait before going on: nothing after the first
    /// failure, then a step more after each. Once the limit is reached
    /// nothing is recorded and there is nothing to wait for.
    pub fn record_failure(&mut self) -> (wait_millis: u64)
        ensures
            old(self).failures() < MAX_ATTEMPTS ==> {
                &&& wait_millis == backoff_millis(old(self).failures())
                &&& final(self).failures() == old(self).failures() + 1
            },
            old(self).failures() >= MAX_ATTEMPTS ==> {
                &&& wait_millis == 0
                &&& final(self).failures() == old(self).failures()
            },
    {
        proof {
            use_type_invariant(&*self);
        }
        if self.failures < MAX_ATTEMPTS {
            let wait_millis = BACKOFF_STEP_MILLIS * self.failures;
            self.failures = self.failures + 1;
            wait_millis
        } else {
            0
        }
    }
}

} // verus!
