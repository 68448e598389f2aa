use vstd::prelude::*;

verus! {

/// The error aggregator: a shared counter that every component bumps when it
/// captures a failure, and that the top level reads once to decide overall
/// success.
///
/// The counter only ever grows, and the overall operation succeeds exactly
/// when it is still zero at the end.
pub struct ErrorCount {
    count: u64,
}

impl ErrorCount {
    /// Number of failures recorded so far.
    pub closed spec fn total(&self) -> u64 {
        self.count
    }

    /// A fresh aggregator has recorded nothing.
    pub fn new() -> (r: ErrorCount)
        ensures
            r.total() == 0,
    {
        ErrorCount { count: 0 }
    }

    /// Record one captured failure. The count never decreases.
    pub fn record(&mut self)
        requires
            old(self).total() < u64::MAX,
        ensures
            final(self).total() == old(self).total() + 1,
    {
        self.count = self.count + 1;
    }

    /// Snapshot read, taken once at the end of an operation.
    pub fn snapshot(&self) -> (r: u64)
        ensures
            r == self.total(),
    {
        self.count
    }

    /// The overall operation succeeds if and only if no failure was recorded.
    pub fn indicates_success(&self) -> (r: bool)
        ensures
            r <==> self.total() == 0,
    {
        self.count == 0
    }
}

} // verus!
