use vstd::prelude::*;

verus! {

/// Accounting core of a byte-counting reader wrapper.
///
/// A progress reader forwards every read to an inner stream and adds the
/// returned byte count to a counter. The stream forwarding itself is plain
/// I/O; what is verified here is the accounting: the counter starts at zero,
/// grows by exactly the number of bytes recorded, and never decreases.
pub struct ProgressReader {
    bytes_read: u64,
}

impl ProgressReader {
    /// Total number of bytes recorded so far.
    pub closed spec fn total(&self) -> u64 {
        self.bytes_read
    }

    /// A fresh counter holds zero bytes.
    pub fn new() -> (r: ProgressReader)
        ensures
            r.total() == 0,
    {
        ProgressReader { bytes_read: 0 }
    }

    /// Record one successful read of `count` bytes.
    pub fn record_read(&mut self, count: usize)
        requires
            old(self).total() + count <= u64::MAX,
        ensures
            final(self).total() == old(self).total() + count,
    {
        self.bytes_read = self.bytes_read + count as u64;
    }

    /// Snapshot of the counter; non-destructive.
    pub fn bytes_read(&self) -> (r: u64)
        ensures
            r == self.total(),
    {
        self.bytes_read
    }
}

} // verus!
