use vstd::prelude::*;

verus! {

/// The failure kinds that the sharding pipeline distinguishes.
///
/// `Io` covers create/open/read/write/fsync failures, `Codec` covers
/// container or compression stream failures, `Path` marks a discovered path
/// that cannot be expressed relative to the configured prefix, and `Timeout`
/// marks an offloaded read that stalled past the configured timeout while
/// the producer was still alive.
#[derive(Clone, Copy, Debug, PartialEq, Eq, Structural)]
pub enum OpError {
    Io,
    Codec,
    Path,
    Timeout,
}

} // verus!
