//! Wall-clock source handed to the storage volume manager. The boards this
//! crate serves have no battery-backed clock yet, so the source is a unit
//! token; the filesystem layer around the library stamps files with a fixed
//! date through it.

use vstd::prelude::*;

verus! {

/// Time source for filesystem timestamps.
pub struct TimeSource {
    _private: (),
}

/// Constructs the board's time source.
pub fn time_source() -> (r: TimeSource)
    ensures
        true,
{
    TimeSource { _private: () }
}

} // verus!
