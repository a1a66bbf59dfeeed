//! Unit conversions of the telemetry sample.

use vstd::prelude::*;

verus! {

/// Memory reported in bytes, as the process table gives it, in whole
/// mebibytes: divided by 1024 twice.
pub fn kib_to_mb(kib: u64) -> (r: u64)
    ensures
        r == kib / 1024 / 1024,
{
    kib / 1024 / 1024
}

} // verus!
