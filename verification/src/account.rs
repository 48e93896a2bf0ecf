//! Throughput accounting: purely derived arithmetic over a byte count and an
//! elapsed time, with the rate guarded against division by zero.

use vstd::prelude::*;

verus! {

/// Bytes per gibibyte.
pub const GIB: usize = 1024 * 1024 * 1024;

/// The reported rate in thousandths of a gibibyte per second: zero whenever
/// no time elapsed (or no bytes moved), never a division error.
pub open spec fn rate_milli_gib(bytes: int, elapsed_millis: int) -> int {
    if elapsed_millis == 0 {
        0
    } else {
        (bytes / (GIB as int)) * 1000000 / elapsed_millis
    }
}

/// Whole gibibytes in `bytes`, rounded down.
pub fn whole_gib(bytes: usize) -> (g: usize)
    ensures
        g == bytes as int / GIB as int,
{
    bytes / GIB
}

/// Converts a byte count and an elapsed time into a transfer rate, in
/// thousandths of a gibibyte per second. When the elapsed time is zero the
/// rate is reported as zero instead of raising a division error.
pub fn rate_milli_gib_per_sec(bytes: usize, elapsed_millis: u64) -> (r: u64)
    ensures
        r == rate_milli_gib(bytes as int, elapsed_millis as int),
        elapsed_millis == 0 ==> r == 0,
        bytes == 0 ==> r == 0,
{
    if elapsed_millis == 0 {
        return 0;
    }
    let g: usize = bytes / GIB;
    proof {
        assert(bytes as int / 1073741824 * 1000000 <= 18446744073709551615int) by (nonlinear_arith)
            requires
                0 <= bytes as int <= 18446744073709551615int,
        ;
    }
    let scaled: u64 = (g as u64) * 1000000;
    scaled / elapsed_millis
}

} // verus!
