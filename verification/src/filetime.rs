//! Conversions between Unix timestamps and the FILETIME form some platforms
//! keep file times in: 100-nanosecond intervals since 1601-01-01, split into
//! two 32-bit halves. Only the arithmetic lives here; handing the result to
//! the platform is the surrounding program's business.

use vstd::prelude::*;

verus! {

/// Seconds between 1601-01-01 and the Unix epoch.
pub const EPOCH_GAP_SECS: u64 = 11644473600;

/// A file time as 100-nanosecond intervals since 1601-01-01, split into two
/// 32-bit halves.
#[derive(Clone, Copy, Debug, PartialEq, Eq, Structural)]
pub struct FileTime {
    pub low: u32,
    pub high: u32,
}

/// The whole interval count a split file time stands for.
pub open spec fn intervals_of(ft: FileTime) -> int {
    ft.high * 0x100000000 + ft.low
}

/// The interval count for a Unix timestamp in nanoseconds.
pub open spec fn filetime_intervals(unix_nanos: int) -> int {
    (unix_nanos + EPOCH_GAP_SECS * 1000000000) / 100
}

/// Converts nanoseconds since the Unix epoch into a file time: the gap to
/// 1601 is added and the count lands in 100-nanosecond intervals.
pub fn system_time_to_filetime(unix_nanos: u64) -> (ft: FileTime)
    ensures
        intervals_of(ft) == filetime_intervals(unix_nanos as int),
{
    let total: u128 = unix_nanos as u128 + 11644473600u128 * 1000000000u128;
    let intervals: u128 = total / 100;
    assert(intervals < 0x10000000000000000u128);
    let low: u32 = (intervals % 0x100000000u128) as u32;
    let high: u32 = (intervals / 0x100000000u128) as u32;
    let ft = FileTime { low, high };
    proof {
        assert(intervals_of(ft) == intervals);
    }
    ft
}

/// Converts a file time back to nanoseconds since the Unix epoch. A file
/// time before the Unix epoch, or one whose nanosecond count overflows, is
/// left out by precondition: no Unix timestamp fits either.
pub fn filetime_to_system_time(ft: FileTime) -> (unix_nanos: u64)
    requires
        intervals_of(ft) * 100 >= EPOCH_GAP_SECS * 1000000000,
        intervals_of(ft) * 100 - EPOCH_GAP_SECS * 1000000000 <= u64::MAX,
    ensures
        unix_nanos == intervals_of(ft) * 100 - EPOCH_GAP_SECS * 1000000000,
{
    let intervals: u128 = (ft.high as u128) * 0x100000000u128 + (ft.low as u128);
    let nanos: u128 = intervals * 100 - 11644473600u128 * 1000000000u128;
    nanos as u64
}

/// The two conversions are inverse up to the 100-nanosecond grain: a Unix
/// timestamp comes back with its sub-interval remainder dropped.
pub proof fn lemma_filetime_round_trip(unix_nanos: u64)
    ensures
        filetime_intervals(unix_nanos as int) * 100 - EPOCH_GAP_SECS * 1000000000 == unix_nanos
            - (unix_nanos as int % 100),
{
    let gap = (EPOCH_GAP_SECS * 1000000000) as int;
    let total = unix_nanos as int + gap;
    vstd::arithmetic::div_mod::lemma_fundamental_div_mod(total, 100);
    assert(total % 100 == unix_nanos as int % 100) by {
        vstd::arithmetic::div_mod::lemma_mod_adds(unix_nanos as int, gap, 100);
    }
}

} // verus!
