//! Time as the controller sees it: whole seconds on a wall clock.

use vstd::prelude::*;

verus! {

/// A point in time, in seconds since the start of 1970 on the clock it was
/// read from.
pub type Timestamp = i64;

/// A signed span of time in seconds.
pub type Seconds = i64;

pub const SECONDS_PER_MINUTE: i64 = 60;

pub const SECONDS_PER_HOUR: i64 = 3_600;

pub const SECONDS_PER_DAY: i64 = 86_400;

/// The largest distance from the start of 1970 that the library works with:
/// 2^48 seconds, some nine million years.
pub const MAX_TIMESTAMP: i64 = 0x1_0000_0000_0000;

/// Whether `t` lies in the range of times that the library works with.
pub open spec fn is_timestamp(t: int) -> bool {
    -MAX_TIMESTAMP <= t <= MAX_TIMESTAMP
}

/// The current time on the local wall clock, as `chrono::Local::now` reads it
/// and `naive_local` shows it, counted in seconds by `timestamp`.
///
/// Nothing is promised of the reading but its range: chrono counts a date's
/// days in 32 bits, so no timestamp it gives lies further than 2^48 seconds
/// from the start of 1970. chrono panics where the system clock reads a time
/// before 1970 or a local time beyond the dates it can hold.
#[verifier::external_body]
pub(crate) fn local_now() -> (now: Timestamp)
    ensures
        is_timestamp(now as int),
{
    chrono::Local::now().naive_local().and_utc().timestamp()
}

/// The current time in UTC, as `chrono::Utc::now` reads it, counted in
/// seconds by `timestamp`.
///
/// Nothing is promised of the reading but its range, for the reason given at
/// [`local_now`]. chrono panics where the system clock reads a time before
/// 1970.
#[verifier::external_body]
pub(crate) fn utc_now() -> (now: Timestamp)
    ensures
        is_timestamp(now as int),
{
    chrono::Utc::now().timestamp()
}

} // verus!
