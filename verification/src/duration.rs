//! `std::time::Duration` as seen from verified code. Verus sees no field of
//! a `Duration`; the commands make durations from whole numbers of seconds
//! or milliseconds, named by `millis_duration`, and read back their length
//! in whole milliseconds, named by `duration_as_millis`.
use core::time::Duration;
use vstd::prelude::*;

verus! {

/// What `Duration::as_millis` returns for `d`: the total number of whole
/// milliseconds that `d` holds.
pub uninterp spec fn duration_as_millis(d: Duration) -> u128;

/// What `Duration::from_millis` returns for `millis`: the duration of
/// exactly `millis` milliseconds.
pub uninterp spec fn millis_duration(millis: nat) -> Duration;

/// `Duration::from_millis` makes the duration of exactly `millis`
/// milliseconds, which holds `millis` whole milliseconds.
pub assume_specification[ Duration::from_millis ](millis: u64) -> (r: Duration)
    ensures
        r == millis_duration(millis as nat),
        duration_as_millis(r) == millis,
;

/// `Duration::from_secs` makes the duration of exactly `secs` whole seconds:
/// the same duration as that of `1000 * secs` milliseconds, which holds
/// `1000 * secs` whole milliseconds.
pub assume_specification[ Duration::from_secs ](secs: u64) -> (r: Duration)
    ensures
        r == millis_duration((secs * 1000) as nat),
        duration_as_millis(r) == secs * 1000,
;

/// `Duration::as_millis` returns the total number of whole milliseconds of
/// the duration.
pub assume_specification[ Duration::as_millis ](d: &Duration) -> (r: u128)
    ensures
        r == duration_as_millis(*d),
;

} // verus!
