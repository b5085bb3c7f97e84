//! The clocks of the standard library, as far as the pipeline reads them.

use vstd::prelude::*;
use std::time::Duration;
use std::time::Instant;
use std::time::SystemTime;
use std::time::SystemTimeError;

verus! {

/// A reading of the monotonic clock, `std::time::Instant`.
#[verifier::external_type_specification]
#[verifier::external_body]
pub struct ExInstant(Instant);

/// A reading of the wall clock, `std::time::SystemTime`.
#[verifier::external_type_specification]
#[verifier::external_body]
pub struct ExSystemTime(SystemTime);

/// The error of `SystemTime::duration_since`: the second moment is later
/// than the first.
#[verifier::external_type_specification]
#[verifier::external_body]
pub struct ExSystemTimeError(SystemTimeError);

/// `Instant::now` reads the monotonic clock; nothing is claimed of the reading.
pub assume_specification[ Instant::now ]() -> (t: Instant);

/// `SystemTime::now` reads the wall clock; nothing is claimed of the reading.
pub assume_specification[ SystemTime::now ]() -> (t: SystemTime);

/// The time from the Unix epoch to `t`, by `SystemTime::duration_since`, or
/// its error where `t` lies before the epoch; nothing is claimed of either.
#[verifier::external_body]
pub(crate) fn since_unix_epoch(t: &SystemTime) -> (r: Result<Duration, SystemTimeError>) {
    t.duration_since(std::time::UNIX_EPOCH)
}

/// `Duration::as_nanos` gives the whole duration in nanoseconds; nothing is
/// claimed of the number.
pub assume_specification[ Duration::as_nanos ](d: &Duration) -> (n: u128);

/// The duration that `Duration::from_millis` makes of a number of
/// milliseconds.
pub uninterp spec fn duration_of_millis(millis: u64) -> Duration;

/// `Duration::from_millis` depends on its argument alone: the same number
/// of milliseconds always gives the same duration. It does not panic.
pub assume_specification[ Duration::from_millis ](millis: u64) -> (d: Duration)
    ensures
        d == duration_of_millis(millis),
;

/// The low 64 bits of a count of nanoseconds.
pub open spec fn low_64_bits(nanos: u128) -> u64 {
    (nanos % 0x1_0000_0000_0000_0000) as u64
}

/// The 64-bit timestamp that stands for `nanos` nanoseconds since the Unix
/// epoch: `nanos` itself until the year 2554, after that its low 64 bits.
pub fn unix_ns_of(nanos: u128) -> (ns: u64)
    ensures
        ns == low_64_bits(nanos),
        nanos <= u64::MAX ==> ns == nanos,
{
    (nanos % 0x1_0000_0000_0000_0000) as u64
}

} // verus!
