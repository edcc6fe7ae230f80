//! Wall-clock time, used to give new enemies an identifier.

use vstd::prelude::*;
use std::time::{Duration, SystemTime};

verus! {

/// The system clock's time point type, carried between the clock wrappers.
#[verifier::external_type_specification]
#[verifier::external_body]
pub struct ExSystemTime(SystemTime);

/// Reads the system clock with `SystemTime::now`. Nothing is known of the
/// time read.
#[verifier::external_body]
pub(crate) fn system_now() -> SystemTime {
    SystemTime::now()
}

/// Time elapsed from the Unix epoch to `t`, by `SystemTime::duration_since`;
/// `None` for a time before the epoch. Nothing else is stated.
#[verifier::external_body]
pub(crate) fn since_unix_epoch(t: &SystemTime) -> Option<Duration> {
    t.duration_since(std::time::UNIX_EPOCH).ok()
}

/// Whole nanoseconds of a duration, by `Duration::as_nanos`. Nothing is
/// stated of the value.
#[verifier::external_body]
pub(crate) fn duration_nanos(d: &Duration) -> u128 {
    d.as_nanos()
}

/// The identifier made from a clock reading in nanoseconds: its low 64 bits.
pub fn ui_id_from_nanos(nanos: u128) -> (r: u64)
    ensures
        r == nanos % 0x1_0000_0000_0000_0000,
{
    assert(nanos as u64 == nanos % 0x1_0000_0000_0000_0000) by (bit_vector);
    nanos as u64
}

/// The identifier made from an optional clock reading in nanoseconds: its
/// low 64 bits, or 0 when there is no reading (a clock before the epoch).
pub fn ui_id_from_reading(nanos: Option<u128>) -> (r: u64)
    ensures
        r == match nanos {
            Some(n) => (n % 0x1_0000_0000_0000_0000) as u64,
            None => 0u64,
        },
{
    match nanos {
        Some(n) => ui_id_from_nanos(n),
        None => 0,
    }
}

} // verus!
