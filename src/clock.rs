//! The wall clock, read in milliseconds since the Unix epoch.
use std::time::{Duration, SystemTime, SystemTimeError};
use vstd::prelude::*;

verus! {

/// std's reading of the system clock, carried through opaquely.
#[verifier::external_type_specification]
#[verifier::external_body]
pub struct ExSystemTime(SystemTime);

/// std's error for a reading earlier than the one it is measured from.
#[verifier::external_type_specification]
#[verifier::external_body]
pub struct ExSystemTimeError(SystemTimeError);

/// Relies on SystemTime::now: a reading of the system clock. Nothing is
/// promised of its value.
pub assume_specification[ SystemTime::now ]() -> SystemTime;

/// Relies on SystemTime::duration_since: the time elapsed from `earlier` to
/// the reading, or an error where `earlier` is the later one.
pub assume_specification[ SystemTime::duration_since ](
    t: &SystemTime,
    earlier: SystemTime,
) -> Result<Duration, SystemTimeError>;

/// Relies on Duration::as_millis: the whole milliseconds of a duration.
pub assume_specification[ Duration::as_millis ](d: &Duration) -> u128;

/// Relies on SystemTime::UNIX_EPOCH: the time the clock counts from.
#[verifier::external_body]
fn unix_epoch() -> SystemTime {
    SystemTime::UNIX_EPOCH
}

/// Milliseconds since the Unix epoch on the system clock; 0 for a reading
/// before the epoch, and `u64::MAX` for one beyond what a `u64` holds.
pub fn wall_clock_millis() -> u64 {
    let now = SystemTime::now();
    match now.duration_since(unix_epoch()) {
        Ok(d) => {
            let ms = d.as_millis();
            if ms > u64::MAX as u128 {
                u64::MAX
            } else {
                ms as u64
            }
        },
        Err(_) => 0,
    }
}

/// Polls the clock until it reads a millisecond after `until`, and returns
/// that reading. The polls are counted and stop at `u64::MAX`, far beyond
/// any stall of a working clock; `None` says that they ran out.
pub fn block_until(until: u64) -> (r: Option<u64>)
    ensures
        r matches Some(t) ==> t > until,
{
    let mut polls: u64 = 0;
    while polls < u64::MAX
        decreases u64::MAX - polls,
    {
        let now = wall_clock_millis();
        if now > until {
            return Some(now);
        }
        polls = polls + 1;
    }
    None
}

} // verus!
