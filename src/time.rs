use vstd::prelude::*;

use crate::config::MAX_TIMESTAMP;

use std::time::{Duration, SystemTime, SystemTimeError, UNIX_EPOCH};

verus! {

#[verifier::external_type_specification]
#[verifier::external_body]
pub struct ExSystemTime(SystemTime);

#[verifier::external_type_specification]
#[verifier::external_body]
pub struct ExSystemTimeError(SystemTimeError);

/// Relies on SystemTime::now to read the wall clock; nothing is known of the reading.
pub assume_specification[ SystemTime::now ]() -> SystemTime;

/// Relies on SystemTime::duration_since for the time elapsed since `earlier`,
/// an error when the clock reads before it.
pub assume_specification[ SystemTime::duration_since ](
    t: &SystemTime,
    earlier: SystemTime,
) -> Result<Duration, SystemTimeError>;

/// Relies on Duration::as_millis for the whole milliseconds of a duration.
pub assume_specification[ Duration::as_millis ](d: &Duration) -> u128;

/// Relies on std::time::UNIX_EPOCH, the instant of the Unix epoch.
#[verifier::external_body]
fn unix_epoch() -> SystemTime {
    UNIX_EPOCH
}

/// Milliseconds from `epoch` to `unix_ms`, or 0 when `unix_ms` lies before `epoch`.
pub fn elapsed_ms(unix_ms: u64, epoch: u64) -> (r: u64)
    ensures
        r == (if unix_ms >= epoch {
            unix_ms - epoch
        } else {
            0
        }),
{
    if unix_ms >= epoch {
        unix_ms - epoch
    } else {
        0
    }
}

/// A clock reading since the custom epoch, held to the timestamp range:
/// readings past `MAX_TIMESTAMP` count as `MAX_TIMESTAMP`.
pub fn cap_timestamp(t: u64) -> (r: u64)
    ensures
        r == (if t > MAX_TIMESTAMP {
            MAX_TIMESTAMP
        } else {
            t
        }),
{
    if t > MAX_TIMESTAMP {
        MAX_TIMESTAMP
    } else {
        t
    }
}

/// The wall clock in milliseconds since the Unix epoch; 0 for a clock that
/// reads before it, `u64::MAX` past the range of `u64`.
pub fn unix_time_ms() -> u64 {
    match SystemTime::now().duration_since(unix_epoch()) {
        Ok(d) => {
            let ms = d.as_millis();
            if ms > u64::MAX as u128 {
                u64::MAX
            } else {
                ms as u64
            }
        },
        Err(_) => 0,
    }
}

/// The wall clock in milliseconds since the custom `epoch`.
pub fn time_since_epoch(epoch: u64) -> u64 {
    elapsed_ms(unix_time_ms(), epoch)
}

} // verus!
