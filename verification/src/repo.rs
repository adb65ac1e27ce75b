pub mod item_model;
pub mod model_ext;

use chrono::DurationRound;
use vstd::prelude::*;

verus! {

/// The clock could not give a usable time.
#[derive(Debug, Clone, Copy, PartialEq, Eq)]
pub struct TimestampError;

/// The span of the precision the store keeps: one microsecond, in
/// nanoseconds.
pub const STORE_PRECISION_NANOS: i64 = 1000;

/// `nanos` rounded down to a multiple of `span` (towards the beginning of
/// time), if that still fits the nanosecond range.
pub open spec fn truncated_to(nanos: i64, span: i64) -> Option<i64> {
    let t = nanos - nanos % span;
    if t >= i64::MIN {
        Some(t as i64)
    } else {
        None
    }
}

/// `nanos` rounded down to a whole microsecond, if that still fits the
/// nanosecond range.
pub open spec fn truncated_to_micros(nanos: i64) -> Option<i64> {
    truncated_to(nanos, STORE_PRECISION_NANOS)
}

/// Calls `chrono::Utc::now` and reads it as nanoseconds since the Unix epoch
/// (`timestamp_nanos_opt`). The reading depends on the clock: nothing is
/// stated of it. (`Utc::now` panics where the system clock lies before the
/// Unix epoch.)
#[verifier::external_body]
fn utc_now_nanos() -> (r: Option<i64>) {
    chrono::Utc::now().timestamp_nanos_opt()
}

/// Calls `chrono::DurationRound::duration_trunc` with a span of `span`
/// nanoseconds on the time `nanos` nanoseconds after the epoch, and reads the
/// result back as nanoseconds. For a positive span its source subtracts the
/// Euclidean remainder of the timestamp by the span, so the time moves back
/// to the start of its span; the reading fails only where that leaves the
/// nanosecond range.
#[verifier::external_body]
fn chrono_trunc(nanos: i64, span: i64) -> (r: Option<i64>)
    requires
        span > 0,
    ensures
        r == truncated_to(nanos, span),
{
    match chrono::DateTime::from_timestamp_nanos(nanos).duration_trunc(
        chrono::TimeDelta::nanoseconds(span),
    ) {
        Ok(t) => t.timestamp_nanos_opt(),
        Err(_) => None,
    }
}

/// The time a clock reading stands for: the reading cut to whole
/// microseconds, or an error where there is no reading or the cut leaves the
/// nanosecond range.
pub open spec fn time_from_reading(reading: Option<i64>) -> Result<i64, TimestampError> {
    match reading {
        Some(n) => match truncated_to_micros(n) {
            Some(t) => Ok(t),
            None => Err(TimestampError),
        },
        None => Err(TimestampError),
    }
}

/// The source of the times stored with items.
pub struct Timestamp;

impl Timestamp {
    /// A clock reading (nanoseconds since the epoch) cut to whole
    /// microseconds, the precision the store keeps.
    pub fn from_reading(reading: Option<i64>) -> (r: Result<i64, TimestampError>)
        ensures
            r == time_from_reading(reading),
    {
        match reading {
            Some(n) => match chrono_trunc(n, STORE_PRECISION_NANOS) {
                Some(t) => Ok(t),
                None => Err(TimestampError),
            },
            None => Err(TimestampError),
        }
    }

    /// The current time in nanoseconds since the epoch, cut to whole
    /// microseconds: the time of the clock's reading, whatever the clock
    /// reads.
    pub fn now() -> (r: Result<i64, TimestampError>)
        ensures
            exists|reading: Option<i64>| r == #[trigger] time_from_reading(reading),
            r matches Ok(t) ==> t % 1000 == 0,
    {
        let reading = utc_now_nanos();
        proof {
            if let Some(n) = reading {
                lemma_truncated_is_whole_micros(n);
            }
        }
        let r = Self::from_reading(reading);
        assert(r == time_from_reading(reading));
        r
    }
}

/// A truncated time is a whole number of microseconds, no later than the
/// time it came from and less than a microsecond before it.
pub proof fn lemma_truncated_is_whole_micros(nanos: i64)
    ensures
        truncated_to_micros(nanos) matches Some(t) ==> t % 1000 == 0 && t <= nanos && nanos - t
            < 1000,
{
}

} // verus!
