//! The time of day.

use std::time::{Duration, SystemTime, SystemTimeError};

use vstd::prelude::*;

use crate::verdict::{verdict, QualificationError, QualificationErrorView};

verus! {

/// A point in time.
#[verifier::external_type_specification]
#[verifier::external_body]
pub struct ExSystemTime(SystemTime);

/// What tells that a point in time is earlier than another.
#[verifier::external_type_specification]
#[verifier::external_body]
pub struct ExSystemTimeError(SystemTimeError);

/// How many nanoseconds a point in time lies after the start of 1970 in UTC. It is negative where
/// the point lies before.
pub uninterp spec fn epoch_nanos(time: SystemTime) -> int;

/// How many nanoseconds a span of time takes.
pub uninterp spec fn span_nanos(span: Duration) -> nat;

/// Calls `SystemTime::now`, which reads the clock. Nothing is said of the time that it gives.
#[verifier::external_body]
fn system_now() -> (now: SystemTime) {
    SystemTime::now()
}

/// Reads `SystemTime::UNIX_EPOCH`, the start of 1970 in UTC.
#[verifier::external_body]
fn unix_epoch() -> (epoch: SystemTime)
    ensures
        epoch_nanos(epoch) == 0,
{
    SystemTime::UNIX_EPOCH
}

/// Calls `SystemTime::duration_since`, which gives the time from `earlier` to `time`, or an error
/// where `earlier` is the later of the two.
#[verifier::external_body]
fn time_since(time: &SystemTime, earlier: SystemTime) -> (span: Result<Duration, SystemTimeError>)
    ensures
        span is Ok == (epoch_nanos(earlier) <= epoch_nanos(*time)),
        span is Ok ==> span_nanos(span->Ok_0) == epoch_nanos(*time) - epoch_nanos(earlier),
{
    time.duration_since(earlier)
}

/// Calls `Duration::as_millis`, which gives the whole milliseconds of `span`.
#[verifier::external_body]
fn whole_millis(span: &Duration) -> (millis: u128)
    ensures
        millis == span_nanos(*span) / 1_000_000,
{
    span.as_millis()
}

/// The milliseconds from the start of 1970 to `nanos` nanoseconds after it, in 64 bits.
pub open spec fn epoch_millis(nanos: int) -> Result<u64, QualificationErrorView> {
    if nanos < 0 {
        Err(QualificationErrorView::Internal)
    } else {
        Ok((nanos / 1_000_000) as u64)
    }
}

/// The milliseconds from the start of 1970 to `time`.
pub fn millis_at(time: &SystemTime) -> (r: Result<u64, QualificationError>)
    ensures
        verdict(r) == epoch_millis(epoch_nanos(*time)),
{
    match time_since(time, unix_epoch()) {
        Ok(span) => {
            let millis: u128 = whole_millis(&span);
            Ok(#[verifier::truncate] (millis as u64))
        },
        Err(_) => Err(QualificationError::Internal),
    }
}

/// The milliseconds from the start of 1970 to the time at which this is called.
pub fn now_ms() -> (r: Result<u64, QualificationError>)
    ensures
        exists|nanos: int| verdict(r) == #[trigger] epoch_millis(nanos),
{
    let now = system_now();
    millis_at(&now)
}

} // verus!
