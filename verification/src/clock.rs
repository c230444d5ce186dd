//! Sampling the wall clock, through chrono.
use chrono::Datelike;
use chrono::Timelike;
use vstd::prelude::*;

verus! {

/// One sampled chrono instant, carried opaquely: chrono's `DateTime` cannot
/// be declared to the verifier, as its time-zone parameter is bound by an
/// outside trait.
#[verifier::external_body]
pub struct LocalStamp {
    inner: chrono::DateTime<chrono::Local>,
}

/// One sampled instant, as the plain values the scheduler reads.
#[derive(Clone, Copy)]
pub struct TimeFields {
    /// Whole seconds since the Unix epoch.
    pub stamp: i64,
    /// Month of the year, 1 to 12.
    pub month: u32,
    /// Day of the month, 1 to 31.
    pub day: u32,
    /// Hour of the day, 0 to 23.
    pub hour: u32,
    /// Minute of the hour, 0 to 59.
    pub minute: u32,
}

impl TimeFields {
    /// The ranges the calendar gives each part.
    pub open spec fn wf(self) -> bool {
        &&& 1 <= self.month <= 12
        &&& 1 <= self.day <= 31
        &&& self.hour <= 23
        &&& self.minute <= 59
    }
}

/// Relies on chrono::Local::now: the current date and time in the local zone.
/// chrono aborts if the system clock is set before the Unix epoch; that is
/// environmental, chrono has no fallible variant, and no argument exists for
/// a precondition to exclude it.
#[verifier::external_body]
fn local_now() -> LocalStamp {
    LocalStamp { inner: chrono::Local::now() }
}

/// Relies on chrono::DateTime::timestamp: the instant as whole seconds since
/// the Unix epoch.
#[verifier::external_body]
fn timestamp_of(t: &LocalStamp) -> i64 {
    t.inner.timestamp()
}

/// Relies on chrono::Datelike::month: the month number, from 1 to 12.
#[verifier::external_body]
fn month_of(t: &LocalStamp) -> (r: u32)
    ensures
        1 <= r <= 12,
{
    t.inner.month()
}

/// Relies on chrono::Datelike::day: the day of the month, from 1 to 31.
#[verifier::external_body]
fn day_of(t: &LocalStamp) -> (r: u32)
    ensures
        1 <= r <= 31,
{
    t.inner.day()
}

/// Relies on chrono::Timelike::hour: the hour number, from 0 to 23.
#[verifier::external_body]
fn hour_of(t: &LocalStamp) -> (r: u32)
    ensures
        r <= 23,
{
    t.inner.hour()
}

/// Relies on chrono::Timelike::minute: the minute number, from 0 to 59.
#[verifier::external_body]
fn minute_of(t: &LocalStamp) -> (r: u32)
    ensures
        r <= 59,
{
    t.inner.minute()
}

/// Samples the local clock once; whatever instant came back, its calendar
/// parts lie in their documented ranges.
pub fn now_fields() -> (t: TimeFields)
    ensures
        t.wf(),
{
    let now = local_now();
    TimeFields {
        stamp: timestamp_of(&now),
        month: month_of(&now),
        day: day_of(&now),
        hour: hour_of(&now),
        minute: minute_of(&now),
    }
}

} // verus!
