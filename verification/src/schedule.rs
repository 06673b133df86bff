//! When an alarm is due.

use crate::number::{
    law_small_integers_are_exact, lemma_nearest_is_bounded, nearest, nearest_double, EXACT_LIMIT,
};
use std::time::Duration;
use vstd::prelude::*;

verus! {

/// How far from the epoch a JavaScript date can be, in milliseconds.
pub const DATE_LIMIT: i64 = 8_640_000_000_000_000;

/// A date and time of `chrono`, opaque to the library.
#[verifier::external_type_specification]
#[verifier::external_body]
pub struct ExNaiveDateTime(chrono::NaiveDateTime);

/// What `chrono::DateTime::timestamp_millis` returns for the date in UTC: its non-leap milliseconds
/// since the epoch.
pub uninterp spec fn utc_timestamp_millis(date: chrono::NaiveDateTime) -> i64;

/// Takes the date to be in UTC, by `chrono::NaiveDateTime::and_utc`, and calls
/// `chrono::DateTime::timestamp_millis`. The result depends on nothing but the date. The dates of
/// `chrono` go from the year -262143 to the year 262142, and all of these are within the range of
/// JavaScript dates.
#[verifier::external_body]
fn timestamp_millis(date: &chrono::NaiveDateTime) -> (r: i64)
    ensures
        r == utc_timestamp_millis(*date),
        -DATE_LIMIT <= r <= DATE_LIMIT,
{
    date.and_utc().timestamp_millis()
}

/// What `Duration::as_secs` returns: the whole seconds of the duration.
pub uninterp spec fn duration_secs(duration: Duration) -> u64;

/// What `Duration::subsec_nanos` returns: the nanoseconds of the duration beyond its whole seconds.
pub uninterp spec fn duration_subsec_nanos(duration: Duration) -> u32;

/// `Duration::as_secs`. The result depends on nothing but the duration.
pub assume_specification[ Duration::as_secs ](duration: &Duration) -> (r: u64)
    ensures
        r == duration_secs(*duration),
;

/// `Duration::subsec_nanos`. The result depends on nothing but the duration, and is less than one
/// billion.
pub assume_specification[ Duration::subsec_nanos ](duration: &Duration) -> (r: u32)
    ensures
        r == duration_subsec_nanos(*duration),
        r < 1_000_000_000,
;

/// A length of time: whole seconds, and the nanoseconds beyond them.
#[derive(Clone, Copy, Debug, PartialEq, Eq, Structural)]
pub struct TimeSpan {
    pub secs: u64,
    pub nanos: u32,
}

impl TimeSpan {
    /// The length of `duration`.
    pub fn from_duration(duration: &Duration) -> (r: TimeSpan)
        ensures
            r.secs == duration_secs(*duration),
            r.nanos == duration_subsec_nanos(*duration),
            r.nanos < 1_000_000_000,
    {
        TimeSpan { secs: duration.as_secs(), nanos: duration.subsec_nanos() }
    }

    pub open spec fn millis(self) -> int {
        self.secs * 1000 + self.nanos as int / 1_000_000
    }

    /// The whole milliseconds of the span.
    pub fn as_millis(&self) -> (r: u128)
        ensures
            r == self.millis(),
    {
        self.secs as u128 * 1000 + (self.nanos / 1_000_000) as u128
    }
}

/// What a scheduled time was made from. `D` stands for the type of a handle to a JavaScript date.
#[derive(Debug)]
pub enum ScheduledTimeInit<D> {
    /// A JavaScript date.
    Date(D),
    /// Milliseconds since the epoch.
    Timestamp(i64),
    /// Milliseconds from the moment of scheduling.
    Offset(i64),
    /// A length of time from the moment of scheduling.
    Span(TimeSpan),
}

/// Determines when a Durable Object alarm should be ran, based on a timestamp or offset.
///
/// Implements [`From`] for:
/// - [`Duration`] and [`TimeSpan`], interpreted as an offset.
/// - [`i64`], interpreted as an offset.
/// - [`chrono::NaiveDateTime`] in UTC, interpreted as a timestamp.
///
/// When an offset is used, the time at which `set_alarm()` or `set_alarm_with_options()` is called
/// is used to compute the scheduled time.
#[derive(Debug)]
pub struct ScheduledTime<D> {
    pub init: ScheduledTimeInit<D>,
}

/// The date that an alarm is set to.
#[derive(Debug)]
pub enum AlarmDate<D> {
    /// A JavaScript date, as it was given.
    Date(D),
    /// The date at this many milliseconds since the epoch. The number is a binary64 number. It may
    /// be too far from the epoch for a date, which is then invalid.
    Millis(i128),
}

impl<D> ScheduledTime<D> {
    /// Whether this is the timestamp of `date` in UTC, which is within the range of JavaScript dates.
    pub open spec fn is_at(self, date: chrono::NaiveDateTime) -> bool {
        &&& self.init == ScheduledTimeInit::<D>::Timestamp(utc_timestamp_millis(date))
        &&& -DATE_LIMIT <= utc_timestamp_millis(date) <= DATE_LIMIT
    }

    /// The milliseconds from the moment of scheduling, where an offset is used.
    pub open spec fn offset_millis(self) -> Option<int> {
        match self.init {
            ScheduledTimeInit::Offset(millis) => Some(millis as int),
            ScheduledTimeInit::Span(span) => Some(span.millis()),
            _ => None,
        }
    }

    /// The scheduled time in milliseconds since the epoch, where it was not given as a date: the sum
    /// of two binary64 numbers, as a binary64 number, where an offset is used.
    pub open spec fn due_millis(self, now: u64) -> int {
        match self.init {
            ScheduledTimeInit::Date(_) => 0,
            ScheduledTimeInit::Timestamp(millis) => nearest(millis as int),
            ScheduledTimeInit::Offset(millis) => nearest(nearest(now as int) + nearest(millis as int)),
            ScheduledTimeInit::Span(span) => nearest(nearest(now as int) + nearest(span.millis())),
        }
    }

    /// Whether `date` is the date that the alarm is set to when the clock reads `now`.
    pub open spec fn due(self, now: u64, date: AlarmDate<D>) -> bool {
        match self.init {
            ScheduledTimeInit::Date(given) => date == AlarmDate::Date(given),
            _ => date matches AlarmDate::Millis(millis) && millis == self.due_millis(now),
        }
    }

    /// The time of a JavaScript date.
    pub fn new(date: D) -> (r: Self)
        ensures
            r == (ScheduledTime { init: ScheduledTimeInit::Date(date) }),
    {
        ScheduledTime { init: ScheduledTimeInit::Date(date) }
    }

    /// The time `millis` milliseconds after the epoch.
    pub fn at_millis(millis: i64) -> (r: Self)
        ensures
            r == (ScheduledTime::<D> { init: ScheduledTimeInit::Timestamp(millis) }),
    {
        ScheduledTime { init: ScheduledTimeInit::Timestamp(millis) }
    }

    /// The date that the alarm is set to, where the clock reads `now` milliseconds since the epoch.
    pub fn schedule(self, now: u64) -> (r: AlarmDate<D>)
        ensures
            self.due(now, r),
    {
        match self.init {
            ScheduledTimeInit::Date(date) => AlarmDate::Date(date),
            ScheduledTimeInit::Timestamp(millis) => AlarmDate::Millis(nearest_double(millis as i128)),
            ScheduledTimeInit::Offset(millis) => AlarmDate::Millis(from_now(now, millis as i128)),
            ScheduledTimeInit::Span(span) => AlarmDate::Millis(
                from_now(now, span.as_millis() as i128),
            ),
        }
    }
}

/// The sum of the clock and an offset in binary64 numbers.
fn from_now(now: u64, offset: i128) -> (r: i128)
    requires
        -0x1000_0000_0000_0000_0000 <= offset <= 0x1000_0000_0000_0000_0000,
    ensures
        r == nearest(nearest(now as int) + nearest(offset as int)),
{
    proof {
        lemma_nearest_is_bounded(now as int);
        lemma_nearest_is_bounded(offset as int);
    }
    let start: i128 = nearest_double(now as i128);
    let distance: i128 = nearest_double(offset);
    nearest_double(start + distance)
}

impl<D> From<i64> for ScheduledTime<D> {
    fn from(offset: i64) -> (r: Self) {
        ScheduledTime { init: ScheduledTimeInit::Offset(offset) }
    }
}

impl<D> vstd::std_specs::convert::FromSpecImpl<i64> for ScheduledTime<D> {
    open spec fn obeys_from_spec() -> bool {
        true
    }

    open spec fn from_spec(offset: i64) -> Self {
        ScheduledTime { init: ScheduledTimeInit::Offset(offset) }
    }
}

impl<D> From<chrono::NaiveDateTime> for ScheduledTime<D> {
    fn from(date: chrono::NaiveDateTime) -> (r: Self)
        ensures
            r.is_at(date),
    {
        ScheduledTime::at_millis(timestamp_millis(&date))
    }
}

impl<D> vstd::std_specs::convert::FromSpecImpl<chrono::NaiveDateTime> for ScheduledTime<D> {
    open spec fn obeys_from_spec() -> bool {
        true
    }

    open spec fn from_spec(date: chrono::NaiveDateTime) -> Self {
        ScheduledTime { init: ScheduledTimeInit::Timestamp(utc_timestamp_millis(date)) }
    }
}

impl<D> From<TimeSpan> for ScheduledTime<D> {
    fn from(offset: TimeSpan) -> (r: Self) {
        ScheduledTime { init: ScheduledTimeInit::Span(offset) }
    }
}

impl<D> vstd::std_specs::convert::FromSpecImpl<TimeSpan> for ScheduledTime<D> {
    open spec fn obeys_from_spec() -> bool {
        true
    }

    open spec fn from_spec(offset: TimeSpan) -> Self {
        ScheduledTime { init: ScheduledTimeInit::Span(offset) }
    }
}

impl<D> From<Duration> for ScheduledTime<D> {
    fn from(offset: Duration) -> (r: Self) {
        ScheduledTime { init: ScheduledTimeInit::Span(TimeSpan::from_duration(&offset)) }
    }
}

impl<D> vstd::std_specs::convert::FromSpecImpl<Duration> for ScheduledTime<D> {
    open spec fn obeys_from_spec() -> bool {
        true
    }

    open spec fn from_spec(offset: Duration) -> Self {
        let span: TimeSpan = TimeSpan {
            secs: duration_secs(offset),
            nanos: duration_subsec_nanos(offset),
        };
        ScheduledTime { init: ScheduledTimeInit::Span(span) }
    }
}

/// An offset counts from the time that the clock reads: the alarm is due exactly that many
/// milliseconds later, as long as none of the three numbers has more than 53 bits.
pub proof fn law_offset_counts_from_now<D>(time: ScheduledTime<D>, now: u64, offset: int)
    requires
        time.offset_millis() == Some(offset),
        now <= EXACT_LIMIT,
        -EXACT_LIMIT <= offset <= EXACT_LIMIT,
        now + offset <= EXACT_LIMIT,
    ensures
        time.due_millis(now) == now + offset,
{
    law_small_integers_are_exact(now as int);
    law_small_integers_are_exact(offset);
    law_small_integers_are_exact(now + offset);
}

/// A timestamp and a date do not depend on the clock.
pub proof fn law_timestamp_ignores_the_clock<D>(
    time: ScheduledTime<D>,
    date: AlarmDate<D>,
    now: u64,
    later: u64,
)
    requires
        time.init is Date || time.init is Timestamp,
    ensures
        time.due(now, date) == time.due(later, date),
{
}

} // verus!
