//! What each method that is about the alarm does, from what it is given to the result, on a runtime
//! that does what it promises.
//!
//! Each law is about whatever the method returns, and about the runtime's answer to the call that is
//! inside it.

use crate::number::{law_small_integers_are_exact, lemma_nearest_rounds, nearest, rounds_to};
use crate::operation::{CallOutcome, Operation};
use crate::options::{
    law_alarm_options_are_carried, property, FieldValue, GetAlarmOptions, SetAlarmOptions,
};
use crate::reply_laws::ends_as;
use crate::runtime::{Contents, Runtime};
use crate::schedule::{
    duration_secs, duration_subsec_nanos, utc_timestamp_millis, AlarmDate, ScheduledTime, TimeSpan,
};
use crate::storage::{AlarmCall, Storage};
use crate::value::Value;
use std::time::Duration;
use vstd::prelude::*;

verus! {

/// The whole milliseconds of a span are a thousand for each second, and one for each full million of
/// nanoseconds. The span of a duration has its seconds and its nanoseconds.
pub proof fn law_span_in_milliseconds(
    span: TimeSpan,
    millis: u128,
    duration: Duration,
    converted: TimeSpan,
)
    requires
        call_ensures(TimeSpan::as_millis, (&span,), millis),
        call_ensures(TimeSpan::from_duration, (&duration,), converted),
    ensures
        (millis - span.secs * 1000) * 1_000_000 <= span.nanos < (millis - span.secs * 1000 + 1)
            * 1_000_000,
        converted.secs == duration_secs(duration),
        converted.nanos == duration_subsec_nanos(duration),
{
}

/// Whether `millis` is the sum of the clock and an offset in binary64 numbers: each of the two is
/// rounded, and their sum is.
pub open spec fn is_rounded_sum(now: u64, offset: int, millis: int) -> bool {
    exists|start: int, length: int|
        #![trigger rounds_to(now as int, start), rounds_to(offset, length)]
        rounds_to(now as int, start) && rounds_to(offset, length) && rounds_to(start + length, millis)
}

proof fn lemma_rounded_sum(now: u64, offset: int)
    ensures
        is_rounded_sum(now, offset, nearest(nearest(now as int) + nearest(offset))),
        now <= 0x20_0000_0000_0000 && -0x20_0000_0000_0000 <= offset <= 0x20_0000_0000_0000 && now
            + offset <= 0x20_0000_0000_0000 ==> nearest(nearest(now as int) + nearest(offset)) == now
            + offset,
{
    let start: int = nearest(now as int);
    let length: int = nearest(offset);
    lemma_nearest_rounds(now as int);
    lemma_nearest_rounds(offset);
    lemma_nearest_rounds(start + length);
    assert(rounds_to(now as int, start) && rounds_to(offset, length));
    if now <= 0x20_0000_0000_0000 && -0x20_0000_0000_0000 <= offset <= 0x20_0000_0000_0000 && now
        + offset <= 0x20_0000_0000_0000 {
        law_small_integers_are_exact(now as int);
        law_small_integers_are_exact(offset);
        law_small_integers_are_exact(now + offset);
    }
}

/// Setting the alarm hands over the date that the time is scheduled for when the clock reads `now`,
/// with options or without.
pub proof fn law_set_alarm_hands_over_the_schedule<S, H, D>(
    storage: Storage<S>,
    time: ScheduledTime<D>,
    now: u64,
    options: SetAlarmOptions,
    operation: Operation<AlarmCall<D>, H, ()>,
    scheduled: AlarmDate<D>,
)
    requires
        call_ensures(ScheduledTime::<D>::schedule, (time, now), scheduled),
        call_ensures(Storage::<S>::set_alarm::<D, H>, (&storage, time, now), operation)
            || call_ensures(
            Storage::<S>::set_alarm_with_options::<D, H>,
            (&storage, time, now, options),
            operation,
        ),
    ensures
        operation matches Operation::Call(AlarmCall::SetAlarm { date, .. }) && date == scheduled,
{
}

/// An alarm that is set by a number is set to that many milliseconds after the time that the clock
/// reads, or before it where the number is negative: exactly, as long as none of the three has more
/// than 53 bits, and else to the binary64 sum.
pub proof fn law_alarm_by_offset_counts_from_now<S, H, D>(
    storage: Storage<S>,
    offset: i64,
    time: ScheduledTime<D>,
    now: u64,
    options: SetAlarmOptions,
    operation: Operation<AlarmCall<D>, H, ()>,
)
    requires
        call_ensures(<ScheduledTime<D> as From<i64>>::from, (offset,), time),
        call_ensures(Storage::<S>::set_alarm::<D, H>, (&storage, time, now), operation)
            || call_ensures(
            Storage::<S>::set_alarm_with_options::<D, H>,
            (&storage, time, now, options),
            operation,
        ),
    ensures
        operation matches Operation::Call(AlarmCall::SetAlarm { date: AlarmDate::Millis(millis), .. })
            && {
            let length: int = offset as int;
            &&& is_rounded_sum(now, length, millis as int)
            &&& now <= 0x20_0000_0000_0000 && -0x20_0000_0000_0000 <= length <= 0x20_0000_0000_0000
                && now + length <= 0x20_0000_0000_0000 ==> millis == now + length
        },
{
    lemma_rounded_sum(now, offset as int);
}

/// An alarm that is set by a span is set to the whole milliseconds of the span after the time that the
/// clock reads: exactly, as long as none of the three has more than 53 bits, and else to the binary64
/// sum.
pub proof fn law_alarm_by_span_counts_from_now<S, H, D>(
    storage: Storage<S>,
    span: TimeSpan,
    time: ScheduledTime<D>,
    now: u64,
    options: SetAlarmOptions,
    operation: Operation<AlarmCall<D>, H, ()>,
)
    requires
        call_ensures(<ScheduledTime<D> as From<TimeSpan>>::from, (span,), time),
        call_ensures(Storage::<S>::set_alarm::<D, H>, (&storage, time, now), operation)
            || call_ensures(
            Storage::<S>::set_alarm_with_options::<D, H>,
            (&storage, time, now, options),
            operation,
        ),
    ensures
        operation matches Operation::Call(AlarmCall::SetAlarm { date: AlarmDate::Millis(millis), .. })
            && {
            let length: int = span.secs * 1000 + span.nanos as int / 1_000_000;
            &&& is_rounded_sum(now, length, millis as int)
            &&& now <= 0x20_0000_0000_0000 && -0x20_0000_0000_0000 <= length <= 0x20_0000_0000_0000
                && now + length <= 0x20_0000_0000_0000 ==> millis == now + length
        },
{
    lemma_rounded_sum(now, span.secs * 1000 + span.nanos as int / 1_000_000);
}

/// An alarm that is set by a duration is set to the whole milliseconds of the duration after the time
/// that the clock reads: exactly, as long as none of the three has more than 53 bits, and else to the
/// binary64 sum.
pub proof fn law_alarm_by_duration_counts_from_now<S, H, D>(
    storage: Storage<S>,
    duration: Duration,
    time: ScheduledTime<D>,
    now: u64,
    options: SetAlarmOptions,
    operation: Operation<AlarmCall<D>, H, ()>,
)
    requires
        call_ensures(<ScheduledTime<D> as From<Duration>>::from, (duration,), time),
        call_ensures(Storage::<S>::set_alarm::<D, H>, (&storage, time, now), operation)
            || call_ensures(
            Storage::<S>::set_alarm_with_options::<D, H>,
            (&storage, time, now, options),
            operation,
        ),
    ensures
        operation matches Operation::Call(AlarmCall::SetAlarm { date: AlarmDate::Millis(millis), .. })
            && {
            let length: int = duration_secs(duration) * 1000 + duration_subsec_nanos(duration) as int
                / 1_000_000;
            &&& is_rounded_sum(now, length, millis as int)
            &&& now <= 0x20_0000_0000_0000 && -0x20_0000_0000_0000 <= length <= 0x20_0000_0000_0000
                && now + length <= 0x20_0000_0000_0000 ==> millis == now + length
        },
{
    lemma_rounded_sum(
        now,
        duration_secs(duration) * 1000 + duration_subsec_nanos(duration) as int / 1_000_000,
    );
}

/// An alarm that is set by a date and time in UTC is set to its milliseconds since the epoch,
/// whatever the clock says, and that is a valid date.
pub proof fn law_alarm_by_date_time_is_at_the_date_time<S, H, D>(
    runtime: Runtime<H, D>,
    storage: Storage<S>,
    date_time: chrono::NaiveDateTime,
    time: ScheduledTime<D>,
    now: u64,
    options: SetAlarmOptions,
    operation: Operation<AlarmCall<D>, H, ()>,
)
    requires
        call_ensures(<ScheduledTime<D> as From<chrono::NaiveDateTime>>::from, (date_time,), time),
        call_ensures(Storage::<S>::set_alarm::<D, H>, (&storage, time, now), operation)
            || call_ensures(
            Storage::<S>::set_alarm_with_options::<D, H>,
            (&storage, time, now, options),
            operation,
        ),
    ensures
        operation matches Operation::Call(AlarmCall::SetAlarm { date, .. }) && date
            == AlarmDate::<D>::Millis(utc_timestamp_millis(date_time) as i128) && runtime.time_of(date)
            == Some(utc_timestamp_millis(date_time) as int),
{
    law_small_integers_are_exact(utc_timestamp_millis(date_time) as int);
}

/// An alarm that is set by a timestamp is set to that time, whatever the clock says: exactly, as long
/// as it has no more than 53 bits, and else to the binary64 number that it is rounded to.
pub proof fn law_alarm_by_timestamp_is_at_the_timestamp<S, H, D>(
    storage: Storage<S>,
    timestamp: i64,
    time: ScheduledTime<D>,
    now: u64,
    options: SetAlarmOptions,
    operation: Operation<AlarmCall<D>, H, ()>,
)
    requires
        call_ensures(ScheduledTime::<D>::at_millis, (timestamp,), time),
        call_ensures(Storage::<S>::set_alarm::<D, H>, (&storage, time, now), operation)
            || call_ensures(
            Storage::<S>::set_alarm_with_options::<D, H>,
            (&storage, time, now, options),
            operation,
        ),
    ensures
        operation matches Operation::Call(AlarmCall::SetAlarm { date: AlarmDate::Millis(millis), .. })
            && {
            &&& rounds_to(timestamp as int, millis as int)
            &&& -0x20_0000_0000_0000 <= timestamp <= 0x20_0000_0000_0000 ==> millis == timestamp
        },
{
    lemma_nearest_rounds(timestamp as int);
    if -0x20_0000_0000_0000 <= timestamp <= 0x20_0000_0000_0000 {
        law_small_integers_are_exact(timestamp as int);
    }
}

/// An alarm that is set by a JavaScript date is set to that very date, whatever the clock says.
pub proof fn law_alarm_by_date_is_at_the_date<S, H, D>(
    storage: Storage<S>,
    given: D,
    time: ScheduledTime<D>,
    now: u64,
    options: SetAlarmOptions,
    operation: Operation<AlarmCall<D>, H, ()>,
)
    requires
        call_ensures(ScheduledTime::<D>::new, (given,), time),
        call_ensures(Storage::<S>::set_alarm::<D, H>, (&storage, time, now), operation)
            || call_ensures(
            Storage::<S>::set_alarm_with_options::<D, H>,
            (&storage, time, now, options),
            operation,
        ),
    ensures
        operation matches Operation::Call(AlarmCall::SetAlarm { date, .. }) && date
            == AlarmDate::<D>::Date(given),
{
}

/// Options of an alarm call are handed over as they are set, each under its own name, and nothing
/// else is. Without options the runtime is passed `null` in their place.
pub proof fn law_alarm_calls_carry_their_options<S, H, D>(
    storage: Storage<S>,
    time: ScheduledTime<D>,
    now: u64,
    setting: SetAlarmOptions,
    reading: GetAlarmOptions,
    set_plainly: Operation<AlarmCall<D>, H, ()>,
    set: Operation<AlarmCall<D>, H, ()>,
    get_plainly: Operation<AlarmCall<D>, H, Option<i64>>,
    get: Operation<AlarmCall<D>, H, Option<i64>>,
    delete_plainly: Operation<AlarmCall<D>, H, ()>,
    delete: Operation<AlarmCall<D>, H, ()>,
    name: Seq<char>,
)
    requires
        call_ensures(Storage::<S>::set_alarm::<D, H>, (&storage, time, now), set_plainly),
        call_ensures(
            Storage::<S>::set_alarm_with_options::<D, H>,
            (&storage, time, now, setting),
            set,
        ),
        call_ensures(Storage::<S>::get_alarm::<D, H>, (&storage,), get_plainly),
        call_ensures(Storage::<S>::get_alarm_with_options::<D, H>, (&storage, reading), get),
        call_ensures(Storage::<S>::delete_alarm::<D, H>, (&storage,), delete_plainly),
        call_ensures(Storage::<S>::delete_alarm_with_options::<D, H>, (&storage, setting), delete),
    ensures
        set_plainly matches Operation::Call(AlarmCall::SetAlarm { options: None, .. }),
        get_plainly matches Operation::Call(AlarmCall::GetAlarm { options: None }),
        delete_plainly matches Operation::Call(AlarmCall::DeleteAlarm { options: None }),
        set matches Operation::Call(AlarmCall::SetAlarm { options: Some(fields), .. }) && {
            &&& forall|flag: bool|
                setting.allow_concurrency == Some(flag) <==> property(fields@, "allow_concurrency"@)
                    == Some(FieldValue::<'static>::Flag(flag))
            &&& forall|flag: bool|
                setting.allow_unconfirmed == Some(flag) <==> property(fields@, "allow_unconfirmed"@)
                    == Some(FieldValue::<'static>::Flag(flag))
            &&& property(fields@, name) is Some ==> {
                ||| name == "allow_concurrency"@ && setting.allow_concurrency is Some
                ||| name == "allow_unconfirmed"@ && setting.allow_unconfirmed is Some
            }
        },
        delete matches Operation::Call(AlarmCall::DeleteAlarm { options: Some(fields) }) && {
            &&& forall|flag: bool|
                setting.allow_concurrency == Some(flag) <==> property(fields@, "allow_concurrency"@)
                    == Some(FieldValue::<'static>::Flag(flag))
            &&& forall|flag: bool|
                setting.allow_unconfirmed == Some(flag) <==> property(fields@, "allow_unconfirmed"@)
                    == Some(FieldValue::<'static>::Flag(flag))
            &&& property(fields@, name) is Some ==> {
                ||| name == "allow_concurrency"@ && setting.allow_concurrency is Some
                ||| name == "allow_unconfirmed"@ && setting.allow_unconfirmed is Some
            }
        },
        get matches Operation::Call(AlarmCall::GetAlarm { options: Some(fields) }) && {
            &&& forall|flag: bool|
                reading.allow_concurrency == Some(flag) <==> property(fields@, "allow_concurrency"@)
                    == Some(FieldValue::<'static>::Flag(flag))
            &&& property(fields@, name) is Some ==> name == "allow_concurrency"@
                && reading.allow_concurrency is Some
        },
{
    law_alarm_options_are_carried(reading, setting, name);
}

/// Reading the alarm gives its time if one is set, and `None` if none is. Nothing changes.
pub proof fn law_get_alarm_reads_the_alarm<S, H, D>(
    runtime: Runtime<H, D>,
    storage: Storage<S>,
    options: GetAlarmOptions,
    operation: Operation<AlarmCall<D>, H, Option<i64>>,
    stored: Contents<H>,
    reply: Value<H>,
    after: Contents<H>,
    end: Operation<AlarmCall<D>, H, Option<i64>>,
)
    requires
        stored.alarm matches Some(time) ==> i64::MIN <= time <= i64::MAX,
        call_ensures(Storage::<S>::get_alarm::<D, H>, (&storage,), operation) || call_ensures(
            Storage::<S>::get_alarm_with_options::<D, H>,
            (&storage, options),
            operation,
        ),
        runtime.allows_alarm(stored, operation, CallOutcome::Started, Ok(reply), after),
        ends_as(operation, CallOutcome::Started, Ok(reply), end),
    ensures
        operation matches Operation::Call(AlarmCall::GetAlarm { .. }),
        stored.alarm is None ==> end == Operation::<AlarmCall<D>, H, Option<i64>>::Done(Ok(None)),
        stored.alarm matches Some(time) ==> (end matches Operation::Done(Ok(Some(read))) && read
            == time),
        after == stored,
{
}

/// Setting the alarm replaces the alarm and touches nothing else. The alarm is then read as it was
/// set, to the millisecond.
pub proof fn law_set_alarm_sets_what_is_read<S, H, D>(
    runtime: Runtime<H, D>,
    storage: Storage<S>,
    time: ScheduledTime<D>,
    now: u64,
    options: SetAlarmOptions,
    operation: Operation<AlarmCall<D>, H, ()>,
    stored: Contents<H>,
    reply: Value<H>,
    waiting: Contents<H>,
    end: Operation<AlarmCall<D>, H, ()>,
    get_options: GetAlarmOptions,
    get: Operation<AlarmCall<D>, H, Option<i64>>,
    get_reply: Value<H>,
    after: Contents<H>,
    get_end: Operation<AlarmCall<D>, H, Option<i64>>,
)
    requires
        call_ensures(Storage::<S>::set_alarm::<D, H>, (&storage, time, now), operation)
            || call_ensures(
            Storage::<S>::set_alarm_with_options::<D, H>,
            (&storage, time, now, options),
            operation,
        ),
        runtime.allows_alarm(stored, operation, CallOutcome::Started, Ok(reply), waiting),
        ends_as(operation, CallOutcome::Started, Ok(reply), end),
        call_ensures(Storage::<S>::get_alarm::<D, H>, (&storage,), get) || call_ensures(
            Storage::<S>::get_alarm_with_options::<D, H>,
            (&storage, get_options),
            get,
        ),
        runtime.allows_alarm(waiting, get, CallOutcome::Started, Ok(get_reply), after),
        ends_as(get, CallOutcome::Started, Ok(get_reply), get_end),
    ensures
        end == Operation::<AlarmCall<D>, H, ()>::Done(Ok(())),
        waiting.entries == stored.entries,
        operation matches Operation::Call(AlarmCall::SetAlarm { date, .. }) && runtime.time_of(
            date,
        ) == waiting.alarm && waiting.alarm is Some,
        get_end matches Operation::Done(Ok(Some(read))) && Some(read as int) == waiting.alarm,
        after == waiting,
{
}

/// An alarm that is set to go off in so many milliseconds reads as the time of the call and that
/// number added, as long as the sum is a valid date and neither of the two has more than 53 bits.
pub proof fn law_alarm_in_so_many_milliseconds<S, H, D>(
    runtime: Runtime<H, D>,
    storage: Storage<S>,
    offset: i64,
    time: ScheduledTime<D>,
    now: u64,
    options: SetAlarmOptions,
    operation: Operation<AlarmCall<D>, H, ()>,
    stored: Contents<H>,
    reply: Value<H>,
    waiting: Contents<H>,
    end: Operation<AlarmCall<D>, H, ()>,
    get_options: GetAlarmOptions,
    get: Operation<AlarmCall<D>, H, Option<i64>>,
    get_reply: Value<H>,
    after: Contents<H>,
    get_end: Operation<AlarmCall<D>, H, Option<i64>>,
)
    requires
        now <= 0x20_0000_0000_0000,
        -0x20_0000_0000_0000 <= offset <= 0x20_0000_0000_0000,
        -8_640_000_000_000_000 <= now + offset <= 8_640_000_000_000_000,
        call_ensures(<ScheduledTime<D> as From<i64>>::from, (offset,), time),
        call_ensures(Storage::<S>::set_alarm::<D, H>, (&storage, time, now), operation)
            || call_ensures(
            Storage::<S>::set_alarm_with_options::<D, H>,
            (&storage, time, now, options),
            operation,
        ),
        runtime.allows_alarm(stored, operation, CallOutcome::Started, Ok(reply), waiting),
        ends_as(operation, CallOutcome::Started, Ok(reply), end),
        call_ensures(Storage::<S>::get_alarm::<D, H>, (&storage,), get) || call_ensures(
            Storage::<S>::get_alarm_with_options::<D, H>,
            (&storage, get_options),
            get,
        ),
        runtime.allows_alarm(waiting, get, CallOutcome::Started, Ok(get_reply), after),
        ends_as(get, CallOutcome::Started, Ok(get_reply), get_end),
    ensures
        operation matches Operation::Call(AlarmCall::SetAlarm { date, .. }) && runtime.time_of(date)
            == Some(now + offset),
        get_end matches Operation::Done(Ok(Some(read))) && read == now + offset,
{
    law_alarm_by_offset_counts_from_now(storage, offset, time, now, options, operation);
    law_set_alarm_sets_what_is_read(
        runtime,
        storage,
        time,
        now,
        options,
        operation,
        stored,
        reply,
        waiting,
        end,
        get_options,
        get,
        get_reply,
        after,
        get_end,
    );
}

/// Deleting the alarm leaves none and touches nothing else. None is read afterwards.
pub proof fn law_delete_alarm_leaves_none<S, H, D>(
    runtime: Runtime<H, D>,
    storage: Storage<S>,
    options: SetAlarmOptions,
    operation: Operation<AlarmCall<D>, H, ()>,
    stored: Contents<H>,
    reply: Value<H>,
    left: Contents<H>,
    end: Operation<AlarmCall<D>, H, ()>,
    get_options: GetAlarmOptions,
    get: Operation<AlarmCall<D>, H, Option<i64>>,
    get_reply: Value<H>,
    after: Contents<H>,
    get_end: Operation<AlarmCall<D>, H, Option<i64>>,
)
    requires
        call_ensures(Storage::<S>::delete_alarm::<D, H>, (&storage,), operation) || call_ensures(
            Storage::<S>::delete_alarm_with_options::<D, H>,
            (&storage, options),
            operation,
        ),
        runtime.allows_alarm(stored, operation, CallOutcome::Started, Ok(reply), left),
        ends_as(operation, CallOutcome::Started, Ok(reply), end),
        call_ensures(Storage::<S>::get_alarm::<D, H>, (&storage,), get) || call_ensures(
            Storage::<S>::get_alarm_with_options::<D, H>,
            (&storage, get_options),
            get,
        ),
        runtime.allows_alarm(left, get, CallOutcome::Started, Ok(get_reply), after),
        ends_as(get, CallOutcome::Started, Ok(get_reply), get_end),
    ensures
        operation matches Operation::Call(AlarmCall::DeleteAlarm { .. }),
        end == Operation::<AlarmCall<D>, H, ()>::Done(Ok(())),
        left.alarm is None,
        left.entries == stored.entries,
        get_end == Operation::<AlarmCall<D>, H, Option<i64>>::Done(Ok(None)),
{
}

} // verus!
