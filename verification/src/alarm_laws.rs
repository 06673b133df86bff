//! What holds of the alarm over several operations, on a runtime that does what it promises.

use crate::number::{law_small_integers_are_exact, EXACT_LIMIT};
use crate::operation::{CallOutcome, Operation};
use crate::runtime::{Contents, Runtime};
use crate::schedule::{
    law_offset_counts_from_now, utc_timestamp_millis, AlarmDate, ScheduledTime, DATE_LIMIT,
};
use crate::storage::AlarmCall;
use crate::value::Value;
use vstd::prelude::*;

verus! {

/// The alarm that was set is the alarm that is read, to the millisecond, as long as it has not
/// started, or has failed and its retry has not begun. It was set to a valid date, or the runtime
/// would not have answered.
pub proof fn law_alarm_reads_as_it_was_set<H, D>(
    runtime: Runtime<H, D>,
    stored: Contents<H>,
    set_call: AlarmCall<D>,
    date: AlarmDate<D>,
    set_reply: Value<H>,
    waiting: Contents<H>,
    get_call: AlarmCall<D>,
    get_reply: Value<H>,
    after: Contents<H>,
)
    requires
        set_call matches AlarmCall::SetAlarm { date: to, .. } && to == date,
        get_call is GetAlarm,
        runtime.answers_alarm(stored, set_call, set_reply, waiting),
        runtime.answers_alarm(waiting, get_call, get_reply, after),
    ensures
        Operation::<AlarmCall<D>, H, ()>::Call(set_call).answered_with(set_reply) == Operation::<
            AlarmCall<D>,
            H,
            (),
        >::Done(Ok(())),
        Operation::<AlarmCall<D>, H, Option<i64>>::Call(get_call).answered_with(get_reply)
            == Operation::<AlarmCall<D>, H, Option<i64>>::Done(
            Ok(Some(runtime.time_of(date)->0 as i64)),
        ),
{
}

/// An alarm that was set by an offset reads as the time of the call and the offset added, as long as
/// the sum is a valid date, and neither of the two has more than 53 bits.
pub proof fn law_alarm_counts_from_the_call<H, D>(
    runtime: Runtime<H, D>,
    stored: Contents<H>,
    time: ScheduledTime<D>,
    now: u64,
    offset: int,
    set_call: AlarmCall<D>,
    date: AlarmDate<D>,
    set_reply: Value<H>,
    waiting: Contents<H>,
    get_call: AlarmCall<D>,
    get_reply: Value<H>,
    after: Contents<H>,
)
    requires
        time.offset_millis() == Some(offset),
        now <= EXACT_LIMIT,
        -EXACT_LIMIT <= offset <= EXACT_LIMIT,
        -DATE_LIMIT <= now + offset <= DATE_LIMIT,
        set_call matches AlarmCall::SetAlarm { date: to, .. } && to == date,
        time.due(now, date),
        get_call is GetAlarm,
        runtime.answers_alarm(stored, set_call, set_reply, waiting),
        runtime.answers_alarm(waiting, get_call, get_reply, after),
    ensures
        Operation::<AlarmCall<D>, H, Option<i64>>::Call(get_call).answered_with(get_reply)
            == Operation::<AlarmCall<D>, H, Option<i64>>::Done(Ok(Some((now + offset) as i64))),
{
    law_offset_counts_from_now(time, now, offset);
    law_alarm_reads_as_it_was_set(
        runtime,
        stored,
        set_call,
        date,
        set_reply,
        waiting,
        get_call,
        get_reply,
        after,
    );
}

/// An alarm that was set by a date and time in UTC reads as its milliseconds since the epoch,
/// whatever the date and whatever the clock says. The conversion of the date gives the time that
/// this takes.
pub proof fn law_alarm_reads_as_its_date_time<H, D>(
    runtime: Runtime<H, D>,
    stored: Contents<H>,
    date_time: chrono::NaiveDateTime,
    time: ScheduledTime<D>,
    now: u64,
    set_call: AlarmCall<D>,
    date: AlarmDate<D>,
    set_reply: Value<H>,
    waiting: Contents<H>,
    get_call: AlarmCall<D>,
    get_reply: Value<H>,
    after: Contents<H>,
)
    requires
        time.is_at(date_time),
        set_call matches AlarmCall::SetAlarm { date: to, .. } && to == date,
        time.due(now, date),
        get_call is GetAlarm,
        runtime.answers_alarm(stored, set_call, set_reply, waiting),
        runtime.answers_alarm(waiting, get_call, get_reply, after),
    ensures
        Operation::<AlarmCall<D>, H, Option<i64>>::Call(get_call).answered_with(get_reply)
            == Operation::<AlarmCall<D>, H, Option<i64>>::Done(
            Ok(Some(utc_timestamp_millis(date_time))),
        ),
{
    law_small_integers_are_exact(utc_timestamp_millis(date_time) as int);
    law_alarm_reads_as_it_was_set(
        runtime,
        stored,
        set_call,
        date,
        set_reply,
        waiting,
        get_call,
        get_reply,
        after,
    );
}

/// An alarm operation that ends with an error leaves everything as it was.
pub proof fn law_failed_alarm_call_changes_nothing<H, D>(
    runtime: Runtime<H, D>,
    stored: Contents<H>,
    call: AlarmCall<D>,
    outcome: CallOutcome<H>,
    promise: Result<Value<H>, H>,
    after: Contents<H>,
)
    requires
        runtime.allows_alarm(stored, Operation::<AlarmCall<D>, H, ()>::Call(call), outcome, promise, after),
        Operation::<AlarmCall<D>, H, ()>::Call(call).after_call(outcome).after_promise(
            promise,
        ) matches Operation::Done(Err(_)),
    ensures
        after == stored,
{
}

/// Reading the alarm changes nothing, whatever comes of it.
pub proof fn law_reading_the_alarm_changes_nothing<H, D>(
    runtime: Runtime<H, D>,
    stored: Contents<H>,
    call: AlarmCall<D>,
    outcome: CallOutcome<H>,
    promise: Result<Value<H>, H>,
    after: Contents<H>,
)
    requires
        call is GetAlarm,
        runtime.allows_alarm(
            stored,
            Operation::<AlarmCall<D>, H, Option<i64>>::Call(call),
            outcome,
            promise,
            after,
        ),
    ensures
        after == stored,
{
}

/// After the alarm was deleted, none is read.
pub proof fn law_deleted_alarm_reads_as_none<H, D>(
    runtime: Runtime<H, D>,
    stored: Contents<H>,
    delete_call: AlarmCall<D>,
    delete_reply: Value<H>,
    left: Contents<H>,
    get_call: AlarmCall<D>,
    get_reply: Value<H>,
    after: Contents<H>,
)
    requires
        delete_call is DeleteAlarm,
        get_call is GetAlarm,
        runtime.answers_alarm(stored, delete_call, delete_reply, left),
        runtime.answers_alarm(left, get_call, get_reply, after),
    ensures
        Operation::<AlarmCall<D>, H, Option<i64>>::Call(get_call).answered_with(get_reply)
            == Operation::<AlarmCall<D>, H, Option<i64>>::Done(Ok(None)),
{
}

} // verus!
