//! What becomes of an operation, and what each answer of the runtime means for it.

use crate::error::{Error, Message};
use crate::number::Number;
use crate::operation::{CallOutcome, Entries, Fetched, FromReply, Operation, Stored};
use crate::storage::{Storage, Transaction};
use crate::value::{Kind, Value};
use vstd::prelude::*;

verus! {

/// Whether `operation` ends as `end` once it was told that its call went as `outcome` says, and that
/// the promise was settled as `promise` says.
pub open spec fn ends_as<C, H, O: FromReply<H>>(
    operation: Operation<C, H, O>,
    outcome: CallOutcome<H>,
    promise: Result<Value<H>, H>,
    end: Operation<C, H, O>,
) -> bool {
    exists|told: Operation<C, H, O>|
        #![trigger call_ensures(Operation::<C, H, O>::called, (operation, outcome), told)]
        call_ensures(Operation::<C, H, O>::called, (operation, outcome), told) && call_ensures(
            Operation::<C, H, O>::settled,
            (told, promise),
            end,
        )
}

/// An operation makes its call, then waits, then is done. It takes note of a call only where it has
/// one to make, and of a promise only where it waits for one.
pub proof fn law_operation_goes_step_by_step<C, H, O: FromReply<H>>(
    operation: Operation<C, H, O>,
    outcome: CallOutcome<H>,
    told: Operation<C, H, O>,
    promise: Result<Value<H>, H>,
    heard: Operation<C, H, O>,
)
    requires
        call_ensures(Operation::<C, H, O>::called, (operation, outcome), told),
        call_ensures(Operation::<C, H, O>::settled, (operation, promise), heard),
    ensures
        match operation {
            Operation::Call(_) => (told is Waiting <==> outcome is Started) && (told is Done <==> !(
            outcome is Started)) && heard == operation,
            Operation::Waiting => told == operation && heard is Done,
            Operation::Done(_) => told == operation && heard == operation,
        },
{
}

/// An operation whose call fails ends with that failure: what the call threw, the error of the
/// encoder where the options could not be turned into a JavaScript value, or the reason that the
/// promise was rejected with. Whatever happens, it ends.
pub proof fn law_failed_call_ends_the_operation<C, H, O: FromReply<H>>(
    call: C,
    outcome: CallOutcome<H>,
    promise: Result<Value<H>, H>,
    end: Operation<C, H, O>,
)
    requires
        ends_as(Operation::<C, H, O>::Call(call), outcome, promise, end),
    ensures
        end is Done,
        outcome matches CallOutcome::Threw(thrown) ==> end == Operation::<C, H, O>::Done(
            Err(Error::Js(thrown)),
        ),
        outcome matches CallOutcome::Unencodable(error) ==> end == Operation::<C, H, O>::Done(
            Err(Error::Encoding(error)),
        ),
        outcome is Started && promise is Err ==> end == Operation::<C, H, O>::Done(
            Err(Error::Js(promise->Err_0)),
        ),
{
}

/// An operation that was refused before any call stays refused, whatever it is told.
pub proof fn law_refused_operation_stays_refused<C, H, O: FromReply<H>>(
    error: Error<H>,
    outcome: CallOutcome<H>,
    promise: Result<Value<H>, H>,
    end: Operation<C, H, O>,
)
    requires
        ends_as(Operation::<C, H, O>::Done(Err(error)), outcome, promise, end),
    ensures
        end == Operation::<C, H, O>::Done(Err(error)),
{
}

/// Where nothing is expected of the answer, any answer will do.
pub proof fn law_any_answer_is_success<C, H>(reply: Value<H>, end: Operation<C, H, ()>)
    requires
        call_ensures(
            Operation::<C, H, ()>::settled,
            (Operation::<C, H, ()>::Waiting, Ok::<Value<H>, H>(reply)),
            end,
        ),
    ensures
        end == Operation::<C, H, ()>::Done(Ok(())),
{
}

/// Where a boolean is expected, a boolean is the result and anything else is an error.
pub proof fn law_answer_is_a_bool<C, H>(reply: Value<H>, end: Operation<C, H, bool>)
    requires
        call_ensures(
            Operation::<C, H, bool>::settled,
            (Operation::<C, H, bool>::Waiting, Ok::<Value<H>, H>(reply)),
            end,
        ),
    ensures
        forall|b: bool|
            reply.kind == Kind::Bool(b) <==> end == Operation::<C, H, bool>::Done(Ok(b)),
        !(reply.kind is Bool) ==> end == Operation::<C, H, bool>::Done(
            Err(Error::JsMessage(Message::NotABool)),
        ),
{
}

/// Where a count is expected, a number is the result, as the integer that it becomes, and anything
/// else is an error.
pub proof fn law_answer_is_a_count<C, H>(
    reply: Value<H>,
    number: Number,
    count: usize,
    end: Operation<C, H, usize>,
)
    requires
        call_ensures(
            Operation::<C, H, usize>::settled,
            (Operation::<C, H, usize>::Waiting, Ok::<Value<H>, H>(reply)),
            end,
        ),
        call_ensures(Number::as_usize, (&number,), count),
    ensures
        reply.kind == Kind::Number(number) ==> end == Operation::<C, H, usize>::Done(Ok(count)),
        !(reply.kind is Number) ==> end == Operation::<C, H, usize>::Done(
            Err(Error::JsMessage(Message::NotANumber)),
        ),
{
}

/// Where the time of the alarm is expected, a number is the result, as the integer that it becomes,
/// and anything else means that there is none.
pub proof fn law_answer_is_a_time<C, H>(
    reply: Value<H>,
    number: Number,
    time: i64,
    end: Operation<C, H, Option<i64>>,
)
    requires
        call_ensures(
            Operation::<C, H, Option<i64>>::settled,
            (Operation::<C, H, Option<i64>>::Waiting, Ok::<Value<H>, H>(reply)),
            end,
        ),
        call_ensures(Number::as_i64, (&number,), time),
    ensures
        reply.kind == Kind::Number(number) ==> end == Operation::<C, H, Option<i64>>::Done(
            Ok(Some(time)),
        ),
        !(reply.kind is Number) ==> end == Operation::<C, H, Option<i64>>::Done(Ok(None)),
{
}

/// Where a `Map` is expected, a `Map` is the result, and anything else is the error itself.
pub proof fn law_answer_is_a_map<C, H>(reply: Value<H>, end: Operation<C, H, Entries<H>>)
    requires
        call_ensures(
            Operation::<C, H, Entries<H>>::settled,
            (Operation::<C, H, Entries<H>>::Waiting, Ok::<Value<H>, H>(reply)),
            end,
        ),
    ensures
        reply.map <==> end == Operation::<C, H, Entries<H>>::Done(Ok(Entries(reply.handle))),
        !reply.map <==> end == Operation::<C, H, Entries<H>>::Done(Err(Error::Js(reply.handle))),
{
}

/// Where a `Response` is expected, a `Response` is the result, and anything else is the error itself.
pub proof fn law_answer_is_a_response<C, H>(reply: Value<H>, end: Operation<C, H, Fetched<H>>)
    requires
        call_ensures(
            Operation::<C, H, Fetched<H>>::settled,
            (Operation::<C, H, Fetched<H>>::Waiting, Ok::<Value<H>, H>(reply)),
            end,
        ),
    ensures
        reply.response <==> end == Operation::<C, H, Fetched<H>>::Done(Ok(Fetched(reply.handle))),
        !reply.response <==> end == Operation::<C, H, Fetched<H>>::Done(
            Err(Error::Js(reply.handle)),
        ),
{
}

/// Where a stored value is expected, any value but `undefined` is the result, and `undefined` means
/// that there is none.
pub proof fn law_answer_is_a_stored_value<C, H>(reply: Value<H>, end: Operation<C, H, Stored<H>>)
    requires
        call_ensures(
            Operation::<C, H, Stored<H>>::settled,
            (Operation::<C, H, Stored<H>>::Waiting, Ok::<Value<H>, H>(reply)),
            end,
        ),
    ensures
        reply.kind != Kind::Undefined <==> end == Operation::<C, H, Stored<H>>::Done(
            Ok(Stored(reply.handle)),
        ),
        reply.kind == Kind::Undefined <==> end == Operation::<C, H, Stored<H>>::Done(
            Err(Error::JsMessage(Message::NoSuchValue)),
        ),
{
}

/// A value is of one kind at most, and a boolean or a number is what its kind holds.
pub proof fn law_value_is_of_one_kind<H>(
    value: Value<H>,
    undefined: bool,
    object: bool,
    truth: Option<bool>,
    number: Option<Number>,
)
    requires
        call_ensures(Value::<H>::is_undefined, (&value,), undefined),
        call_ensures(Value::<H>::is_object, (&value,), object),
        call_ensures(Value::<H>::as_bool, (&value,), truth),
        call_ensures(Value::<H>::as_number, (&value,), number),
    ensures
        undefined <==> value.kind is Undefined,
        object <==> value.kind is Object,
        forall|b: bool| truth == Some(b) <==> value.kind == Kind::Bool(b),
        forall|n: Number| number == Some(n) <==> value.kind == Kind::Number(n),
        undefined ==> !object && truth is None && number is None,
        object ==> truth is None && number is None,
        truth is Some ==> number is None,
{
}

/// Each message has its own text, and the decoder's text is passed on as it is.
pub proof fn law_messages_have_their_texts(message: Message, text: String)
    requires
        call_ensures(Message::text, (&message,), text),
    ensures
        message is NoSuchValue ==> text@ == "No such value in storage."@,
        message is NotABool ==> text@ == "Promise did not return bool"@,
        message is NotANumber ==> text@ == "Promise did not return number"@,
        message is InsideObject ==> text@ == "Cannot get stub from within a Durable Object"@,
        message is NotAStruct ==> text@ == "Must pass in a struct type"@,
        message matches Message::Undecodable(decoder) ==> text@ == decoder@,
{
}

/// What the decoder made of a stored value is the result. Where it failed, the error on the storage
/// is a string that says what the decoder says, and within a transaction it is the decoder's error.
pub proof fn law_decoded_value_is_the_result<S, X, T, H>(
    storage: Storage<S>,
    stored: Result<T, String>,
    stored_result: Result<T, Error<H>>,
    transaction: Transaction<X>,
    seen: Result<T, H>,
    seen_result: Result<T, Error<H>>,
)
    requires
        call_ensures(Storage::<S>::decoded::<T, H>, (&storage, stored), stored_result),
        call_ensures(Transaction::<X>::decoded::<T, H>, (&transaction, seen), seen_result),
    ensures
        stored matches Ok(value) ==> stored_result == Ok::<T, Error<H>>(value),
        stored matches Err(text) ==> (stored_result matches Err(Error::JsMessage(message))
            && forall|said: String| #[trigger]
            call_ensures(Message::text, (&message,), said) ==> said@ == text@),
        seen matches Ok(value) ==> seen_result == Ok::<T, Error<H>>(value),
        seen matches Err(error) ==> seen_result == Err::<T, Error<H>>(Error::Js(error)),
{
}

} // verus!
