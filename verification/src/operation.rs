//! Operations that the runtime answers with a promise.
//!
//! An operation starts with a call to make, unless it was refused before any call. It then waits
//! for the promise that the call returned, and ends with a result.

use crate::error::{Error, Message};
use crate::number::saturate;
use crate::value::{Kind, Value};
use vstd::prelude::*;

verus! {

/// What came of making a call.
#[derive(Debug)]
pub enum CallOutcome<H> {
    /// The runtime returned a promise.
    Started,
    /// The call threw this value.
    Threw(H),
    /// The options of the call could not be turned into a JavaScript value, and the call was not
    /// made.
    Unencodable(H),
}

/// An operation on the runtime that makes the call `C` and ends with an `O`.
#[derive(Debug)]
pub enum Operation<C, H, O> {
    /// The call is to be made next.
    Call(C),
    /// The call was made. Its promise is to be awaited next.
    Waiting,
    /// There is nothing left to do.
    Done(Result<O, Error<H>>),
}

/// A result that can be read off the value that a promise resolves to.
pub trait FromReply<H>: Sized {
    /// What `reply` means.
    spec fn meaning(reply: Value<H>) -> Result<Self, Error<H>>;

    fn from_reply(reply: Value<H>) -> (r: Result<Self, Error<H>>)
        ensures
            r == Self::meaning(reply),
    ;
}

impl<C, H, O> Operation<C, H, O> {
    pub open spec fn after_call(self, outcome: CallOutcome<H>) -> Self {
        match self {
            Operation::Call(_) => match outcome {
                CallOutcome::Started => Operation::Waiting,
                CallOutcome::Threw(thrown) => Operation::Done(Err(Error::Js(thrown))),
                CallOutcome::Unencodable(error) => Operation::Done(Err(Error::Encoding(error))),
            },
            _ => self,
        }
    }

    /// Takes note of what came of making the call. An operation that has no call to make stays as
    /// it is.
    pub fn called(self, outcome: CallOutcome<H>) -> (r: Self)
        ensures
            r == self.after_call(outcome),
    {
        match self {
            Operation::Call(_) => match outcome {
                CallOutcome::Started => Operation::Waiting,
                CallOutcome::Threw(thrown) => Operation::Done(Err(Error::Js(thrown))),
                CallOutcome::Unencodable(error) => Operation::Done(Err(Error::Encoding(error))),
            },
            other => other,
        }
    }
}

impl<C, H, O: FromReply<H>> Operation<C, H, O> {
    pub open spec fn after_promise(self, outcome: Result<Value<H>, H>) -> Self {
        match self {
            Operation::Waiting => match outcome {
                Ok(reply) => Operation::Done(O::meaning(reply)),
                Err(reason) => Operation::Done(Err(Error::Js(reason))),
            },
            _ => self,
        }
    }

    /// Takes note of how the promise was settled: the value that it resolved to, or the reason that
    /// it was rejected with. An operation that awaits no promise stays as it is.
    pub fn settled(self, outcome: Result<Value<H>, H>) -> (r: Self)
        ensures
            r == self.after_promise(outcome),
    {
        match self {
            Operation::Waiting => match outcome {
                Ok(reply) => Operation::Done(O::from_reply(reply)),
                Err(reason) => Operation::Done(Err(Error::Js(reason))),
            },
            other => other,
        }
    }
}

impl<C, H, O: FromReply<H>> Operation<C, H, O> {
    /// Where the operation ends when its call returns a promise, and that resolves to `reply`.
    pub open spec fn answered_with(self, reply: Value<H>) -> Self {
        self.after_call(CallOutcome::Started).after_promise(Ok(reply))
    }
}

/// An operation makes one call at most: once it was told what came of it, it has none to make.
pub proof fn law_one_call_only<C, H, O>(operation: Operation<C, H, O>, outcome: CallOutcome<H>)
    ensures
        !(operation.after_call(outcome) is Call),
{
}

/// An operation that has ended stays as it is.
pub proof fn law_result_is_final<C, H, O: FromReply<H>>(
    operation: Operation<C, H, O>,
    call: CallOutcome<H>,
    promise: Result<Value<H>, H>,
)
    requires
        operation is Done,
    ensures
        operation.after_call(call) == operation,
        operation.after_promise(promise) == operation,
{
}

/// Whatever comes of its call and of its promise, an operation ends with the two.
pub proof fn law_operation_ends<C, H, O: FromReply<H>>(
    operation: Operation<C, H, O>,
    call: CallOutcome<H>,
    promise: Result<Value<H>, H>,
)
    ensures
        operation.after_call(call).after_promise(promise) is Done,
{
}

/// What a call throws, and what a promise is rejected with, is the error of the operation,
/// unchanged.
pub proof fn law_failures_are_passed_on<C, H, O: FromReply<H>>(call: C, failure: H)
    ensures
        Operation::<C, H, O>::Call(call).after_call(CallOutcome::Threw(failure)) == Operation::<
            C,
            H,
            O,
        >::Done(Err(Error::Js(failure))),
        Operation::<C, H, O>::Call(call).after_call(CallOutcome::Started).after_promise(Err(failure))
            == Operation::<C, H, O>::Done(Err(Error::Js(failure))),
{
}

/// Any answer will do.
impl<H> FromReply<H> for () {
    open spec fn meaning(reply: Value<H>) -> Result<(), Error<H>> {
        Ok(())
    }

    fn from_reply(reply: Value<H>) -> (r: Result<(), Error<H>>) {
        Ok(())
    }
}

/// Whether a deleted key existed.
impl<H> FromReply<H> for bool {
    open spec fn meaning(reply: Value<H>) -> Result<bool, Error<H>> {
        match reply.bool_content() {
            Some(b) => Ok(b),
            None => Err(Error::JsMessage(Message::NotABool)),
        }
    }

    fn from_reply(reply: Value<H>) -> (r: Result<bool, Error<H>>) {
        match reply.as_bool() {
            Some(b) => Ok(b),
            None => Err(Error::JsMessage(Message::NotABool)),
        }
    }
}

/// How many pairs were deleted.
impl<H> FromReply<H> for usize {
    open spec fn meaning(reply: Value<H>) -> Result<usize, Error<H>> {
        match reply.number_content() {
            Some(n) => Ok(saturate(n.whole(), 0, usize::MAX as int) as usize),
            None => Err(Error::JsMessage(Message::NotANumber)),
        }
    }

    fn from_reply(reply: Value<H>) -> (r: Result<usize, Error<H>>) {
        match reply.as_number() {
            Some(n) => Ok(n.as_usize()),
            None => Err(Error::JsMessage(Message::NotANumber)),
        }
    }
}

/// The time of the alarm in milliseconds since the epoch. Whatever is no number means that no alarm
/// is set.
impl<H> FromReply<H> for Option<i64> {
    open spec fn meaning(reply: Value<H>) -> Result<Option<i64>, Error<H>> {
        match reply.number_content() {
            Some(n) => Ok(Some(saturate(n.whole(), i64::MIN as int, i64::MAX as int) as i64)),
            None => Ok(None),
        }
    }

    fn from_reply(reply: Value<H>) -> (r: Result<Option<i64>, Error<H>>) {
        match reply.as_number() {
            Some(n) => Ok(Some(n.as_i64())),
            None => Ok(None),
        }
    }
}

/// A JavaScript `Map` from keys to values.
#[derive(Debug)]
pub struct Entries<H>(pub H);

impl<H> FromReply<H> for Entries<H> {
    open spec fn meaning(reply: Value<H>) -> Result<Entries<H>, Error<H>> {
        if reply.map {
            Ok(Entries(reply.handle))
        } else {
            Err(Error::Js(reply.handle))
        }
    }

    fn from_reply(reply: Value<H>) -> (r: Result<Entries<H>, Error<H>>) {
        if reply.map {
            Ok(Entries(reply.handle))
        } else {
            Err(Error::Js(reply.handle))
        }
    }
}

/// A JavaScript `Response`.
#[derive(Debug)]
pub struct Fetched<H>(pub H);

impl<H> FromReply<H> for Fetched<H> {
    open spec fn meaning(reply: Value<H>) -> Result<Fetched<H>, Error<H>> {
        if reply.response {
            Ok(Fetched(reply.handle))
        } else {
            Err(Error::Js(reply.handle))
        }
    }

    fn from_reply(reply: Value<H>) -> (r: Result<Fetched<H>, Error<H>>) {
        if reply.response {
            Ok(Fetched(reply.handle))
        } else {
            Err(Error::Js(reply.handle))
        }
    }
}

/// A value found in storage, still to be decoded.
#[derive(Debug)]
pub struct Stored<H>(pub H);

impl<H> FromReply<H> for Stored<H> {
    open spec fn meaning(reply: Value<H>) -> Result<Stored<H>, Error<H>> {
        if reply.kind == Kind::Undefined {
            Err(Error::JsMessage(Message::NoSuchValue))
        } else {
            Ok(Stored(reply.handle))
        }
    }

    fn from_reply(reply: Value<H>) -> (r: Result<Stored<H>, Error<H>>) {
        if reply.is_undefined() {
            Err(Error::JsMessage(Message::NoSuchValue))
        } else {
            Ok(Stored(reply.handle))
        }
    }
}

} // verus!
