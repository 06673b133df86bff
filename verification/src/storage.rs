//! The storage of a Durable Object.
//!
//! `H` stands for the type of a handle to a JavaScript value, `D` for that of a handle to a
//! JavaScript date.

use crate::error::{Error, Message};
use crate::operation::{Entries, Operation, Stored};
use crate::options::{GetAlarmOptions, ListOptions, OptionField, SetAlarmOptions};
use crate::schedule::{AlarmDate, ScheduledTime};
use crate::value::{Kind, Value};
use vstd::prelude::*;

verus! {

/// A call on the runtime's storage object, or on its transaction object.
#[derive(Debug)]
pub enum StorageCall<'a, H> {
    Get { key: &'a str },
    GetMultiple { keys: Vec<&'a str> },
    Put { key: &'a str, value: Value<H> },
    PutMultiple { values: Value<H> },
    Delete { key: &'a str },
    DeleteMultiple { keys: Vec<&'a str> },
    DeleteAll,
    List,
    ListWithOptions { options: Vec<OptionField<'a>> },
}

/// A call on the runtime's storage object that is about its alarm. Without options the runtime is
/// passed `null` in their place.
#[derive(Debug)]
pub enum AlarmCall<D> {
    GetAlarm { options: Option<Vec<OptionField<'static>>> },
    SetAlarm { date: AlarmDate<D>, options: Option<Vec<OptionField<'static>>> },
    DeleteAlarm { options: Option<Vec<OptionField<'static>>> },
}

/// Retrieving the value under `key`.
pub open spec fn get_operation<'a, H>(key: &'a str) -> Operation<StorageCall<'a, H>, H, Stored<H>> {
    Operation::Call(StorageCall::Get { key })
}

/// Retrieving the values under `keys`.
pub open spec fn get_multiple_operation<'a, H>(keys: Vec<&'a str>) -> Operation<
    StorageCall<'a, H>,
    H,
    Entries<H>,
> {
    Operation::Call(StorageCall::GetMultiple { keys })
}

/// Deleting `key`.
pub open spec fn delete_operation<'a, H>(key: &'a str) -> Operation<StorageCall<'a, H>, H, bool> {
    Operation::Call(StorageCall::Delete { key })
}

/// Deleting `keys`.
pub open spec fn delete_multiple_operation<'a, H>(keys: Vec<&'a str>) -> Operation<
    StorageCall<'a, H>,
    H,
    usize,
> {
    Operation::Call(StorageCall::DeleteMultiple { keys })
}

/// Deleting everything.
pub open spec fn delete_all_operation<'a, H>() -> Operation<StorageCall<'a, H>, H, ()> {
    Operation::Call(StorageCall::DeleteAll)
}

/// Listing everything.
pub open spec fn list_operation<'a, H>() -> Operation<StorageCall<'a, H>, H, Entries<H>> {
    Operation::Call(StorageCall::List)
}

/// Storing what the encoder made of a value: its error is the result, or else the call is made.
pub open spec fn put_operation<'a, H>(key: &'a str, encoded: Result<Value<H>, H>) -> Operation<
    StorageCall<'a, H>,
    H,
    (),
> {
    match encoded {
        Ok(value) => Operation::Call(StorageCall::Put { key, value }),
        Err(error) => Operation::Done(Err(Error::Encoding(error))),
    }
}

/// Storing what the encoder made of several values: they have to be an object.
pub open spec fn put_multiple_operation<'a, H>(encoded: Result<Value<H>, H>) -> Operation<
    StorageCall<'a, H>,
    H,
    (),
> {
    match encoded {
        Ok(values) => if values.kind == Kind::Object {
            Operation::Call(StorageCall::PutMultiple { values })
        } else {
            Operation::Done(Err(Error::RustMessage(Message::NotAStruct)))
        },
        Err(error) => Operation::Done(Err(Error::Encoding(error))),
    }
}

/// Whether the operation makes the call that lists according to `opts`.
pub open spec fn lists_with<'a, H>(
    operation: Operation<StorageCall<'a, H>, H, Entries<H>>,
    opts: ListOptions<'a>,
) -> bool {
    operation matches Operation::Call(StorageCall::ListWithOptions { options }) && options@
        == opts.properties()
}

fn put_encoded<'a, H>(key: &'a str, encoded: Result<Value<H>, H>) -> (r: Operation<
    StorageCall<'a, H>,
    H,
    (),
>)
    ensures
        r == put_operation(key, encoded),
{
    match encoded {
        Ok(value) => Operation::Call(StorageCall::Put { key, value }),
        Err(error) => Operation::Done(Err(Error::Encoding(error))),
    }
}

fn put_multiple_encoded<'a, H>(encoded: Result<Value<H>, H>) -> (r: Operation<
    StorageCall<'a, H>,
    H,
    (),
>)
    ensures
        r == put_multiple_operation::<'a, H>(encoded),
{
    match encoded {
        Ok(values) => if !values.is_object() {
            Operation::Done(Err(Error::RustMessage(Message::NotAStruct)))
        } else {
            Operation::Call(StorageCall::PutMultiple { values })
        },
        Err(error) => Operation::Done(Err(Error::Encoding(error))),
    }
}

/// Access a Durable Object's Storage API. Each method is implicitly wrapped inside a transaction,
/// such that its results are atomic and isolated from all other storage operations, even when
/// accessing multiple key-value pairs.
#[derive(Debug)]
pub struct Storage<S> {
    pub inner: S,
}

impl<S> Storage<S> {
    /// Retrieves the value associated with the given key. The value found is to be decoded, and
    /// [`Storage::decoded`] gives the result.
    pub fn get<'a, H>(&self, key: &'a str) -> (r: Operation<StorageCall<'a, H>, H, Stored<H>>)
        ensures
            r == get_operation::<H>(key),
    {
        Operation::Call(StorageCall::Get { key })
    }

    pub open spec fn decoding<T, H>(outcome: Result<T, String>) -> Result<T, Error<H>> {
        match outcome {
            Ok(value) => Ok(value),
            Err(text) => Err(Error::JsMessage(Message::Undecodable(text))),
        }
    }

    /// The result of retrieving a value, from what the decoder made of it: the value, or the text
    /// of the decoder's error.
    pub fn decoded<T, H>(&self, outcome: Result<T, String>) -> (r: Result<T, Error<H>>)
        ensures
            r == Self::decoding::<T, H>(outcome),
    {
        match outcome {
            Ok(value) => Ok(value),
            Err(text) => Err(Error::JsMessage(Message::Undecodable(text))),
        }
    }

    /// Retrieves the values associated with each of the provided keys.
    pub fn get_multiple<'a, H>(&self, keys: Vec<&'a str>) -> (r: Operation<
        StorageCall<'a, H>,
        H,
        Entries<H>,
    >)
        ensures
            r == get_multiple_operation::<H>(keys),
    {
        Operation::Call(StorageCall::GetMultiple { keys })
    }

    /// Stores the value and associates it with the given key. `encoded` is what the encoder made of
    /// the value.
    pub fn put<'a, H>(&mut self, key: &'a str, encoded: Result<Value<H>, H>) -> (r: Operation<
        StorageCall<'a, H>,
        H,
        (),
    >)
        ensures
            r == put_operation(key, encoded),
            *final(self) == *old(self),
    {
        put_encoded(key, encoded)
    }

    /// Takes a serializable struct and stores each of its keys and values to storage. `encoded` is
    /// what the encoder made of the struct.
    pub fn put_multiple<'a, H>(&mut self, encoded: Result<Value<H>, H>) -> (r: Operation<
        StorageCall<'a, H>,
        H,
        (),
    >)
        ensures
            r == put_multiple_operation::<'a, H>(encoded),
            *final(self) == *old(self),
    {
        put_multiple_encoded(encoded)
    }

    /// Deletes the key and associated value. Returns true if the key existed or false if it didn't.
    pub fn delete<'a, H>(&mut self, key: &'a str) -> (r: Operation<StorageCall<'a, H>, H, bool>)
        ensures
            r == delete_operation::<H>(key),
            *final(self) == *old(self),
    {
        Operation::Call(StorageCall::Delete { key })
    }

    /// Deletes the provided keys and their associated values. Returns a count of the number of
    /// key-value pairs deleted.
    pub fn delete_multiple<'a, H>(&mut self, keys: Vec<&'a str>) -> (r: Operation<
        StorageCall<'a, H>,
        H,
        usize,
    >)
        ensures
            r == delete_multiple_operation::<H>(keys),
            *final(self) == *old(self),
    {
        Operation::Call(StorageCall::DeleteMultiple { keys })
    }

    /// Deletes all keys and associated values, effectively deallocating all storage used by the
    /// Durable Object. In the event of a failure while the operation is still in flight, it may be
    /// that only a subset of the data is properly deleted.
    pub fn delete_all<'a, H>(&mut self) -> (r: Operation<StorageCall<'a, H>, H, ()>)
        ensures
            r == delete_all_operation::<'a, H>(),
            *final(self) == *old(self),
    {
        Operation::Call(StorageCall::DeleteAll)
    }

    /// Returns all keys and values associated with the current Durable Object in ascending
    /// lexicographic sorted order.
    ///
    /// Be aware of how much data may be stored in your Durable Object before calling this version
    /// of list without options, because it will all be loaded into the Durable Object's memory.
    /// If that is a concern, use the alternate `list_with_options()` method.
    pub fn list<'a, H>(&self) -> (r: Operation<StorageCall<'a, H>, H, Entries<H>>)
        ensures
            r == list_operation::<'a, H>(),
    {
        Operation::Call(StorageCall::List)
    }

    /// Returns keys associated with the current Durable Object according to the parameters in the
    /// provided options object.
    pub fn list_with_options<'a, H>(&self, opts: ListOptions<'a>) -> (r: Operation<
        StorageCall<'a, H>,
        H,
        Entries<H>,
    >)
        ensures
            lists_with(r, opts),
    {
        Operation::Call(StorageCall::ListWithOptions { options: opts.fields() })
    }

    /// Retrieves the current alarm time (if set) as integer milliseconds since epoch.
    /// The alarm is considered to be set if it has not started, or if it has failed
    /// and any retry has not begun. If no alarm is set, `get_alarm()` returns `None`.
    pub fn get_alarm<D, H>(&self) -> (r: Operation<AlarmCall<D>, H, Option<i64>>)
        ensures
            r == Operation::<AlarmCall<D>, H, Option<i64>>::Call((AlarmCall::GetAlarm { options: None })),
    {
        Operation::Call(AlarmCall::GetAlarm { options: None })
    }

    pub fn get_alarm_with_options<D, H>(&self, options: GetAlarmOptions) -> (r: Operation<
        AlarmCall<D>,
        H,
        Option<i64>,
    >)
        ensures
            r matches Operation::Call(AlarmCall::GetAlarm { options: Some(fields) }) && fields@
                == options.properties(),
    {
        Operation::Call(AlarmCall::GetAlarm { options: Some(options.fields()) })
    }

    /// Sets the current alarm time to the given datetime. The clock reads `now` milliseconds since
    /// the epoch.
    ///
    /// If `set_alarm()` is called with a time equal to or before the current time, the alarm
    /// will be scheduled for asynchronous execution in the immediate future. If the
    /// alarm handler is currently executing in this case, it will not be canceled.
    /// Alarms can be set to millisecond granularity and will usually execute within
    /// a few milliseconds after the set time, but can be delayed by up to a minute
    /// due to maintenance or failures while failover takes place.
    pub fn set_alarm<D, H>(&self, scheduled_time: ScheduledTime<D>, now: u64) -> (r: Operation<
        AlarmCall<D>,
        H,
        (),
    >)
        ensures
            r matches Operation::Call(AlarmCall::SetAlarm { date, options }) && scheduled_time.due(
                now,
                date,
            ) && options is None,
    {
        Operation::Call(AlarmCall::SetAlarm { date: scheduled_time.schedule(now), options: None })
    }

    pub fn set_alarm_with_options<D, H>(
        &self,
        scheduled_time: ScheduledTime<D>,
        now: u64,
        options: SetAlarmOptions,
    ) -> (r: Operation<AlarmCall<D>, H, ()>)
        ensures
            r matches Operation::Call(AlarmCall::SetAlarm { date, options: Some(fields) })
                && scheduled_time.due(now, date) && fields@ == options.properties(),
    {
        Operation::Call(
            AlarmCall::SetAlarm { date: scheduled_time.schedule(now), options: Some(options.fields()) },
        )
    }

    /// Deletes the alarm if one exists. Does not cancel the alarm handler if it is
    /// currently executing.
    pub fn delete_alarm<D, H>(&self) -> (r: Operation<AlarmCall<D>, H, ()>)
        ensures
            r == Operation::<AlarmCall<D>, H, ()>::Call((AlarmCall::DeleteAlarm { options: None })),
    {
        Operation::Call(AlarmCall::DeleteAlarm { options: None })
    }

    pub fn delete_alarm_with_options<D, H>(&self, options: SetAlarmOptions) -> (r: Operation<
        AlarmCall<D>,
        H,
        (),
    >)
        ensures
            r matches Operation::Call(AlarmCall::DeleteAlarm { options: Some(fields) }) && fields@
                == options.properties(),
    {
        Operation::Call(AlarmCall::DeleteAlarm { options: Some(options.fields()) })
    }
}

/// Access to a Durable Object's storage within one transaction.
#[derive(Debug)]
pub struct Transaction<X> {
    pub inner: X,
}

impl<X> Transaction<X> {
    /// Retrieves the value associated with the given key. The value found is to be decoded, and
    /// [`Transaction::decoded`] gives the result.
    pub fn get<'a, H>(&self, key: &'a str) -> (r: Operation<StorageCall<'a, H>, H, Stored<H>>)
        ensures
            r == get_operation::<H>(key),
    {
        Operation::Call(StorageCall::Get { key })
    }

    pub open spec fn decoding<T, H>(outcome: Result<T, H>) -> Result<T, Error<H>> {
        match outcome {
            Ok(value) => Ok(value),
            Err(error) => Err(Error::Js(error)),
        }
    }

    /// The result of retrieving a value, from what the decoder made of it: the value, or the
    /// JavaScript value of the decoder's error.
    pub fn decoded<T, H>(&self, outcome: Result<T, H>) -> (r: Result<T, Error<H>>)
        ensures
            r == Self::decoding(outcome),
    {
        match outcome {
            Ok(value) => Ok(value),
            Err(error) => Err(Error::Js(error)),
        }
    }

    /// Retrieves the values associated with each of the provided keys.
    pub fn get_multiple<'a, H>(&self, keys: Vec<&'a str>) -> (r: Operation<
        StorageCall<'a, H>,
        H,
        Entries<H>,
    >)
        ensures
            r == get_multiple_operation::<H>(keys),
    {
        Operation::Call(StorageCall::GetMultiple { keys })
    }

    /// Stores the value and associates it with the given key. `encoded` is what the encoder made of
    /// the value.
    pub fn put<'a, H>(&mut self, key: &'a str, encoded: Result<Value<H>, H>) -> (r: Operation<
        StorageCall<'a, H>,
        H,
        (),
    >)
        ensures
            r == put_operation(key, encoded),
            *final(self) == *old(self),
    {
        put_encoded(key, encoded)
    }

    /// Each key-value pair in the serialized object will be added to the storage. `encoded` is what
    /// the encoder made of the struct.
    pub fn put_multiple<'a, H>(&mut self, encoded: Result<Value<H>, H>) -> (r: Operation<
        StorageCall<'a, H>,
        H,
        (),
    >)
        ensures
            r == put_multiple_operation::<'a, H>(encoded),
            *final(self) == *old(self),
    {
        put_multiple_encoded(encoded)
    }

    /// Deletes the key and associated value. Returns true if the key existed or false if it didn't.
    pub fn delete<'a, H>(&mut self, key: &'a str) -> (r: Operation<StorageCall<'a, H>, H, bool>)
        ensures
            r == delete_operation::<H>(key),
            *final(self) == *old(self),
    {
        Operation::Call(StorageCall::Delete { key })
    }

    /// Deletes the provided keys and their associated values. Returns a count of the number of
    /// key-value pairs deleted.
    pub fn delete_multiple<'a, H>(&mut self, keys: Vec<&'a str>) -> (r: Operation<
        StorageCall<'a, H>,
        H,
        usize,
    >)
        ensures
            r == delete_multiple_operation::<H>(keys),
            *final(self) == *old(self),
    {
        Operation::Call(StorageCall::DeleteMultiple { keys })
    }

    /// Deletes all keys and associated values.
    pub fn delete_all<'a, H>(&mut self) -> (r: Operation<StorageCall<'a, H>, H, ()>)
        ensures
            r == delete_all_operation::<'a, H>(),
            *final(self) == *old(self),
    {
        Operation::Call(StorageCall::DeleteAll)
    }

    /// Returns all keys and values in ascending lexicographic sorted order.
    pub fn list<'a, H>(&self) -> (r: Operation<StorageCall<'a, H>, H, Entries<H>>)
        ensures
            r == list_operation::<'a, H>(),
    {
        Operation::Call(StorageCall::List)
    }

    /// Returns keys according to the parameters in the provided options object.
    pub fn list_with_options<'a, H>(&self, opts: ListOptions<'a>) -> (r: Operation<
        StorageCall<'a, H>,
        H,
        Entries<H>,
    >)
        ensures
            lists_with(r, opts),
    {
        Operation::Call(StorageCall::ListWithOptions { options: opts.fields() })
    }

    pub open spec fn rolled_back<H>(outcome: Result<(), H>) -> Result<(), Error<H>> {
        match outcome {
            Ok(_) => Ok(()),
            Err(thrown) => Err(Error::Js(thrown)),
        }
    }

    /// Undoes what was done within the transaction. `call` asks the runtime.
    pub fn rollback<H, F: FnOnce(&X) -> Result<(), H>>(&mut self, call: F) -> (r: Result<
        (),
        Error<H>,
    >)
        requires
            call.requires((&old(self).inner,)),
        ensures
            *final(self) == *old(self),
            exists|outcome: Result<(), H>| #[trigger]
                call.ensures((&old(self).inner,), outcome) && r == Self::rolled_back(outcome),
    {
        match call(&self.inner) {
            Ok(_) => Ok(()),
            Err(thrown) => Err(Error::Js(thrown)),
        }
    }
}

} // verus!
