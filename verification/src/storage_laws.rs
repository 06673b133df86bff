//! What each method of the storage does, from what it is given to the result, on a runtime that does
//! what it promises. The methods of a transaction do the same.
//!
//! Each law is about whatever the method returns, and about the runtime's answer to the call that is
//! inside it.

use crate::error::{Error, Message};
use crate::operation::{CallOutcome, Entries, Operation, Stored};
use crate::options::{law_list_options_are_carried, property, FieldValue, ListOptions};
use crate::reply_laws::ends_as;
use crate::runtime::{
    all_stored, in_order, is_selection, key_set, lemma_key_set_is_small, lists_key, Contents, Runtime,
};
use crate::storage::{Storage, StorageCall, Transaction};
use crate::value::{Kind, Value};
use vstd::prelude::*;

verus! {

/// Reading a key asks for that key and for nothing else. The result is the value that is stored under
/// it, or an error that says that there is none, and nothing changes.
pub proof fn law_get_reads_the_key<'a, S, X, H, D>(
    runtime: Runtime<H, D>,
    storage: Storage<S>,
    transaction: Transaction<X>,
    key: &'a str,
    operation: Operation<StorageCall<'a, H>, H, Stored<H>>,
    stored: Contents<H>,
    reply: Value<H>,
    after: Contents<H>,
    end: Operation<StorageCall<'a, H>, H, Stored<H>>,
)
    requires
        call_ensures(Storage::<S>::get::<H>, (&storage, key), operation) || call_ensures(
            Transaction::<X>::get::<H>,
            (&transaction, key),
            operation,
        ),
        runtime.allows(stored, operation, CallOutcome::Started, Ok(reply), after),
        ends_as(operation, CallOutcome::Started, Ok(reply), end),
    ensures
        operation matches Operation::Call(StorageCall::Get { key: asked }) && asked@ == key@,
        stored.entries.contains_key(key@) && stored.entries[key@].kind != Kind::Undefined ==> end
            == Operation::<StorageCall<'a, H>, H, Stored<H>>::Done(
            Ok(Stored(stored.entries[key@].handle)),
        ),
        !stored.entries.contains_key(key@) || stored.entries[key@].kind == Kind::Undefined ==> end
            == Operation::<StorageCall<'a, H>, H, Stored<H>>::Done(
            Err(Error::JsMessage(Message::NoSuchValue)),
        ),
        after == stored,
{
}

/// Reading several keys asks for those keys. The result is a map that lists a key exactly if it is
/// among them and is stored, each with the value that is stored under it, and nothing changes.
pub proof fn law_get_multiple_reads_the_keys<'a, S, X, H, D>(
    runtime: Runtime<H, D>,
    storage: Storage<S>,
    transaction: Transaction<X>,
    keys: Vec<&'a str>,
    operation: Operation<StorageCall<'a, H>, H, Entries<H>>,
    stored: Contents<H>,
    reply: Value<H>,
    after: Contents<H>,
    end: Operation<StorageCall<'a, H>, H, Entries<H>>,
)
    requires
        call_ensures(Storage::<S>::get_multiple::<H>, (&storage, keys), operation) || call_ensures(
            Transaction::<X>::get_multiple::<H>,
            (&transaction, keys),
            operation,
        ),
        runtime.allows(stored, operation, CallOutcome::Started, Ok(reply), after),
        ends_as(operation, CallOutcome::Started, Ok(reply), end),
    ensures
        operation matches Operation::Call(StorageCall::GetMultiple { keys: asked }) && asked@ == keys@,
        end == Operation::<StorageCall<'a, H>, H, Entries<H>>::Done(Ok(Entries(reply.handle))),
        all_stored((runtime.pairs)(reply.handle), stored.entries),
        forall|key: Seq<char>| #[trigger]
            lists_key((runtime.pairs)(reply.handle), key) <==> (exists|i: int|
                0 <= i < keys@.len() && #[trigger] keys@[i]@ == key) && stored.entries.contains_key(
                key,
            ),
        after == stored,
{
    assert forall|key: Seq<char>| #[trigger]
        lists_key((runtime.pairs)(reply.handle), key) <==> (exists|i: int|
            0 <= i < keys@.len() && #[trigger] keys@[i]@ == key) && stored.entries.contains_key(
            key,
        ) by {
        assert(key_set(keys@).contains(key) <==> exists|i: int|
            0 <= i < keys@.len() && #[trigger] keys@[i]@ == key);
    }
}

/// Storing a value leaves it under its key and everything else as it was. Where the value could not
/// be encoded, the encoder's error is the result and the runtime is not asked.
pub proof fn law_put_stores_the_value<'a, S, X, H, D>(
    runtime: Runtime<H, D>,
    key: &'a str,
    encoded: Result<Value<H>, H>,
    operation: Operation<StorageCall<'a, H>, H, ()>,
    stored: Contents<H>,
    reply: Value<H>,
    after: Contents<H>,
    end: Operation<StorageCall<'a, H>, H, ()>,
)
    requires
        (exists|storage: &mut Storage<S>|
            call_ensures(Storage::<S>::put::<H>, (storage, key, encoded), operation)) || (exists|
            transaction: &mut Transaction<X>,
        | call_ensures(Transaction::<X>::put::<H>, (transaction, key, encoded), operation)),
        runtime.allows(stored, operation, CallOutcome::Started, Ok(reply), after),
        ends_as(operation, CallOutcome::Started, Ok(reply), end),
    ensures
        operation is Call <==> encoded is Ok,
        encoded matches Ok(value) ==> {
            &&& operation matches Operation::Call(StorageCall::Put { key: under, value: given })
                && under@ == key@ && given == value
            &&& end == Operation::<StorageCall<'a, H>, H, ()>::Done(Ok(()))
            &&& after.entries == stored.entries.insert(key@, value)
            &&& after.alarm == stored.alarm
        },
        encoded matches Err(error) ==> {
            &&& end == Operation::<StorageCall<'a, H>, H, ()>::Done(Err(Error::Encoding(error)))
            &&& operation == end
            &&& after == stored
        },
{
}

/// Storing a struct leaves each of its values under its key and everything else as it was. Where it
/// could not be encoded, or is no struct, the result is an error that says so and the runtime is not
/// asked.
pub proof fn law_put_multiple_stores_the_values<'a, S, X, H, D>(
    runtime: Runtime<H, D>,
    encoded: Result<Value<H>, H>,
    operation: Operation<StorageCall<'a, H>, H, ()>,
    stored: Contents<H>,
    reply: Value<H>,
    after: Contents<H>,
    end: Operation<StorageCall<'a, H>, H, ()>,
)
    requires
        (exists|storage: &mut Storage<S>|
            call_ensures(Storage::<S>::put_multiple::<H>, (storage, encoded), operation)) || (exists|
            transaction: &mut Transaction<X>,
        | call_ensures(Transaction::<X>::put_multiple::<H>, (transaction, encoded), operation)),
        runtime.allows(stored, operation, CallOutcome::Started, Ok(reply), after),
        ends_as(operation, CallOutcome::Started, Ok(reply), end),
    ensures
        operation is Call <==> encoded is Ok && encoded->Ok_0.kind == Kind::Object,
        encoded matches Ok(values) && values.kind == Kind::Object ==> {
            &&& operation matches Operation::Call(StorageCall::PutMultiple { values: given }) && given
                == encoded->Ok_0
            &&& end == Operation::<StorageCall<'a, H>, H, ()>::Done(Ok(()))
            &&& after.entries == stored.entries.union_prefer_right(
                (runtime.properties)(encoded->Ok_0.handle),
            )
            &&& after.alarm == stored.alarm
        },
        encoded is Ok && encoded->Ok_0.kind != Kind::Object ==> {
            &&& end == Operation::<StorageCall<'a, H>, H, ()>::Done(
                Err(Error::RustMessage(Message::NotAStruct)),
            )
            &&& operation == end
            &&& after == stored
        },
        encoded matches Err(error) ==> {
            &&& end == Operation::<StorageCall<'a, H>, H, ()>::Done(Err(Error::Encoding(error)))
            &&& operation == end
            &&& after == stored
        },
{
}

/// Deleting a key removes that key and no other, and tells whether it existed.
pub proof fn law_delete_deletes_the_key<'a, S, X, H, D>(
    runtime: Runtime<H, D>,
    key: &'a str,
    operation: Operation<StorageCall<'a, H>, H, bool>,
    stored: Contents<H>,
    reply: Value<H>,
    after: Contents<H>,
    end: Operation<StorageCall<'a, H>, H, bool>,
)
    requires
        (exists|storage: &mut Storage<S>|
            call_ensures(Storage::<S>::delete::<H>, (storage, key), operation)) || (exists|
            transaction: &mut Transaction<X>,
        | call_ensures(Transaction::<X>::delete::<H>, (transaction, key), operation)),
        runtime.allows(stored, operation, CallOutcome::Started, Ok(reply), after),
        ends_as(operation, CallOutcome::Started, Ok(reply), end),
    ensures
        operation matches Operation::Call(StorageCall::Delete { key: asked }) && asked@ == key@,
        end == Operation::<StorageCall<'a, H>, H, bool>::Done(
            Ok(stored.entries.contains_key(key@)),
        ),
        after.entries == stored.entries.remove(key@),
        after.alarm == stored.alarm,
{
}

/// Deleting several keys removes those keys and no others, and tells how many of them existed.
pub proof fn law_delete_multiple_deletes_the_keys<'a, S, X, H, D>(
    runtime: Runtime<H, D>,
    keys: Vec<&'a str>,
    operation: Operation<StorageCall<'a, H>, H, usize>,
    stored: Contents<H>,
    reply: Value<H>,
    after: Contents<H>,
    end: Operation<StorageCall<'a, H>, H, usize>,
)
    requires
        (exists|storage: &mut Storage<S>|
            call_ensures(Storage::<S>::delete_multiple::<H>, (storage, keys), operation)) || (exists|
            transaction: &mut Transaction<X>,
        | call_ensures(Transaction::<X>::delete_multiple::<H>, (transaction, keys), operation)),
        runtime.allows(stored, operation, CallOutcome::Started, Ok(reply), after),
        ends_as(operation, CallOutcome::Started, Ok(reply), end),
    ensures
        operation matches Operation::Call(StorageCall::DeleteMultiple { keys: asked }) && asked@
            == keys@,
        end matches Operation::Done(Ok(count)) && count == stored.entries.dom().intersect(
            key_set(keys@),
        ).len(),
        forall|key: Seq<char>| #[trigger]
            after.entries.contains_key(key) <==> stored.entries.contains_key(key) && !(exists|i: int|
                0 <= i < keys@.len() && #[trigger] keys@[i]@ == key),
        forall|key: Seq<char>| #[trigger]
            after.entries.contains_key(key) ==> after.entries[key] == stored.entries[key],
        after.alarm == stored.alarm,
{
    lemma_key_set_is_small(keys@);
    vstd::set_lib::lemma_len_subset(stored.entries.dom().intersect(key_set(keys@)), key_set(keys@));
    assert(keys@.len() == keys.len());
    assert forall|key: Seq<char>| #[trigger]
        after.entries.contains_key(key) <==> stored.entries.contains_key(key) && !(exists|i: int|
            0 <= i < keys@.len() && #[trigger] keys@[i]@ == key) by {
        assert(key_set(keys@).contains(key) <==> exists|i: int|
            0 <= i < keys@.len() && #[trigger] keys@[i]@ == key);
    }
}

/// Deleting everything leaves no key, and does not touch the alarm.
pub proof fn law_delete_all_deletes_every_key<'a, S, X, H, D>(
    runtime: Runtime<H, D>,
    operation: Operation<StorageCall<'a, H>, H, ()>,
    stored: Contents<H>,
    reply: Value<H>,
    after: Contents<H>,
    end: Operation<StorageCall<'a, H>, H, ()>,
    key: Seq<char>,
)
    requires
        (exists|storage: &mut Storage<S>|
            call_ensures(Storage::<S>::delete_all::<H>, (storage,), operation)) || (exists|
            transaction: &mut Transaction<X>,
        | call_ensures(Transaction::<X>::delete_all::<H>, (transaction,), operation)),
        runtime.allows(stored, operation, CallOutcome::Started, Ok(reply), after),
        ends_as(operation, CallOutcome::Started, Ok(reply), end),
    ensures
        operation matches Operation::Call(StorageCall::DeleteAll),
        end == Operation::<StorageCall<'a, H>, H, ()>::Done(Ok(())),
        !after.entries.contains_key(key),
        after.alarm == stored.alarm,
{
}

/// Listing without options gives a map of every pair that is stored, in ascending order, and nothing
/// changes.
pub proof fn law_list_lists_every_pair<'a, S, X, H, D>(
    runtime: Runtime<H, D>,
    storage: Storage<S>,
    transaction: Transaction<X>,
    operation: Operation<StorageCall<'a, H>, H, Entries<H>>,
    stored: Contents<H>,
    reply: Value<H>,
    after: Contents<H>,
    end: Operation<StorageCall<'a, H>, H, Entries<H>>,
    key: Seq<char>,
)
    requires
        call_ensures(Storage::<S>::list::<H>, (&storage,), operation) || call_ensures(
            Transaction::<X>::list::<H>,
            (&transaction,),
            operation,
        ),
        runtime.allows(stored, operation, CallOutcome::Started, Ok(reply), after),
        ends_as(operation, CallOutcome::Started, Ok(reply), end),
    ensures
        operation matches Operation::Call(StorageCall::List),
        end == Operation::<StorageCall<'a, H>, H, Entries<H>>::Done(Ok(Entries(reply.handle))),
        all_stored((runtime.pairs)(reply.handle), stored.entries),
        in_order((runtime.pairs)(reply.handle), false),
        stored.entries.contains_key(key) ==> lists_key((runtime.pairs)(reply.handle), key),
        after == stored,
{
}

/// Listing with options always asks the runtime, and hands it each option that is set, as it is set,
/// and nothing else. The result is a map of those pairs that are from `start` on, before `end` and
/// begin with `prefix`, in descending order if `reverse` is true and else in ascending order, the
/// first `limit` of them. Nothing changes.
pub proof fn law_list_with_options_lists_the_selection<'a, S, X, H, D>(
    runtime: Runtime<H, D>,
    storage: Storage<S>,
    transaction: Transaction<X>,
    opts: ListOptions<'a>,
    operation: Operation<StorageCall<'a, H>, H, Entries<H>>,
    stored: Contents<H>,
    reply: Value<H>,
    after: Contents<H>,
    end: Operation<StorageCall<'a, H>, H, Entries<H>>,
    name: Seq<char>,
)
    requires
        call_ensures(Storage::<S>::list_with_options::<H>, (&storage, opts), operation)
            || call_ensures(
            Transaction::<X>::list_with_options::<H>,
            (&transaction, opts),
            operation,
        ),
        runtime.allows(stored, operation, CallOutcome::Started, Ok(reply), after),
        ends_as(operation, CallOutcome::Started, Ok(reply), end),
    ensures
        operation matches Operation::Call(StorageCall::ListWithOptions { options }) && {
            &&& opts.start matches Some(start) ==> property(options@, "start"@) == Some(
                FieldValue::Text(start),
            )
            &&& opts.end matches Some(end) ==> property(options@, "end"@) == Some(
                FieldValue::Text(end),
            )
            &&& opts.prefix matches Some(prefix) ==> property(options@, "prefix"@) == Some(
                FieldValue::Text(prefix),
            )
            &&& opts.reverse matches Some(reverse) ==> property(options@, "reverse"@) == Some(
                FieldValue::<'a>::Flag(reverse),
            )
            &&& opts.limit matches Some(limit) ==> property(options@, "limit"@) == Some(
                FieldValue::<'a>::Count(limit),
            )
            &&& property(options@, name) is Some ==> {
                ||| name == "start"@ && opts.start is Some
                ||| name == "end"@ && opts.end is Some
                ||| name == "prefix"@ && opts.prefix is Some
                ||| name == "reverse"@ && opts.reverse is Some
                ||| name == "limit"@ && opts.limit is Some
            }
        },
        end == Operation::<StorageCall<'a, H>, H, Entries<H>>::Done(Ok(Entries(reply.handle))),
        is_selection(
            (runtime.pairs)(reply.handle),
            stored.entries,
            match opts.start {
                Some(start) => Some(start@),
                None => None,
            },
            match opts.end {
                Some(end) => Some(end@),
                None => None,
            },
            match opts.prefix {
                Some(prefix) => Some(prefix@),
                None => None,
            },
            opts.reverse == Some(true),
            opts.limit,
        ),
        after == stored,
{
    law_list_options_are_carried(opts, name);
}

/// What a key reads as after a value was stored: the value, if it was stored under that key, and else
/// what the key read as before.
pub proof fn law_reading_after_storing<'a, S, X, H, D>(
    runtime: Runtime<H, D>,
    storage: Storage<S>,
    transaction: Transaction<X>,
    key: &'a str,
    value: Value<H>,
    put: Operation<StorageCall<'a, H>, H, ()>,
    stored: Contents<H>,
    put_reply: Value<H>,
    written: Contents<H>,
    read: &'a str,
    get: Operation<StorageCall<'a, H>, H, Stored<H>>,
    get_reply: Value<H>,
    after: Contents<H>,
    end: Operation<StorageCall<'a, H>, H, Stored<H>>,
    earlier_reply: Value<H>,
    earlier_end: Operation<StorageCall<'a, H>, H, Stored<H>>,
)
    requires
        value.kind != Kind::Undefined,
        (exists|storage: &mut Storage<S>|
            call_ensures(Storage::<S>::put::<H>, (storage, key, Ok::<Value<H>, H>(value)), put)) || (
        exists|transaction: &mut Transaction<X>|
            call_ensures(
                Transaction::<X>::put::<H>,
                (transaction, key, Ok::<Value<H>, H>(value)),
                put,
            )),
        runtime.allows(stored, put, CallOutcome::Started, Ok(put_reply), written),
        call_ensures(Storage::<S>::get::<H>, (&storage, read), get) || call_ensures(
            Transaction::<X>::get::<H>,
            (&transaction, read),
            get,
        ),
        runtime.allows(stored, get, CallOutcome::Started, Ok(earlier_reply), stored),
        ends_as(get, CallOutcome::Started, Ok(earlier_reply), earlier_end),
        runtime.allows(written, get, CallOutcome::Started, Ok(get_reply), after),
        ends_as(get, CallOutcome::Started, Ok(get_reply), end),
    ensures
        read@ == key@ ==> end == Operation::<StorageCall<'a, H>, H, Stored<H>>::Done(
            Ok(Stored(value.handle)),
        ),
        read@ != key@ ==> end == earlier_end,
        after == written,
{
}

/// A deleted key reads as missing, and every other key as before.
pub proof fn law_reading_after_deleting<'a, S, X, H, D>(
    runtime: Runtime<H, D>,
    storage: Storage<S>,
    transaction: Transaction<X>,
    key: &'a str,
    delete: Operation<StorageCall<'a, H>, H, bool>,
    stored: Contents<H>,
    delete_reply: Value<H>,
    left: Contents<H>,
    read: &'a str,
    get: Operation<StorageCall<'a, H>, H, Stored<H>>,
    get_reply: Value<H>,
    after: Contents<H>,
    end: Operation<StorageCall<'a, H>, H, Stored<H>>,
    earlier_reply: Value<H>,
    earlier_end: Operation<StorageCall<'a, H>, H, Stored<H>>,
)
    requires
        (exists|storage: &mut Storage<S>|
            call_ensures(Storage::<S>::delete::<H>, (storage, key), delete)) || (exists|
            transaction: &mut Transaction<X>,
        | call_ensures(Transaction::<X>::delete::<H>, (transaction, key), delete)),
        runtime.allows(stored, delete, CallOutcome::Started, Ok(delete_reply), left),
        call_ensures(Storage::<S>::get::<H>, (&storage, read), get) || call_ensures(
            Transaction::<X>::get::<H>,
            (&transaction, read),
            get,
        ),
        runtime.allows(stored, get, CallOutcome::Started, Ok(earlier_reply), stored),
        ends_as(get, CallOutcome::Started, Ok(earlier_reply), earlier_end),
        runtime.allows(left, get, CallOutcome::Started, Ok(get_reply), after),
        ends_as(get, CallOutcome::Started, Ok(get_reply), end),
    ensures
        read@ == key@ ==> end == Operation::<StorageCall<'a, H>, H, Stored<H>>::Done(
            Err(Error::JsMessage(Message::NoSuchValue)),
        ),
        read@ != key@ ==> end == earlier_end,
        after == left,
{
}

/// Rolling back is done when the runtime says so, and fails with what the runtime throws. It is the
/// runtime's own transaction that is rolled back.
pub proof fn law_rollback_is_the_runtimes<X, H, F: FnOnce(&X) -> Result<(), H>>(
    inner: X,
    call: F,
    answer: spec_fn(X) -> Result<(), H>,
    result: Result<(), Error<H>>,
)
    requires
        exists|transaction: &mut Transaction<X>|
            transaction.inner == inner && call_ensures(
                Transaction::<X>::rollback::<H, F>,
                (transaction, call),
                result,
            ),
        forall|asked: X, outcome: Result<(), H>| #[trigger]
            call.ensures((&asked,), outcome) ==> outcome == answer(asked),
    ensures
        answer(inner) is Ok ==> result == Ok::<(), Error<H>>(()),
        answer(inner) matches Err(thrown) ==> result == Err::<(), Error<H>>(Error::Js(thrown)),
{
}

} // verus!
