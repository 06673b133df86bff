//! What holds of the storage over several operations, on a runtime that does what it promises.

use crate::error::{Error, Message};
use crate::operation::{CallOutcome, Entries, Operation, Stored};
use crate::options::{as_text, law_list_options_are_carried, ListOptions};
use crate::runtime::{
    all_stored, before, in_order, in_scope, is_selection, key_set, lemma_key_set_is_small, lemma_listing_is_unique,
    lists_key, text_of, Contents, Pair, Runtime,
};
use crate::storage::{
    delete_all_operation, delete_multiple_operation, delete_operation, get_multiple_operation, get_operation, list_operation, lists_with, put_multiple_operation,
    put_operation, StorageCall,
};
use crate::value::{Kind, Value};
use vstd::prelude::*;

verus! {

/// Reading a key gives back the value that was written under it last, for the decoder to decode.
/// `undefined` is no value: it reads as if nothing were stored.
pub proof fn law_get_gives_back_what_was_put<'a, H, D>(
    runtime: Runtime<H, D>,
    stored: Contents<H>,
    key: &'a str,
    value: Value<H>,
    put_reply: Value<H>,
    written: Contents<H>,
    get_reply: Value<H>,
    after: Contents<H>,
)
    requires
        value.kind != Kind::Undefined,
        runtime.answers(stored, (StorageCall::Put { key, value }), put_reply, written),
        runtime.answers(written, (StorageCall::Get { key }), get_reply, after),
    ensures
        put_operation(key, Ok::<Value<H>, H>(value)).answered_with(put_reply) == Operation::<
            StorageCall<'a, H>,
            H,
            (),
        >::Done(Ok(())),
        get_operation::<H>(key).answered_with(get_reply) == Operation::<
            StorageCall<'a, H>,
            H,
            Stored<H>,
        >::Done(Ok(Stored(value.handle))),
{
}

/// Reading a key under which nothing is stored fails, and says so.
pub proof fn law_missing_key_is_an_error<'a, H, D>(
    runtime: Runtime<H, D>,
    stored: Contents<H>,
    key: &'a str,
    reply: Value<H>,
    after: Contents<H>,
)
    requires
        !stored.entries.contains_key(key@),
        runtime.answers(stored, (StorageCall::Get { key }), reply, after),
    ensures
        get_operation::<H>(key).answered_with(reply) == Operation::<
            StorageCall<'a, H>,
            H,
            Stored<H>,
        >::Done(Err(Error::JsMessage(Message::NoSuchValue))),
{
}

/// Writing under one key does not change what is read under another.
pub proof fn law_put_leaves_other_keys_alone<'a, H, D>(
    runtime: Runtime<H, D>,
    stored: Contents<H>,
    key: &'a str,
    value: Value<H>,
    other: &'a str,
    put_reply: Value<H>,
    written: Contents<H>,
    reply_before: Value<H>,
    reply_after: Value<H>,
)
    requires
        key@ != other@,
        runtime.answers(stored, (StorageCall::Get { key: other }), reply_before, stored),
        runtime.answers(stored, (StorageCall::Put { key, value }), put_reply, written),
        runtime.answers(written, (StorageCall::Get { key: other }), reply_after, written),
    ensures
        get_operation::<H>(other).answered_with(reply_before) == get_operation::<H>(
            other,
        ).answered_with(reply_after),
{
}

/// Each key of a struct that was stored reads as the value that the struct has for it.
pub proof fn law_put_multiple_stores_each_pair<'a, H, D>(
    runtime: Runtime<H, D>,
    stored: Contents<H>,
    values: Value<H>,
    put_reply: Value<H>,
    written: Contents<H>,
    key: &'a str,
    get_reply: Value<H>,
    after: Contents<H>,
)
    requires
        values.kind == Kind::Object,
        runtime.answers(stored, (StorageCall::PutMultiple { values }), put_reply, written),
        (runtime.properties)(values.handle).contains_key(key@),
        (runtime.properties)(values.handle)[key@].kind != Kind::Undefined,
        runtime.answers(written, (StorageCall::Get { key }), get_reply, after),
    ensures
        put_multiple_operation::<'a, H>(Ok::<Value<H>, H>(values)).answered_with(put_reply)
            == Operation::<StorageCall<'a, H>, H, ()>::Done(Ok(())),
        get_operation::<H>(key).answered_with(get_reply) == Operation::<
            StorageCall<'a, H>,
            H,
            Stored<H>,
        >::Done(Ok(Stored((runtime.properties)(values.handle)[key@].handle))),
{
}

/// A write that is refused before any call is no call at all, and its error says why: the encoder's
/// error, or that several values have to come from a struct.
pub proof fn law_refused_write_makes_no_call<'a, H>(key: &'a str, error: H, values: Value<H>)
    ensures
        put_operation(key, Err::<Value<H>, H>(error)) == Operation::<StorageCall<'a, H>, H, ()>::Done(
            Err(Error::Encoding(error)),
        ),
        put_multiple_operation::<'a, H>(Err::<Value<H>, H>(error)) == Operation::<
            StorageCall<'a, H>,
            H,
            (),
        >::Done(Err(Error::Encoding(error))),
        values.kind != Kind::Object ==> put_multiple_operation::<'a, H>(Ok::<Value<H>, H>(values))
            == Operation::<StorageCall<'a, H>, H, ()>::Done(
            Err(Error::RustMessage(Message::NotAStruct)),
        ),
{
}

/// Deleting a key tells whether it existed. Afterwards it reads as missing, and deleting it again
/// tells that it did not exist.
pub proof fn law_delete_removes_the_key<'a, H, D>(
    runtime: Runtime<H, D>,
    stored: Contents<H>,
    key: &'a str,
    reply: Value<H>,
    left: Contents<H>,
    again: Value<H>,
    get_reply: Value<H>,
    after: Contents<H>,
)
    requires
        runtime.answers(stored, (StorageCall::Delete { key }), reply, left),
        runtime.answers(left, (StorageCall::Delete { key }), again, after),
        runtime.answers(left, (StorageCall::Get { key }), get_reply, left),
    ensures
        delete_operation::<H>(key).answered_with(reply) == Operation::<
            StorageCall<'a, H>,
            H,
            bool,
        >::Done(Ok(stored.entries.contains_key(key@))),
        delete_operation::<H>(key).answered_with(again) == Operation::<
            StorageCall<'a, H>,
            H,
            bool,
        >::Done(Ok(false)),
        get_operation::<H>(key).answered_with(get_reply) == Operation::<
            StorageCall<'a, H>,
            H,
            Stored<H>,
        >::Done(Err(Error::JsMessage(Message::NoSuchValue))),
{
}

/// No more pairs can be deleted than keys are given.
proof fn lemma_count_fits<'a, H>(entries: Map<Seq<char>, Value<H>>, keys: Vec<&'a str>)
    ensures
        entries.dom().intersect(key_set(keys@)).len() <= usize::MAX,
{
    lemma_key_set_is_small(keys@);
    vstd::set_lib::lemma_len_subset(entries.dom().intersect(key_set(keys@)), key_set(keys@));
    assert(keys@.len() == keys.len());
}

/// Deleting several keys counts the pairs that existed. Afterwards each of the keys reads as
/// missing.
pub proof fn law_delete_multiple_counts_the_pairs<'a, H, D>(
    runtime: Runtime<H, D>,
    stored: Contents<H>,
    keys: Vec<&'a str>,
    reply: Value<H>,
    left: Contents<H>,
    i: int,
    get_reply: Value<H>,
    after: Contents<H>,
)
    requires
        runtime.answers(stored, (StorageCall::DeleteMultiple { keys }), reply, left),
        0 <= i < keys@.len(),
        runtime.answers(left, (StorageCall::Get { key: keys@[i] }), get_reply, after),
    ensures
        delete_multiple_operation::<H>(keys).answered_with(reply) == Operation::<
            StorageCall<'a, H>,
            H,
            usize,
        >::Done(Ok(stored.entries.dom().intersect(key_set(keys@)).len() as usize)),
        get_operation::<H>(keys@[i]).answered_with(get_reply) == Operation::<
            StorageCall<'a, H>,
            H,
            Stored<H>,
        >::Done(Err(Error::JsMessage(Message::NoSuchValue))),
{
    lemma_count_fits(stored.entries, keys);
    assert(key_set(keys@).contains(keys@[i]@));
}

/// After everything was deleted, every key reads as missing.
pub proof fn law_delete_all_leaves_nothing<'a, H, D>(
    runtime: Runtime<H, D>,
    stored: Contents<H>,
    reply: Value<H>,
    left: Contents<H>,
    key: &'a str,
    get_reply: Value<H>,
    after: Contents<H>,
)
    requires
        runtime.answers(stored, StorageCall::DeleteAll, reply, left),
        runtime.answers(left, (StorageCall::Get { key }), get_reply, after),
    ensures
        get_operation::<H>(key).answered_with(get_reply) == Operation::<
            StorageCall<'a, H>,
            H,
            Stored<H>,
        >::Done(Err(Error::JsMessage(Message::NoSuchValue))),
{
}

/// A listing without options holds every pair, in ascending order.
pub proof fn law_list_holds_everything_in_order<'a, H, D>(
    runtime: Runtime<H, D>,
    stored: Contents<H>,
    reply: Value<H>,
    after: Contents<H>,
    key: Seq<char>,
)
    requires
        runtime.answers(stored, StorageCall::List, reply, after),
    ensures
        list_operation::<'a, H>().answered_with(reply)
            == Operation::<StorageCall<'a, H>, H, Entries<H>>::Done(Ok(Entries(reply.handle))),
        all_stored((runtime.pairs)(reply.handle), stored.entries),
        in_order((runtime.pairs)(reply.handle), false),
        stored.entries.contains_key(key) ==> lists_key((runtime.pairs)(reply.handle), key),
{
}

/// A listing with options starts, ends, is restricted, ordered and limited as they say.
pub proof fn law_listing_follows_its_options<'a, H, D>(
    runtime: Runtime<H, D>,
    stored: Contents<H>,
    opts: ListOptions<'a>,
    operation: Operation<StorageCall<'a, H>, H, Entries<H>>,
    call: StorageCall<'a, H>,
    reply: Value<H>,
    after: Contents<H>,
)
    requires
        lists_with(operation, opts),
        operation == Operation::<StorageCall<'a, H>, H, Entries<H>>::Call(call),
        runtime.answers(stored, call, reply, after),
    ensures
        operation.answered_with(reply) == Operation::<StorageCall<'a, H>, H, Entries<H>>::Done(
            Ok(Entries(reply.handle)),
        ),
        is_selection(
            (runtime.pairs)(reply.handle),
            stored.entries,
            text_of(as_text(opts.start)),
            text_of(as_text(opts.end)),
            text_of(as_text(opts.prefix)),
            opts.reverse == Some(true),
            opts.limit,
        ),
{
    law_list_options_are_carried(opts, "start"@);
}

/// Where a listing has no limit, it holds the keys in scope and no others.
proof fn lemma_unlimited_selection<H>(
    pairs: Seq<Pair<H>>,
    entries: Map<Seq<char>, Value<H>>,
    start: Option<Seq<char>>,
    end: Option<Seq<char>>,
    prefix: Option<Seq<char>>,
    descending: bool,
    key: Seq<char>,
)
    requires
        is_selection(pairs, entries, start, end, prefix, descending, None),
    ensures
        lists_key(pairs, key) <==> entries.contains_key(key) && in_scope(key, start, end, prefix),
{
    if lists_key(pairs, key) {
        let i: int = choose|i: int| 0 <= i < pairs.len() && #[trigger] pairs[i].0 == key;
        assert(in_scope(pairs[i].0, start, end, prefix));
    }
}

/// A listing for which no option is set is the listing without options.
pub proof fn law_unset_options_list_everything<'a, H, D>(
    runtime: Runtime<H, D>,
    stored: Contents<H>,
    opts: ListOptions<'a>,
    operation: Operation<StorageCall<'a, H>, H, Entries<H>>,
    call: StorageCall<'a, H>,
    reply: Value<H>,
    plain_reply: Value<H>,
)
    requires
        opts.start is None,
        opts.end is None,
        opts.prefix is None,
        opts.reverse is None,
        opts.limit is None,
        lists_with(operation, opts),
        operation == Operation::<StorageCall<'a, H>, H, Entries<H>>::Call(call),
        runtime.answers(stored, call, reply, stored),
        runtime.answers(stored, StorageCall::List, plain_reply, stored),
    ensures
        (runtime.pairs)(reply.handle) == (runtime.pairs)(plain_reply.handle),
{
    law_listing_follows_its_options(runtime, stored, opts, operation, call, reply, stored);
    let one: Seq<Pair<H>> = (runtime.pairs)(reply.handle);
    let other: Seq<Pair<H>> = (runtime.pairs)(plain_reply.handle);
    assert forall|key: Seq<char>| #[trigger] lists_key(one, key) <==> lists_key(other, key) by {
        lemma_unlimited_selection(one, stored.entries, None, None, None, false, key);
        lemma_unlimited_selection(other, stored.entries, None, None, None, false, key);
    }
    lemma_listing_is_unique(one, other, stored.entries, false);
}

/// A reversed listing without a limit is the listing that is not reversed, read backwards.
pub proof fn law_reverse_lists_backwards<'a, H, D>(
    runtime: Runtime<H, D>,
    stored: Contents<H>,
    opts: ListOptions<'a>,
    operation: Operation<StorageCall<'a, H>, H, Entries<H>>,
    call: StorageCall<'a, H>,
    reply: Value<H>,
    reversed_opts: ListOptions<'a>,
    reversed_operation: Operation<StorageCall<'a, H>, H, Entries<H>>,
    reversed_call: StorageCall<'a, H>,
    reversed_reply: Value<H>,
)
    requires
        opts.limit is None,
        opts.reverse != Some(true),
        reversed_opts == (ListOptions { reverse: Some(true), ..opts }),
        lists_with(operation, opts),
        operation == Operation::<StorageCall<'a, H>, H, Entries<H>>::Call(call),
        runtime.answers(stored, call, reply, stored),
        lists_with(reversed_operation, reversed_opts),
        reversed_operation == Operation::<StorageCall<'a, H>, H, Entries<H>>::Call(reversed_call),
        runtime.answers(stored, reversed_call, reversed_reply, stored),
    ensures
        (runtime.pairs)(reversed_reply.handle) == (runtime.pairs)(reply.handle).reverse(),
{
    law_listing_follows_its_options(runtime, stored, opts, operation, call, reply, stored);
    law_listing_follows_its_options(
        runtime,
        stored,
        reversed_opts,
        reversed_operation,
        reversed_call,
        reversed_reply,
        stored,
    );
    let start: Option<Seq<char>> = text_of(as_text(opts.start));
    let end: Option<Seq<char>> = text_of(as_text(opts.end));
    let prefix: Option<Seq<char>> = text_of(as_text(opts.prefix));
    let up: Seq<Pair<H>> = (runtime.pairs)(reply.handle);
    let down: Seq<Pair<H>> = (runtime.pairs)(reversed_reply.handle);
    let back: Seq<Pair<H>> = up.reverse();
    assert forall|i: int|
        #![trigger back[i]]
        0 <= i < back.len() implies stored.entries.contains_key(back[i].0)
        && stored.entries[back[i].0] == back[i].1 by {
        assert(back[i] == up[up.len() - 1 - i]);
    }
    assert forall|i: int, j: int|
        #![trigger back[i], back[j]]
        0 <= i < j < back.len() implies before(back[j].0, back[i].0) by {
        assert(back[i] == up[up.len() - 1 - i] && back[j] == up[up.len() - 1 - j]);
    }
    assert forall|key: Seq<char>| #[trigger] lists_key(down, key) <==> lists_key(back, key) by {
        lemma_unlimited_selection(up, stored.entries, start, end, prefix, false, key);
        lemma_unlimited_selection(down, stored.entries, start, end, prefix, true, key);
        if lists_key(up, key) {
            let i: int = choose|i: int| 0 <= i < up.len() && #[trigger] up[i].0 == key;
            assert(back[up.len() - 1 - i].0 == key);
        }
        if lists_key(back, key) {
            let i: int = choose|i: int| 0 <= i < back.len() && #[trigger] back[i].0 == key;
            assert(up[up.len() - 1 - i].0 == key);
        }
    }
    lemma_listing_is_unique(down, back, stored.entries, true);
}

/// Reading several keys gives a map of those that exist, each with the value that is stored under
/// it, and of no others.
pub proof fn law_get_multiple_reads_what_is_stored<'a, H, D>(
    runtime: Runtime<H, D>,
    stored: Contents<H>,
    keys: Vec<&'a str>,
    reply: Value<H>,
    after: Contents<H>,
    key: Seq<char>,
)
    requires
        runtime.answers(stored, (StorageCall::GetMultiple { keys }), reply, after),
    ensures
        get_multiple_operation::<H>(keys).answered_with(reply) == Operation::<
            StorageCall<'a, H>,
            H,
            Entries<H>,
        >::Done(Ok(Entries(reply.handle))),
        all_stored((runtime.pairs)(reply.handle), stored.entries),
        lists_key((runtime.pairs)(reply.handle), key) <==> key_set(keys@).contains(key)
            && stored.entries.contains_key(key),
{
}

/// Deleting the same keys a second time counts nothing.
pub proof fn law_deleting_again_counts_nothing<'a, H, D>(
    runtime: Runtime<H, D>,
    stored: Contents<H>,
    keys: Vec<&'a str>,
    reply: Value<H>,
    left: Contents<H>,
    again: Value<H>,
    after: Contents<H>,
)
    requires
        runtime.answers(stored, (StorageCall::DeleteMultiple { keys }), reply, left),
        runtime.answers(left, (StorageCall::DeleteMultiple { keys }), again, after),
    ensures
        delete_multiple_operation::<H>(keys).answered_with(again) == Operation::<
            StorageCall<'a, H>,
            H,
            usize,
        >::Done(Ok(0usize)),
        after == left,
{
    assert(left.entries.dom().intersect(key_set(keys@)) =~= Set::<Seq<char>>::empty());
    assert(after.entries =~= left.entries);
}

/// After everything was deleted, a listing is empty, and deletions find nothing.
pub proof fn law_nothing_is_found_after_delete_all<'a, H, D>(
    runtime: Runtime<H, D>,
    stored: Contents<H>,
    reply: Value<H>,
    left: Contents<H>,
    list_reply: Value<H>,
    key: &'a str,
    delete_reply: Value<H>,
    keys: Vec<&'a str>,
    delete_multiple_reply: Value<H>,
)
    requires
        runtime.answers(stored, StorageCall::DeleteAll, reply, left),
        runtime.answers(left, StorageCall::List, list_reply, left),
        runtime.answers(left, (StorageCall::Delete { key }), delete_reply, left),
        runtime.answers(left, (StorageCall::DeleteMultiple { keys }), delete_multiple_reply, left),
    ensures
        (runtime.pairs)(list_reply.handle).len() == 0,
        delete_operation::<H>(key).answered_with(delete_reply) == Operation::<
            StorageCall<'a, H>,
            H,
            bool,
        >::Done(Ok(false)),
        delete_multiple_operation::<H>(keys).answered_with(delete_multiple_reply) == Operation::<
            StorageCall<'a, H>,
            H,
            usize,
        >::Done(Ok(0usize)),
{
    let pairs: Seq<Pair<H>> = (runtime.pairs)(list_reply.handle);
    if pairs.len() > 0 {
        assert(left.entries.contains_key(pairs[0].0));
    }
    assert(left.entries.dom().intersect(key_set(keys@)) =~= Set::<Seq<char>>::empty());
}

/// Whether the values were put one after the other, each under its key, and answered: `stages` is
/// what was stored before the first and after each.
pub open spec fn put_in_turn<H, D>(
    runtime: Runtime<H, D>,
    keys: Seq<&str>,
    values: Seq<Value<H>>,
    replies: Seq<Value<H>>,
    stages: Seq<Contents<H>>,
) -> bool {
    &&& values.len() == keys.len()
    &&& replies.len() == keys.len()
    &&& stages.len() == keys.len() + 1
    &&& forall|i: int|
        #![trigger keys[i]]
        0 <= i < keys.len() ==> runtime.answers(
            stages[i],
            (StorageCall::Put { key: keys[i], value: values[i] }),
            replies[i],
            stages[i + 1],
        )
}

proof fn lemma_put_in_turn<H, D>(
    runtime: Runtime<H, D>,
    keys: Seq<&str>,
    values: Seq<Value<H>>,
    replies: Seq<Value<H>>,
    stages: Seq<Contents<H>>,
    properties: Map<Seq<char>, Value<H>>,
    n: int,
)
    requires
        put_in_turn(runtime, keys, values, replies, stages),
        forall|i: int|
            #![trigger keys[i]]
            0 <= i < keys.len() ==> properties.contains_key(keys[i]@) && properties[keys[i]@]
                == values[i],
        0 <= n <= keys.len(),
    ensures
        stages[n].alarm == stages[0].alarm,
        stages[n].entries == stages[0].entries.union_prefer_right(
            properties.restrict(key_set(keys.take(n))),
        ),
    decreases n,
{
    let done: Seq<&str> = keys.take(n);
    if n == 0 {
        assert(properties.restrict(key_set(done)) =~= Map::<Seq<char>, Value<H>>::empty());
        assert(stages[0].entries.union_prefer_right(Map::<Seq<char>, Value<H>>::empty())
            =~= stages[0].entries);
    } else {
        lemma_put_in_turn(runtime, keys, values, replies, stages, properties, n - 1);
        let before_last: Seq<&str> = keys.take(n - 1);
        let last: &str = keys[n - 1];
        assert(key_set(done) =~= key_set(before_last).insert(last@)) by {
            assert forall|key: Seq<char>| key_set(done).contains(key) implies key_set(
                before_last,
            ).insert(last@).contains(key) by {
                let i: int = choose|i: int| 0 <= i < done.len() && #[trigger] done[i]@ == key;
                if i < n - 1 {
                    assert(before_last[i]@ == key);
                }
            }
            assert forall|key: Seq<char>| key_set(before_last).insert(last@).contains(
                key,
            ) implies key_set(done).contains(key) by {
                if key == last@ {
                    assert(done[n - 1]@ == key);
                } else {
                    let i: int = choose|i: int|
                        0 <= i < before_last.len() && #[trigger] before_last[i]@ == key;
                    assert(done[i]@ == key);
                }
            }
        }
        assert(stages[n].entries =~= stages[0].entries.union_prefer_right(
            properties.restrict(key_set(done)),
        ));
    }
}

/// Storing a struct leaves what storing each of its pairs by itself leaves, in whatever order.
pub proof fn law_put_multiple_is_putting_each_pair<H, D>(
    runtime: Runtime<H, D>,
    values: Value<H>,
    reply: Value<H>,
    after: Contents<H>,
    keys: Seq<&str>,
    singles: Seq<Value<H>>,
    replies: Seq<Value<H>>,
    stages: Seq<Contents<H>>,
)
    requires
        put_in_turn(runtime, keys, singles, replies, stages),
        runtime.answers(stages[0], (StorageCall::PutMultiple { values }), reply, after),
        (runtime.properties)(values.handle).dom() == key_set(keys),
        forall|i: int|
            #![trigger keys[i]]
            0 <= i < keys.len() ==> (runtime.properties)(values.handle)[keys[i]@] == singles[i],
    ensures
        stages.last() == after,
{
    let properties: Map<Seq<char>, Value<H>> = (runtime.properties)(values.handle);
    assert forall|i: int|
        #![trigger keys[i]]
        0 <= i < keys.len() implies properties.contains_key(keys[i]@) && properties[keys[i]@]
        == singles[i] by {
        assert(key_set(keys).contains(keys[i]@));
    }
    let n: int = keys.len() as int;
    lemma_put_in_turn(runtime, keys, singles, replies, stages, properties, n);
    assert(keys.take(n) =~= keys);
    assert(properties.restrict(key_set(keys)) =~= properties);
}

/// Storing a value stores it, or, where it ends with an error, changes nothing.
pub proof fn law_put_is_all_or_nothing<'a, H, D>(
    runtime: Runtime<H, D>,
    stored: Contents<H>,
    key: &'a str,
    encoded: Result<Value<H>, H>,
    outcome: CallOutcome<H>,
    promise: Result<Value<H>, H>,
    after: Contents<H>,
)
    requires
        runtime.allows(stored, put_operation(key, encoded), outcome, promise, after),
    ensures
        match put_operation(key, encoded).after_call(outcome).after_promise(promise) {
            Operation::Done(Ok(_)) => encoded is Ok && after == (Contents {
                entries: stored.entries.insert(key@, encoded->Ok_0),
                ..stored
            }),
            Operation::Done(Err(_)) => after == stored,
            _ => false,
        },
{
}

/// Storing a struct stores all of its pairs, or, where it ends with an error, none.
pub proof fn law_put_multiple_is_all_or_nothing<'a, H, D>(
    runtime: Runtime<H, D>,
    stored: Contents<H>,
    encoded: Result<Value<H>, H>,
    outcome: CallOutcome<H>,
    promise: Result<Value<H>, H>,
    after: Contents<H>,
)
    requires
        runtime.allows(stored, put_multiple_operation::<'a, H>(encoded), outcome, promise, after),
    ensures
        match put_multiple_operation::<'a, H>(encoded).after_call(outcome).after_promise(promise) {
            Operation::Done(Ok(_)) => encoded is Ok && after == (Contents {
                entries: stored.entries.union_prefer_right(
                    (runtime.properties)(encoded->Ok_0.handle),
                ),
                ..stored
            }),
            Operation::Done(Err(_)) => after == stored,
            _ => false,
        },
{
}

/// Deleting a key removes it, or, where it ends with an error, changes nothing.
pub proof fn law_delete_is_all_or_nothing<'a, H, D>(
    runtime: Runtime<H, D>,
    stored: Contents<H>,
    key: &'a str,
    outcome: CallOutcome<H>,
    promise: Result<Value<H>, H>,
    after: Contents<H>,
)
    requires
        runtime.allows(stored, delete_operation::<H>(key), outcome, promise, after),
    ensures
        match delete_operation::<H>(key).after_call(outcome).after_promise(promise) {
            Operation::Done(Ok(_)) => after == (Contents {
                entries: stored.entries.remove(key@),
                ..stored
            }),
            Operation::Done(Err(_)) => after == stored,
            _ => false,
        },
{
}

/// Deleting several keys removes all of them, or, where it ends with an error, none.
pub proof fn law_delete_multiple_is_all_or_nothing<'a, H, D>(
    runtime: Runtime<H, D>,
    stored: Contents<H>,
    keys: Vec<&'a str>,
    outcome: CallOutcome<H>,
    promise: Result<Value<H>, H>,
    after: Contents<H>,
)
    requires
        runtime.allows(stored, delete_multiple_operation::<H>(keys), outcome, promise, after),
    ensures
        match delete_multiple_operation::<H>(keys).after_call(outcome).after_promise(promise) {
            Operation::Done(Ok(_)) => after == (Contents {
                entries: stored.entries.remove_keys(key_set(keys@)),
                ..stored
            }),
            Operation::Done(Err(_)) => after == stored,
            _ => false,
        },
{
}

/// Deleting everything leaves nothing. Where it ends with an error some of the pairs may be left,
/// but none is new and none has changed.
pub proof fn law_failed_delete_all_leaves_a_part<'a, H, D>(
    runtime: Runtime<H, D>,
    stored: Contents<H>,
    outcome: CallOutcome<H>,
    promise: Result<Value<H>, H>,
    after: Contents<H>,
)
    requires
        runtime.allows(stored, delete_all_operation::<'a, H>(), outcome, promise, after),
    ensures
        after.alarm == stored.alarm,
        match delete_all_operation::<'a, H>().after_call(outcome).after_promise(promise) {
            Operation::Done(Ok(_)) => after.entries == Map::<Seq<char>, Value<H>>::empty(),
            Operation::Done(Err(_)) => after.entries.submap_of(stored.entries),
            _ => false,
        },
{
}

/// Reading changes nothing, whatever comes of it.
pub proof fn law_reading_changes_nothing<'a, H, D, O>(
    runtime: Runtime<H, D>,
    stored: Contents<H>,
    call: StorageCall<'a, H>,
    outcome: CallOutcome<H>,
    promise: Result<Value<H>, H>,
    after: Contents<H>,
)
    requires
        call is Get || call is GetMultiple || call is List || call is ListWithOptions,
        runtime.allows(
            stored,
            Operation::<StorageCall<'a, H>, H, O>::Call(call),
            outcome,
            promise,
            after,
        ),
    ensures
        after == stored,
{
}

} // verus!
