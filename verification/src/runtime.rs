//! What the runtime promises.
//!
//! The promises are spelled out as relations between what is stored before a call, the call, what
//! comes of it, and what is stored after it. A call is one step of such a relation: nothing else is
//! stored or read in between, so each operation is atomic and isolated from all others.

use crate::number::Whole;
use crate::operation::{CallOutcome, Operation};
use crate::options::{property, FieldValue};
use crate::schedule::{AlarmDate, DATE_LIMIT};
use crate::storage::{AlarmCall, StorageCall};
use crate::value::{Kind, Value};
use vstd::prelude::*;

verus! {

/// A stored key and its value.
pub type Pair<H> = (Seq<char>, Value<H>);

/// What a Durable Object has in storage.
///
/// A handle stands here for the value that it leads to, so that equal handles are handles to equal
/// values. The runtime stores a copy of what it is given, and hands out copies of what it stores:
/// none of them is the same object, and all of them are the same value.
#[verifier::reject_recursive_types(H)]
#[verifier::ext_equal]
pub struct Contents<H> {
    pub entries: Map<Seq<char>, Value<H>>,
    /// When the alarm is due, in milliseconds since the epoch, if one is set: one that has not
    /// started, or that has failed and whose retry has not begun.
    pub alarm: Option<int>,
}

/// What is inside the runtime's own values. As in [`Contents`], equal handles are handles to equal
/// values: where an answer is said to be what is stored, it is a value equal to it.
#[verifier::reject_recursive_types(H)]
#[verifier::reject_recursive_types(D)]
pub struct Runtime<H, D> {
    /// The properties of an object.
    pub properties: spec_fn(H) -> Map<Seq<char>, Value<H>>,
    /// The pairs of a `Map`, in their order.
    pub pairs: spec_fn(H) -> Seq<Pair<H>>,
    /// The time value of a date, in milliseconds since the epoch. An invalid date has none.
    pub time: spec_fn(D) -> Option<int>,
}

/// Whether `a` comes before `b` in lexicographic order.
pub open spec fn before(a: Seq<char>, b: Seq<char>) -> bool
    decreases a.len(),
{
    if b.len() == 0 {
        false
    } else if a.len() == 0 {
        true
    } else if a[0] != b[0] {
        (a[0] as int) < (b[0] as int)
    } else {
        before(a.drop_first(), b.drop_first())
    }
}

pub open spec fn starts_with(key: Seq<char>, prefix: Seq<char>) -> bool {
    prefix.len() <= key.len() && key.take(prefix.len() as int) == prefix
}

/// Whether a listing that starts at `start`, ends before `end` and is restricted to `prefix`
/// concerns `key`.
pub open spec fn in_scope(
    key: Seq<char>,
    start: Option<Seq<char>>,
    end: Option<Seq<char>>,
    prefix: Option<Seq<char>>,
) -> bool {
    &&& start matches Some(start) ==> !before(key, start)
    &&& end matches Some(end) ==> before(key, end)
    &&& prefix matches Some(prefix) ==> starts_with(key, prefix)
}

/// Whether each of `pairs` is stored.
pub open spec fn all_stored<H>(pairs: Seq<Pair<H>>, entries: Map<Seq<char>, Value<H>>) -> bool {
    forall|i: int|
        #![trigger pairs[i]]
        0 <= i < pairs.len() ==> entries.contains_key(pairs[i].0) && entries[pairs[i].0] == pairs[i].1
}

/// Whether the keys of `pairs` are in ascending or descending lexicographic order.
pub open spec fn in_order<H>(pairs: Seq<Pair<H>>, descending: bool) -> bool {
    forall|i: int, j: int|
        #![trigger pairs[i], pairs[j]]
        0 <= i < j < pairs.len() ==> if descending {
            before(pairs[j].0, pairs[i].0)
        } else {
            before(pairs[i].0, pairs[j].0)
        }
}

/// Whether `key` is among the keys of `pairs`.
pub open spec fn lists_key<H>(pairs: Seq<Pair<H>>, key: Seq<char>) -> bool {
    exists|i: int| 0 <= i < pairs.len() && #[trigger] pairs[i].0 == key
}

/// Whether `pairs` are those entries that are in scope, in order, and no more than `limit` of them:
/// where the limit leaves a key out, those listed come first in the order.
pub open spec fn is_selection<H>(
    pairs: Seq<Pair<H>>,
    entries: Map<Seq<char>, Value<H>>,
    start: Option<Seq<char>>,
    end: Option<Seq<char>>,
    prefix: Option<Seq<char>>,
    descending: bool,
    limit: Option<usize>,
) -> bool {
    &&& all_stored(pairs, entries)
    &&& in_order(pairs, descending)
    &&& limit matches Some(limit) ==> pairs.len() <= limit
    &&& forall|i: int|
        #![trigger pairs[i]]
        0 <= i < pairs.len() ==> in_scope(pairs[i].0, start, end, prefix)
    &&& forall|key: Seq<char>|
        entries.contains_key(key) && in_scope(key, start, end, prefix) && !#[trigger] lists_key(
            pairs,
            key,
        ) ==> {
            &&& limit matches Some(limit) && pairs.len() == limit
            &&& forall|i: int|
                #![trigger pairs[i]]
                0 <= i < pairs.len() ==> if descending {
                    before(key, pairs[i].0)
                } else {
                    before(pairs[i].0, key)
                }
        }
}

/// The text that a property holds.
pub open spec fn text_of(value: Option<FieldValue>) -> Option<Seq<char>> {
    match value {
        Some(FieldValue::Text(text)) => Some(text@),
        _ => None,
    }
}

/// Whether a property holds true.
pub open spec fn flag_of(value: Option<FieldValue>) -> bool {
    match value {
        Some(FieldValue::Flag(flag)) => flag,
        _ => false,
    }
}

/// The count that a property holds.
pub open spec fn count_of(value: Option<FieldValue>) -> Option<usize> {
    match value {
        Some(FieldValue::Count(count)) => Some(count),
        _ => None,
    }
}

pub open spec fn key_set(keys: Seq<&str>) -> Set<Seq<char>> {
    Set::new(|key: Seq<char>| exists|i: int| 0 <= i < keys.len() && #[trigger] keys[i]@ == key)
}

impl<H, D> Runtime<H, D> {
    /// Whether the runtime keeps its promise when it answers `call` with `reply`, and leaves `after`
    /// of what was stored.
    pub open spec fn answers(
        self,
        stored: Contents<H>,
        call: StorageCall<H>,
        reply: Value<H>,
        after: Contents<H>,
    ) -> bool {
        &&& after.alarm == stored.alarm
        &&& match call {
            StorageCall::Get { key } => {
                &&& after.entries == stored.entries
                &&& if stored.entries.contains_key(key@) {
                    reply == stored.entries[key@]
                } else {
                    reply.kind == Kind::Undefined
                }
            },
            StorageCall::GetMultiple { keys } => {
                &&& after.entries == stored.entries
                &&& reply.map
                &&& forall|key: Seq<char>| #[trigger]
                    lists_key((self.pairs)(reply.handle), key) <==> key_set(keys@).contains(key)
                        && stored.entries.contains_key(key)
                &&& all_stored((self.pairs)(reply.handle), stored.entries)
            },
            StorageCall::Put { key, value } => {
                after.entries == stored.entries.insert(key@, value)
            },
            StorageCall::PutMultiple { values } => {
                after.entries == stored.entries.union_prefer_right((self.properties)(values.handle))
            },
            StorageCall::Delete { key } => {
                &&& after.entries == stored.entries.remove(key@)
                &&& reply.kind == Kind::Bool(stored.entries.contains_key(key@))
            },
            StorageCall::DeleteMultiple { keys } => {
                &&& after.entries == stored.entries.remove_keys(key_set(keys@))
                &&& reply.kind matches Kind::Number(number) && number.whole() == Whole::Finite(
                    stored.entries.dom().intersect(key_set(keys@)).len() as int,
                )
            },
            StorageCall::DeleteAll => after.entries == Map::<Seq<char>, Value<H>>::empty(),
            StorageCall::List => {
                &&& after.entries == stored.entries
                &&& reply.map
                &&& is_selection(
                    (self.pairs)(reply.handle),
                    stored.entries,
                    None,
                    None,
                    None,
                    false,
                    None,
                )
            },
            StorageCall::ListWithOptions { options } => {
                &&& after.entries == stored.entries
                &&& reply.map
                &&& is_selection(
                    (self.pairs)(reply.handle),
                    stored.entries,
                    text_of(property(options@, "start"@)),
                    text_of(property(options@, "end"@)),
                    text_of(property(options@, "prefix"@)),
                    flag_of(property(options@, "reverse"@)),
                    count_of(property(options@, "limit"@)),
                )
            },
        }
    }

    /// Whether the runtime keeps its promise when a call fails, and leaves `after` of what was
    /// stored. A failed call changes nothing, except that a deletion of everything may have deleted
    /// some of the pairs.
    pub open spec fn fails(
        self,
        stored: Contents<H>,
        call: StorageCall<H>,
        after: Contents<H>,
    ) -> bool {
        match call {
            StorageCall::DeleteAll => {
                &&& after.entries.submap_of(stored.entries)
                &&& after.alarm == stored.alarm
            },
            _ => after == stored,
        }
    }

    /// Whether the runtime keeps its promise when it is asked to carry out `operation`, the call
    /// goes as `outcome` says, its promise is settled as `promise` says, and `after` is left of what
    /// was stored. Where no call is made, nothing changes.
    pub open spec fn allows<O>(
        self,
        stored: Contents<H>,
        operation: Operation<StorageCall<H>, H, O>,
        outcome: CallOutcome<H>,
        promise: Result<Value<H>, H>,
        after: Contents<H>,
    ) -> bool {
        match operation {
            Operation::Call(call) => match outcome {
                CallOutcome::Started => match promise {
                    Ok(reply) => self.answers(stored, call, reply, after),
                    Err(_) => self.fails(stored, call, after),
                },
                CallOutcome::Threw(_) => self.fails(stored, call, after),
                CallOutcome::Unencodable(_) => after == stored,
            },
            _ => after == stored,
        }
    }

    /// The time of a date, in milliseconds since the epoch. A date that is too far from the epoch is
    /// invalid, and has none.
    pub open spec fn time_of(self, date: AlarmDate<D>) -> Option<int> {
        let time: Option<int> = match date {
            AlarmDate::Date(date) => (self.time)(date),
            AlarmDate::Millis(millis) => Some(millis as int),
        };
        match time {
            Some(time) => if -DATE_LIMIT <= time <= DATE_LIMIT {
                Some(time)
            } else {
                None
            },
            None => None,
        }
    }

    /// Whether the runtime keeps its promise when it answers a call that is about the alarm. An
    /// invalid date is no date to set the alarm to: it is not answered.
    pub open spec fn answers_alarm(
        self,
        stored: Contents<H>,
        call: AlarmCall<D>,
        reply: Value<H>,
        after: Contents<H>,
    ) -> bool {
        &&& after.entries == stored.entries
        &&& match call {
            AlarmCall::GetAlarm { .. } => {
                &&& after.alarm == stored.alarm
                &&& match stored.alarm {
                    Some(time) => reply.kind matches Kind::Number(number) && number.whole()
                        == Whole::Finite(time),
                    None => reply.kind == Kind::Null,
                }
            },
            AlarmCall::SetAlarm { date, .. } => {
                &&& self.time_of(date) is Some
                &&& after.alarm == self.time_of(date)
            },
            AlarmCall::DeleteAlarm { .. } => after.alarm is None,
        }
    }

    /// The same as `allows` for an operation that is about the alarm. A failed call changes nothing.
    pub open spec fn allows_alarm<O>(
        self,
        stored: Contents<H>,
        operation: Operation<AlarmCall<D>, H, O>,
        outcome: CallOutcome<H>,
        promise: Result<Value<H>, H>,
        after: Contents<H>,
    ) -> bool {
        match operation {
            Operation::Call(call) => match (outcome, promise) {
                (CallOutcome::Started, Ok(reply)) => self.answers_alarm(stored, call, reply, after),
                _ => after == stored,
            },
            _ => after == stored,
        }
    }
}

/// Nothing comes before itself.
pub proof fn lemma_before_is_irreflexive(a: Seq<char>)
    ensures
        !before(a, a),
    decreases a.len(),
{
    if a.len() > 0 {
        lemma_before_is_irreflexive(a.drop_first());
    }
}

/// Of two texts, one at most comes before the other.
pub proof fn lemma_before_is_asymmetric(a: Seq<char>, b: Seq<char>)
    requires
        before(a, b),
    ensures
        !before(b, a),
    decreases a.len(),
{
    if a.len() > 0 && a[0] == b[0] {
        lemma_before_is_asymmetric(a.drop_first(), b.drop_first());
    }
}

/// An order fixes how pairs with the same keys are listed.
pub proof fn lemma_listing_is_unique<H>(
    one: Seq<Pair<H>>,
    other: Seq<Pair<H>>,
    entries: Map<Seq<char>, Value<H>>,
    descending: bool,
)
    requires
        all_stored(one, entries),
        all_stored(other, entries),
        in_order(one, descending),
        in_order(other, descending),
        forall|key: Seq<char>| #[trigger] lists_key(one, key) <==> lists_key(other, key),
    ensures
        one == other,
    decreases one.len(),
{
    if one.len() == 0 {
        if other.len() > 0 {
            assert(lists_key(other, other[0].0));
            assert(lists_key(one, other[0].0));
        }
        assert(one =~= other);
    } else {
        assert(lists_key(one, one[0].0));
        let j: int = choose|j: int| 0 <= j < other.len() && #[trigger] other[j].0 == one[0].0;
        assert(lists_key(other, one[0].0));
        assert(lists_key(other, other[0].0));
        assert(lists_key(one, other[0].0));
        let i: int = choose|i: int| 0 <= i < one.len() && #[trigger] one[i].0 == other[0].0;
        lemma_before_is_irreflexive(one[0].0);
        if i > 0 && j > 0 {
            if descending {
                lemma_before_is_asymmetric(one[i].0, one[0].0);
            } else {
                lemma_before_is_asymmetric(one[0].0, one[i].0);
            }
        }
        assert(one[0].0 == other[0].0);
        let one_rest: Seq<Pair<H>> = one.drop_first();
        let other_rest: Seq<Pair<H>> = other.drop_first();
        assert forall|key: Seq<char>| #[trigger]
            lists_key(one_rest, key) <==> lists_key(other_rest, key) by {
            lemma_rest_lists_the_other_keys(one, descending, key);
            lemma_rest_lists_the_other_keys(other, descending, key);
            assert(lists_key(one, key) <==> lists_key(other, key));
        }
        assert forall|i: int| #![trigger one_rest[i]] 0 <= i < one_rest.len() implies entries.contains_key(
            one_rest[i].0,
        ) && entries[one_rest[i].0] == one_rest[i].1 by {
            assert(one_rest[i] == one[i + 1]);
        }
        assert forall|i: int|
            #![trigger other_rest[i]]
            0 <= i < other_rest.len() implies entries.contains_key(other_rest[i].0)
            && entries[other_rest[i].0] == other_rest[i].1 by {
            assert(other_rest[i] == other[i + 1]);
        }
        lemma_rest_is_in_order(one, descending);
        lemma_rest_is_in_order(other, descending);
        lemma_listing_is_unique(one_rest, other_rest, entries, descending);
        assert(one =~= seq![one[0]] + one_rest);
        assert(other =~= seq![other[0]] + other_rest);
    }
}

proof fn lemma_rest_is_in_order<H>(pairs: Seq<Pair<H>>, descending: bool)
    requires
        pairs.len() > 0,
        in_order(pairs, descending),
    ensures
        in_order(pairs.drop_first(), descending),
{
    let rest: Seq<Pair<H>> = pairs.drop_first();
    assert forall|i: int, j: int|
        #![trigger rest[i], rest[j]]
        0 <= i < j < rest.len() implies if descending {
        before(rest[j].0, rest[i].0)
    } else {
        before(rest[i].0, rest[j].0)
    } by {
        assert(rest[i] == pairs[i + 1] && rest[j] == pairs[j + 1]);
    }
}

proof fn lemma_rest_lists_the_other_keys<H>(pairs: Seq<Pair<H>>, descending: bool, key: Seq<char>)
    requires
        pairs.len() > 0,
        in_order(pairs, descending),
    ensures
        lists_key(pairs.drop_first(), key) <==> lists_key(pairs, key) && key != pairs[0].0,
{
    let rest: Seq<Pair<H>> = pairs.drop_first();
    lemma_before_is_irreflexive(key);
    if lists_key(rest, key) {
        let i: int = choose|i: int| 0 <= i < rest.len() && #[trigger] rest[i].0 == key;
        assert(pairs[i + 1].0 == key);
        assert(pairs[0].0 != key);
    }
    if lists_key(pairs, key) && key != pairs[0].0 {
        let i: int = choose|i: int| 0 <= i < pairs.len() && #[trigger] pairs[i].0 == key;
        assert(rest[i - 1].0 == key);
    }
}

/// A set of given keys has no more members than there are keys.
pub proof fn lemma_key_set_is_small(keys: Seq<&str>)
    ensures
        key_set(keys).finite(),
        key_set(keys).len() <= keys.len(),
{
    let texts: Seq<Seq<char>> = Seq::new(keys.len(), |i: int| keys[i]@);
    assert(key_set(keys) =~= texts.to_set()) by {
        assert forall|key: Seq<char>| key_set(keys).contains(key) implies texts.to_set().contains(
            key,
        ) by {
            let i: int = choose|i: int| 0 <= i < keys.len() && #[trigger] keys[i]@ == key;
            assert(texts[i] == key);
        }
        assert forall|key: Seq<char>| texts.to_set().contains(key) implies key_set(keys).contains(
            key,
        ) by {
            let i: int = choose|i: int| 0 <= i < texts.len() && texts[i] == key;
            assert(keys[i]@ == key);
        }
    }
    texts.lemma_cardinality_of_set();
    vstd::seq_lib::seq_to_set_is_finite(texts);
}

} // verus!
