//! What holds of ids over several calls, on a runtime that does what it promises.
//!
//! A runtime tells objects apart by the texts of their ids. For each namespace it has a record of the
//! ids that it ever made there.

use crate::error::Error;
use crate::namespace::{ObjectId, ObjectNamespace};
use crate::options::OptionField;
use vstd::prelude::*;

verus! {

/// Whether `text` is a 64-digit hexadecimal number.
pub open spec fn is_hex_id(text: Seq<char>) -> bool {
    &&& text.len() == 64
    &&& forall|i: int| #![trigger text[i]] 0 <= i < text.len() ==> is_hex_digit(text[i])
}

pub open spec fn is_hex_digit(c: char) -> bool {
    '0' <= c <= '9' || 'a' <= c <= 'f' || 'A' <= c <= 'F'
}

/// The ids that were ever made in a namespace, by their texts.
#[verifier::ext_equal]
pub struct Record {
    /// The ids that were derived from names.
    pub named: Map<Seq<char>, Seq<char>>,
    /// The ids that were created at random.
    pub random: Set<Seq<char>>,
}

impl Record {
    pub open spec fn contains(self, text: Seq<char>) -> bool {
        self.random.contains(text) || exists|name: Seq<char>|
            self.named.contains_key(name) && #[trigger] self.named[name] == text
    }

    /// Whether each name has an id of its own, and no random id is that of a name.
    pub open spec fn valid(self) -> bool {
        &&& forall|one: Seq<char>, other: Seq<char>|
            #![trigger self.named[one], self.named[other]]
            self.named.contains_key(one) && self.named.contains_key(other) && self.named[one]
                == self.named[other] ==> one == other
        &&& forall|name: Seq<char>|
            #![trigger self.named[name]]
            self.named.contains_key(name) ==> !self.random.contains(self.named[name])
    }

    /// Whether `later` is what this record can become: nothing is ever taken out of it.
    pub open spec fn grows_to(self, later: Record) -> bool {
        &&& self.named.submap_of(later.named)
        &&& self.random.subset_of(later.random)
    }
}

/// What an id is made of.
pub enum Origin {
    Name(Seq<char>),
    Chance,
}

/// How the runtime writes ids.
#[verifier::reject_recursive_types(I)]
pub struct IdRuntime<I> {
    pub text: spec_fn(I) -> Seq<char>,
}

impl<I> IdRuntime<I> {
    /// Whether `call` asks the runtime for the text of an id.
    pub open spec fn writes<F: FnOnce(&I) -> String>(self, call: F) -> bool {
        forall|id: I, text: String| #[trigger] call.ensures((&id,), text) ==> text@ == (self.text)(id)
    }

    /// Whether the text of every id is a 64-digit hexadecimal number.
    pub open spec fn writes_hex(self) -> bool {
        forall|id: I| is_hex_id(#[trigger] (self.text)(id))
    }

    /// Whether the runtime keeps its promise when it makes an id: the id of a name is the one that it
    /// has already, or else one that it never made before, and an id made at random always is.
    pub open spec fn makes<H>(
        self,
        record: Record,
        origin: Origin,
        outcome: Result<I, H>,
        after: Record,
    ) -> bool {
        match outcome {
            Ok(id) => match origin {
                Origin::Name(name) => if record.named.contains_key(name) {
                    &&& (self.text)(id) == record.named[name]
                    &&& after == record
                } else {
                    &&& !record.contains((self.text)(id))
                    &&& after == (Record {
                        named: record.named.insert(name, (self.text)(id)),
                        ..record
                    })
                },
                Origin::Chance => {
                    &&& !record.contains((self.text)(id))
                    &&& after == (Record { random: record.random.insert((self.text)(id)), ..record })
                },
            },
            Err(_) => after == record,
        }
    }

    /// Whether the runtime keeps its promise when it parses a text: it gives the id that has this
    /// text if it made one, and throws otherwise.
    pub open spec fn parses<H>(self, record: Record, text: Seq<char>, outcome: Result<I, H>) -> bool {
        match outcome {
            Ok(id) => record.contains(text) && (self.text)(id) == text,
            Err(_) => !record.contains(text),
        }
    }
}

/// Making an id keeps the record valid and takes nothing out of it, and the id is in it afterwards.
pub proof fn law_every_id_is_recorded<I, H>(
    runtime: IdRuntime<I>,
    record: Record,
    origin: Origin,
    outcome: Result<I, H>,
    after: Record,
)
    requires
        record.valid(),
        runtime.makes(record, origin, outcome, after),
    ensures
        after.valid(),
        record.grows_to(after),
        outcome matches Ok(id) ==> after.contains((runtime.text)(id)),
{
    if let Ok(id) = outcome {
        let text: Seq<char> = (runtime.text)(id);
        if let Origin::Name(name) = origin {
            assert(after.named.contains_key(name) && after.named[name] == text);
            if !record.named.contains_key(name) {
                assert forall|other: Seq<char>| #[trigger]
                    record.named.contains_key(other) implies record.named[other] != text by {
                    if record.named[other] == text {
                        assert(record.contains(text));
                    }
                }
            }
        } else {
            assert forall|name: Seq<char>|
                #![trigger after.named[name]]
                after.named.contains_key(name) implies !after.random.contains(after.named[name]) by {
                if after.named[name] == text {
                    assert(record.contains(text));
                }
            }
        }
    }
}

/// What was recorded once stays recorded.
pub proof fn law_records_last(record: Record, later: Record, text: Seq<char>)
    requires
        record.grows_to(later),
        record.contains(text),
    ensures
        later.contains(text),
{
    if !record.random.contains(text) {
        let name: Seq<char> = choose|name: Seq<char>|
            record.named.contains_key(name) && #[trigger] record.named[name] == text;
        assert(later.named.contains_key(name) && later.named[name] == text);
    }
}

/// The same name always gives the same id, and each name its own.
pub proof fn law_names_and_ids_correspond<
    'a,
    N,
    I,
    H,
    F: FnOnce(&N, &str) -> Result<I, H>,
    G: FnOnce(&N, &str) -> Result<I, H>,
    V: FnOnce(&I) -> String,
    W: FnOnce(&I) -> String,
>(
    runtime: IdRuntime<I>,
    namespace: &'a ObjectNamespace<N>,
    first_name: &str,
    first_call: F,
    first: ObjectId<'a, N, I>,
    first_write: V,
    first_text: String,
    second_name: &str,
    second_call: G,
    second: ObjectId<'a, N, I>,
    second_write: W,
    second_text: String,
    record: Record,
    after_first: Record,
    later: Record,
    after_second: Record,
)
    requires
        record.valid(),
        namespace.id_for(first_name, first_call, Ok::<ObjectId<'a, N, I>, Error<H>>(first)),
        forall|outcome: Result<I, H>| #[trigger]
            first_call.ensures((&namespace.inner, first_name), outcome) ==> runtime.makes(
                record,
                Origin::Name(first_name@),
                outcome,
                after_first,
            ),
        after_first.grows_to(later),
        later.valid(),
        namespace.id_for(second_name, second_call, Ok::<ObjectId<'a, N, I>, Error<H>>(second)),
        forall|outcome: Result<I, H>| #[trigger]
            second_call.ensures((&namespace.inner, second_name), outcome) ==> runtime.makes(
                later,
                Origin::Name(second_name@),
                outcome,
                after_second,
            ),
        runtime.writes(first_write),
        first.written_as(first_write, first_text),
        runtime.writes(second_write),
        second.written_as(second_write, second_text),
    ensures
        first_text@ == second_text@ <==> first_name@ == second_name@,
{
    assert(after_first.named.contains_key(first_name@));
    assert(later.named.contains_key(first_name@));
    assert(first_text@ == later.named[first_name@]);
    if later.named.contains_key(second_name@) {
        assert(second_text@ == later.named[second_name@]);
    } else {
        assert(!later.contains(second_text@));
    }
}

/// The text of an id leads back to it: parsing it in the same namespace, at any later time, succeeds
/// and gives an id with the same text, which is how the runtime knows the object.
pub proof fn law_text_leads_back_to_the_id<
    'a,
    N,
    I,
    H,
    F: FnOnce(&N, &str) -> Result<I, H>,
    V: FnOnce(&I) -> String,
>(
    runtime: IdRuntime<I>,
    namespace: &'a ObjectNamespace<N>,
    origin: Origin,
    outcome: Result<I, H>,
    id: ObjectId<'a, N, I>,
    write: V,
    hex_id: String,
    hex_text: &str,
    call: F,
    r: Result<ObjectId<'a, N, I>, Error<H>>,
    record: Record,
    after: Record,
    later: Record,
)
    requires
        record.valid(),
        runtime.makes(record, origin, outcome, after),
        namespace.adopted(outcome) == Ok::<ObjectId<'a, N, I>, Error<H>>(id),
        runtime.writes(write),
        id.written_as(write, hex_id),
        hex_text@ == hex_id@,
        after.grows_to(later),
        namespace.id_for(hex_text, call, r),
        forall|parsed: Result<I, H>| #[trigger]
            call.ensures((&namespace.inner, hex_text), parsed) ==> runtime.parses(
                later,
                hex_text@,
                parsed,
            ),
    ensures
        r matches Ok(back) && (runtime.text)(back.inner) == hex_id@ && (runtime.text)(back.inner)
            == (runtime.text)(id.inner) && back.namespace == Some(namespace),
        forall|text: String| #[trigger] r->Ok_0.written_as(write, text) ==> text@ == hex_id@,
{
    law_every_id_is_recorded(runtime, record, origin, outcome, after);
    law_records_last(after, later, hex_id@);
}

/// A text that is not that of an id of the namespace is refused with what the runtime throws.
pub proof fn law_foreign_text_is_refused<'a, N, I, H, F: FnOnce(&N, &str) -> Result<I, H>>(
    runtime: IdRuntime<I>,
    namespace: &'a ObjectNamespace<N>,
    hex_id: &str,
    call: F,
    r: Result<ObjectId<'a, N, I>, Error<H>>,
    record: Record,
)
    requires
        !record.contains(hex_id@),
        namespace.id_for(hex_id, call, r),
        forall|parsed: Result<I, H>| #[trigger]
            call.ensures((&namespace.inner, hex_id), parsed) ==> runtime.parses(
                record,
                hex_id@,
                parsed,
            ),
    ensures
        r matches Err(Error::Js(thrown)) && call.ensures(
            (&namespace.inner, hex_id),
            Err::<I, H>(thrown),
        ),
{
}

/// A new id is none that the namespace ever had: its text differs from that of every id made there
/// before, be it from a name or at random.
pub proof fn law_new_ids_are_new<
    'a,
    N,
    I,
    H,
    F: FnOnce(&N) -> Result<I, H>,
    V: FnOnce(&I) -> String,
>(
    runtime: IdRuntime<I>,
    namespace: &'a ObjectNamespace<N>,
    call: F,
    id: ObjectId<'a, N, I>,
    write: V,
    text: String,
    record: Record,
    after: Record,
    earlier: Record,
    earlier_text: Seq<char>,
)
    requires
        namespace.new_id(call, Ok::<ObjectId<'a, N, I>, Error<H>>(id)),
        forall|outcome: Result<I, H>| #[trigger]
            call.ensures((&namespace.inner,), outcome) ==> runtime.makes(
                record,
                Origin::Chance,
                outcome,
                after,
            ),
        runtime.writes(write),
        id.written_as(write, text),
        earlier.contains(earlier_text),
        earlier.grows_to(record),
    ensures
        text@ != earlier_text,
        !record.contains(text@),
        after.contains(text@),
{
    law_records_last(earlier, record, earlier_text);
}

/// The same for an id that is made in a jurisdiction.
pub proof fn law_new_ids_in_a_jurisdiction_are_new<
    'a,
    'b,
    N,
    I,
    H,
    F: FnOnce(&N, Vec<OptionField<'b>>) -> Result<I, H>,
    V: FnOnce(&I) -> String,
>(
    runtime: IdRuntime<I>,
    namespace: &'a ObjectNamespace<N>,
    jd: &'b str,
    call: F,
    id: ObjectId<'a, N, I>,
    write: V,
    text: String,
    record: Record,
    after: Record,
    earlier: Record,
    earlier_text: Seq<char>,
)
    requires
        namespace.new_id_in(jd, call, Ok::<ObjectId<'a, N, I>, Error<H>>(id)),
        forall|options: Vec<OptionField<'b>>, outcome: Result<I, H>| #[trigger]
            call.ensures((&namespace.inner, options), outcome) ==> runtime.makes(
                record,
                Origin::Chance,
                outcome,
                after,
            ),
        runtime.writes(write),
        id.written_as(write, text),
        earlier.contains(earlier_text),
        earlier.grows_to(record),
    ensures
        text@ != earlier_text,
        !record.contains(text@),
        after.contains(text@),
{
    law_records_last(earlier, record, earlier_text);
}

/// An id has one text, however often it is asked for, and that is a 64-digit hexadecimal number. It
/// does not matter where the id comes from: an object's own id is written like any other.
pub proof fn law_text_of_an_id<
    'a,
    N,
    I,
    V: FnOnce(&I) -> String,
    W: FnOnce(&I) -> String,
>(
    runtime: IdRuntime<I>,
    id: ObjectId<'a, N, I>,
    write: V,
    text: String,
    write_again: W,
    text_again: String,
)
    requires
        runtime.writes_hex(),
        runtime.writes(write),
        id.written_as(write, text),
        runtime.writes(write_again),
        id.written_as(write_again, text_again),
    ensures
        is_hex_id(text@),
        text_again@ == text@,
{
}

} // verus!
