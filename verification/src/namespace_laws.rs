//! What each method of a namespace, of an id, of a stub and of an object's state does with what the
//! runtime answers.
//!
//! The runtime is given here by what it answers to whatever it may be asked, so a law says both what
//! it is asked and what becomes of the answer.

use crate::error::{Error, Message};
use crate::namespace::{jurisdiction_properties, FetchCall, ObjectId, ObjectNamespace, State, Stub};
use crate::operation::{CallOutcome, Fetched, Operation};
use crate::options::{property, FieldValue, OptionField};
use crate::reply_laws::ends_as;
use crate::storage::Storage;
use crate::value::Value;
use vstd::prelude::*;

verus! {

/// The id of a name is what the namespace answers for that name, and belongs to the namespace. The
/// id of a text likewise. What the runtime throws is the error.
pub proof fn law_id_is_what_the_namespace_answers<
    'a,
    N,
    I,
    H,
    F: FnOnce(&N, &str) -> Result<I, H>,
>(
    namespace: &'a ObjectNamespace<N>,
    text: &str,
    call: F,
    answer: spec_fn(N, Seq<char>) -> Result<I, H>,
    result: Result<ObjectId<'a, N, I>, Error<H>>,
)
    requires
        call_ensures(ObjectNamespace::<N>::id_from_name::<I, H, F>, (namespace, text, call), result)
            || call_ensures(
            ObjectNamespace::<N>::id_from_string::<I, H, F>,
            (namespace, text, call),
            result,
        ),
        forall|asked: N, given: &str, outcome: Result<I, H>| #[trigger]
            call.ensures((&asked, given), outcome) ==> outcome == answer(asked, given@),
    ensures
        answer(namespace.inner, text@) matches Ok(inner) ==> (result matches Ok(id) && id.inner
            == inner && id.namespace == Some(namespace)),
        answer(namespace.inner, text@) matches Err(thrown) ==> result == Err::<
            ObjectId<'a, N, I>,
            Error<H>,
        >(Error::Js(thrown)),
{
}

/// A new id is what the namespace answers, and belongs to the namespace. What the runtime throws is
/// the error.
pub proof fn law_new_id_is_what_the_namespace_answers<'a, N, I, H, F: FnOnce(&N) -> Result<I, H>>(
    namespace: &'a ObjectNamespace<N>,
    call: F,
    result: Result<ObjectId<'a, N, I>, Error<H>>,
)
    requires
        call_ensures(ObjectNamespace::<N>::unique_id::<I, H, F>, (namespace, call), result),
    ensures
        result matches Ok(id) ==> call.ensures((&namespace.inner,), Ok::<I, H>(id.inner))
            && id.namespace == Some(namespace),
        result matches Err(error) ==> (error matches Error::Js(thrown) && call.ensures(
            (&namespace.inner,),
            Err::<I, H>(thrown),
        )),
{
}

/// The options object that restricts an id to a jurisdiction names that jurisdiction, and holds
/// nothing else.
pub proof fn law_jurisdiction_is_carried<'b>(jd: &'b str, name: Seq<char>)
    ensures
        property(jurisdiction_properties(jd), "jurisdiction"@) == Some(FieldValue::Text(jd)),
        property(jurisdiction_properties(jd), name) is Some ==> name == "jurisdiction"@,
{
    let fields: Seq<OptionField<'b>> = jurisdiction_properties(jd);
    assert(fields.drop_last().len() == 0);
    assert(property(fields.drop_last(), name) is None);
}

/// A new id in a jurisdiction is what the namespace answers when it is handed that jurisdiction and
/// no other option, and belongs to the namespace. What the runtime throws is the error.
pub proof fn law_new_id_is_restricted_to_the_jurisdiction<
    'a,
    'b,
    N,
    I,
    H,
    F: FnOnce(&N, Vec<OptionField<'b>>) -> Result<I, H>,
>(
    namespace: &'a ObjectNamespace<N>,
    jd: &'b str,
    call: F,
    result: Result<ObjectId<'a, N, I>, Error<H>>,
) -> (options: Vec<OptionField<'b>>)
    requires
        call_ensures(
            ObjectNamespace::<N>::unique_id_with_jurisdiction::<I, H, F>,
            (namespace, jd, call),
            result,
        ),
    ensures
        property(options@, "jurisdiction"@) == Some(FieldValue::Text(jd)),
        forall|name: Seq<char>| #[trigger]
            property(options@, name) is Some ==> name == "jurisdiction"@,
        result matches Ok(id) ==> call.ensures((&namespace.inner, options), Ok::<I, H>(id.inner))
            && id.namespace == Some(namespace),
        result matches Err(error) ==> (error matches Error::Js(thrown) && call.ensures(
            (&namespace.inner, options),
            Err::<I, H>(thrown),
        )),
{
    let (options, outcome) = choose|options: Vec<OptionField<'b>>, outcome: Result<I, H>|
        options@ == jurisdiction_properties(jd) && #[trigger] call.ensures(
            (&namespace.inner, options),
            outcome,
        ) && result == namespace.adopted(outcome);
    law_jurisdiction_is_carried(jd, "jurisdiction"@);
    assert forall|name: Seq<char>| #[trigger] property(options@, name) is Some implies name
        == "jurisdiction"@ by {
        law_jurisdiction_is_carried(jd, name);
    }
    options
}

/// Adopting an answer keeps the id and notes the namespace, or passes on what was thrown.
pub proof fn law_adopted_id_belongs_to_the_namespace<'a, N, I, H>(
    namespace: &'a ObjectNamespace<N>,
    outcome: Result<I, H>,
    result: Result<ObjectId<'a, N, I>, Error<H>>,
)
    requires
        call_ensures(ObjectNamespace::<N>::adopt::<I, H>, (namespace, outcome), result),
    ensures
        outcome matches Ok(inner) ==> (result matches Ok(id) && id.inner == inner && id.namespace
            == Some(namespace)),
        outcome matches Err(thrown) ==> result == Err::<ObjectId<'a, N, I>, Error<H>>(
            Error::Js(thrown),
        ),
{
}

/// A stub is what the namespace of the id answers for the runtime's own id. Where the namespace is
/// not known, the result is an error that says so.
pub proof fn law_stub_is_what_the_namespace_answers<
    'a,
    N,
    I,
    S,
    H,
    F: FnOnce(&N, &I) -> Result<S, H>,
>(
    id: ObjectId<'a, N, I>,
    call: F,
    answer: spec_fn(N, I) -> Result<S, H>,
    result: Result<Stub<S>, Error<H>>,
)
    requires
        call_ensures(ObjectId::<'a, N, I>::get_stub::<S, H, F>, (&id, call), result),
        forall|asked: N, given: I, outcome: Result<S, H>| #[trigger]
            call.ensures((&asked, &given), outcome) ==> outcome == answer(asked, given),
    ensures
        id.namespace matches Some(namespace) ==> {
            &&& answer(namespace.inner, id.inner) matches Ok(inner) ==> (result matches Ok(stub)
                && stub.inner == inner)
            &&& answer(namespace.inner, id.inner) matches Err(thrown) ==> result == Err::<
                Stub<S>,
                Error<H>,
            >(Error::Js(thrown))
        },
        id.namespace is None ==> result == Err::<Stub<S>, Error<H>>(
            Error::JsMessage(Message::InsideObject),
        ),
{
}

/// The text of an id is what the runtime writes for it.
pub proof fn law_text_is_what_the_runtime_writes<'a, N, I, F: FnOnce(&I) -> String>(
    id: ObjectId<'a, N, I>,
    call: F,
    written: spec_fn(I) -> Seq<char>,
    text: String,
)
    requires
        call_ensures(ObjectId::<'a, N, I>::to_string::<F>, (&id, call), text),
        forall|given: I, outcome: String| #[trigger]
            call.ensures((&given,), outcome) ==> outcome@ == written(given),
    ensures
        text@ == written(id.inner),
{
}

/// Fetching through a stub sends the request that is given. The result is the answer to it if that is
/// a `Response`, and else the answer is the error.
pub proof fn law_request_is_answered<'a, S, Q, H>(
    stub: Stub<S>,
    request: Q,
    operation: Operation<FetchCall<'a, Q>, H, Fetched<H>>,
    answer: spec_fn(FetchCall<'a, Q>) -> Value<H>,
    end: Operation<FetchCall<'a, Q>, H, Fetched<H>>,
)
    requires
        call_ensures(Stub::<S>::fetch_with_request::<Q, H>, (&stub, request), operation),
        operation matches Operation::Call(call) ==> ends_as(
            operation,
            CallOutcome::Started,
            Ok(answer(call)),
            end,
        ),
    ensures
        operation is Call,
        answer(FetchCall::Request(request)).response ==> end == Operation::<
            FetchCall<'a, Q>,
            H,
            Fetched<H>,
        >::Done(Ok(Fetched(answer(FetchCall::Request(request)).handle))),
        !answer(FetchCall::Request(request)).response ==> end == Operation::<
            FetchCall<'a, Q>,
            H,
            Fetched<H>,
        >::Done(Err(Error::Js(answer(FetchCall::Request(request)).handle))),
{
}

/// Fetching a URL through a stub asks for that URL. The result is the answer to it if that is a
/// `Response`, and else the answer is the error.
pub proof fn law_url_is_answered<'a, S, Q, H>(
    stub: Stub<S>,
    url: &'a str,
    operation: Operation<FetchCall<'a, Q>, H, Fetched<H>>,
    answer: spec_fn(FetchCall<'a, Q>) -> Value<H>,
    end: Operation<FetchCall<'a, Q>, H, Fetched<H>>,
)
    requires
        call_ensures(Stub::<S>::fetch_with_str::<Q, H>, (&stub, url), operation),
        operation matches Operation::Call(call) ==> ends_as(
            operation,
            CallOutcome::Started,
            Ok(answer(call)),
            end,
        ),
    ensures
        operation is Call,
        answer(FetchCall::Url(url)).response ==> end == Operation::<
            FetchCall<'a, Q>,
            H,
            Fetched<H>,
        >::Done(Ok(Fetched(answer(FetchCall::Url(url)).handle))),
        !answer(FetchCall::Url(url)).response ==> end == Operation::<
            FetchCall<'a, Q>,
            H,
            Fetched<H>,
        >::Done(Err(Error::Js(answer(FetchCall::Url(url)).handle))),
{
}

/// An object's state gives the id and the storage that the runtime's object state has. The id is
/// written as the runtime writes it, and gives no stub.
pub proof fn law_state_gives_what_the_object_state_has<
    'a,
    O,
    N,
    I,
    T,
    F: FnOnce(&O) -> I,
    G: FnOnce(&O) -> T,
>(
    state: &'a State<O>,
    read_id: F,
    id_of: spec_fn(O) -> I,
    id: ObjectId<'a, N, I>,
    read_storage: G,
    storage_of: spec_fn(O) -> T,
    storage: Storage<T>,
)
    requires
        call_ensures(State::<O>::id::<N, I, F>, (state, read_id), id),
        forall|asked: O, outcome: I| #[trigger]
            read_id.ensures((&asked,), outcome) ==> outcome == id_of(asked),
        call_ensures(State::<O>::storage::<T, G>, (state, read_storage), storage),
        forall|asked: O, outcome: T| #[trigger]
            read_storage.ensures((&asked,), outcome) ==> outcome == storage_of(asked),
    ensures
        id.inner == id_of(state.inner),
        id.namespace is None,
        storage.inner == storage_of(state.inner),
{
}

/// What a state is made from can be taken out again.
pub proof fn law_state_holds_the_object_state<O>(object: O, state: State<O>, inner: O)
    requires
        call_ensures(<State<O> as From<O>>::from, (object,), state),
        call_ensures(State::<O>::_inner, (state,), inner),
    ensures
        inner == object,
        state.inner == object,
{
}

} // verus!
