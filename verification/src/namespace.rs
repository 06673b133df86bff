//! Namespaces of Durable Objects, the ids in them, and the stubs that ids lead to.
//!
//! `N`, `I`, `S` and `O` stand for the types of handles to the runtime's namespace, id, stub and
//! object state.

use crate::error::{Error, Message};
use crate::operation::{Fetched, Operation};
use crate::options::{FieldValue, OptionField};
use crate::storage::Storage;
use vstd::prelude::*;

verus! {

/// A Durable Object stub is a client object used to send requests to a remote Durable Object.
#[derive(Debug)]
pub struct Stub<S> {
    pub inner: S,
}

/// What is fetched through a stub. `Q` stands for the type of a handle to a request.
#[derive(Debug)]
pub enum FetchCall<'a, Q> {
    Request(Q),
    Url(&'a str),
}

impl<S> Stub<S> {
    /// Send an internal Request to the Durable Object to which the stub points.
    pub fn fetch_with_request<'a, Q, H>(&self, req: Q) -> (r: Operation<
        FetchCall<'a, Q>,
        H,
        Fetched<H>,
    >)
        ensures
            r == Operation::<FetchCall<'a, Q>, H, Fetched<H>>::Call(FetchCall::Request(req)),
    {
        Operation::Call(FetchCall::Request(req))
    }

    /// Construct a Request from a URL to the Durable Object to which the stub points.
    pub fn fetch_with_str<'a, Q, H>(&self, url: &'a str) -> (r: Operation<
        FetchCall<'a, Q>,
        H,
        Fetched<H>,
    >)
        ensures
            r == Operation::<FetchCall<'a, Q>, H, Fetched<H>>::Call(FetchCall::Url(url)),
    {
        Operation::Call(FetchCall::Url(url))
    }
}

/// Use an ObjectNamespace to get access to Stubs for communication with a Durable Object instance.
/// A given namespace can support essentially unlimited Durable Objects, with each Object having
/// access to a transactional, key-value storage API.
#[derive(Debug)]
pub struct ObjectNamespace<N> {
    pub inner: N,
}

/// The name by which the runtime knows the class of a namespace.
pub const TYPE_NAME: &'static str = "DurableObjectNamespace";

/// The properties of the options object that restricts an id to a jurisdiction.
pub open spec fn jurisdiction_properties<'a>(jd: &'a str) -> Seq<OptionField<'a>> {
    seq![OptionField { name: "jurisdiction", value: FieldValue::Text(jd) }]
}

impl<N> ObjectNamespace<N> {
    /// The id that `outcome` is, in this namespace.
    pub open spec fn adopted<'a, I, H>(&'a self, outcome: Result<I, H>) -> Result<
        ObjectId<'a, N, I>,
        Error<H>,
    > {
        match outcome {
            Ok(inner) => Ok(ObjectId { inner, namespace: Some(self) }),
            Err(thrown) => Err(Error::Js(thrown)),
        }
    }

    /// Whether `r` can come of asking the runtime by `call` for the id that `text` stands for.
    pub open spec fn id_for<'a, I, H, F: FnOnce(&N, &str) -> Result<I, H>>(
        &'a self,
        text: &str,
        call: F,
        r: Result<ObjectId<'a, N, I>, Error<H>>,
    ) -> bool {
        exists|outcome: Result<I, H>| #[trigger]
            call.ensures((&self.inner, text), outcome) && r == self.adopted(outcome)
    }

    /// Whether `r` can come of asking the runtime by `call` for a new id.
    pub open spec fn new_id<'a, I, H, F: FnOnce(&N) -> Result<I, H>>(
        &'a self,
        call: F,
        r: Result<ObjectId<'a, N, I>, Error<H>>,
    ) -> bool {
        exists|outcome: Result<I, H>| #[trigger]
            call.ensures((&self.inner,), outcome) && r == self.adopted(outcome)
    }

    /// Whether `r` can come of asking the runtime by `call` for a new id in the jurisdiction `jd`.
    pub open spec fn new_id_in<'a, 'b, I, H, F: FnOnce(&N, Vec<OptionField<'b>>) -> Result<I, H>>(
        &'a self,
        jd: &'b str,
        call: F,
        r: Result<ObjectId<'a, N, I>, Error<H>>,
    ) -> bool {
        exists|options: Vec<OptionField<'b>>, outcome: Result<I, H>|
            options@ == jurisdiction_properties(jd) && #[trigger] call.ensures(
                (&self.inner, options),
                outcome,
            ) && r == self.adopted(outcome)
    }

    /// Makes an id of this namespace of what the runtime answered when it was asked for one.
    pub fn adopt<'a, I, H>(&'a self, outcome: Result<I, H>) -> (r: Result<
        ObjectId<'a, N, I>,
        Error<H>,
    >)
        ensures
            r == self.adopted(outcome),
    {
        match outcome {
            Ok(inner) => Ok(ObjectId { inner, namespace: Some(self) }),
            Err(thrown) => Err(Error::Js(thrown)),
        }
    }

    /// This method derives a unique object ID from the given name string. `call` asks the runtime,
    /// which always answers with the same ID when given the same name.
    pub fn id_from_name<'a, I, H, F: FnOnce(&N, &str) -> Result<I, H>>(
        &'a self,
        name: &str,
        call: F,
    ) -> (r: Result<ObjectId<'a, N, I>, Error<H>>)
        requires
            call.requires((&self.inner, name)),
        ensures
            self.id_for(name, call, r),
    {
        let outcome = call(&self.inner, name);
        self.adopt(outcome)
    }

    /// This method parses an ID that was previously stringified. This is useful in particular with
    /// IDs created using `unique_id(&self)`, as these IDs need to be stored somewhere, probably
    /// as a string.
    ///
    /// A stringified object ID is a 64-digit hexadecimal number. However, not all 64-digit hex
    /// numbers are valid IDs. The runtime, which `call` asks, throws if it is passed an ID that it
    /// did not create, or that it created for a different namespace.
    pub fn id_from_string<'a, I, H, F: FnOnce(&N, &str) -> Result<I, H>>(
        &'a self,
        hex_id: &str,
        call: F,
    ) -> (r: Result<ObjectId<'a, N, I>, Error<H>>)
        requires
            call.requires((&self.inner, hex_id)),
        ensures
            self.id_for(hex_id, call, r),
    {
        let outcome = call(&self.inner, hex_id);
        self.adopt(outcome)
    }

    /// Creates a new object ID randomly. `call` asks the runtime, which never answers with the same
    /// ID twice.
    pub fn unique_id<'a, I, H, F: FnOnce(&N) -> Result<I, H>>(&'a self, call: F) -> (r: Result<
        ObjectId<'a, N, I>,
        Error<H>,
    >)
        requires
            call.requires((&self.inner,)),
        ensures
            self.new_id(call, r),
    {
        let outcome = call(&self.inner);
        self.adopt(outcome)
    }

    /// Durable Objects can be created so that they only run and store data within a specific
    /// jurisdiction to comply with local regulations. You must specify the jurisdiction when
    /// generating the Durable Object's id. `call` is handed the properties of the options object.
    ///
    /// Jurisdiction constraints can only be used with ids created by `unique_id()` and are not
    /// currently compatible with ids created by `id_from_name()`.
    pub fn unique_id_with_jurisdiction<
        'a,
        'b,
        I,
        H,
        F: FnOnce(&N, Vec<OptionField<'b>>) -> Result<I, H>,
    >(&'a self, jd: &'b str, call: F) -> (r: Result<ObjectId<'a, N, I>, Error<H>>)
        requires
            forall|options: Vec<OptionField<'b>>|
                options@ == jurisdiction_properties(jd) ==> #[trigger] call.requires(
                    (&self.inner, options),
                ),
        ensures
            self.new_id_in(jd, call, r),
    {
        let mut options: Vec<OptionField<'b>> = Vec::new();
        options.push(OptionField { name: "jurisdiction", value: FieldValue::Text(jd) });
        assert(options@ == jurisdiction_properties(jd));
        let outcome = call(&self.inner, options);
        self.adopt(outcome)
    }
}

/// An ObjectId is used to identify, locate, and access a Durable Object via interaction with its
/// Stub.
#[derive(Debug)]
pub struct ObjectId<'a, N, I> {
    pub inner: I,
    /// The namespace that the id was made in. An object that asks for its own id does not know it.
    pub namespace: Option<&'a ObjectNamespace<N>>,
}

/// What the runtime's answer to a request for a stub means.
pub open spec fn stub_of<S, H>(outcome: Result<S, H>) -> Result<Stub<S>, Error<H>> {
    match outcome {
        Ok(inner) => Ok(Stub { inner }),
        Err(thrown) => Err(Error::Js(thrown)),
    }
}

impl<'a, N, I> ObjectId<'a, N, I> {
    /// Whether `r` can come of asking the namespace of this id by `call` for a stub. Where the
    /// namespace is not known, nothing is asked.
    pub open spec fn leads_to<S, H, F: FnOnce(&N, &I) -> Result<S, H>>(
        &self,
        call: F,
        r: Result<Stub<S>, Error<H>>,
    ) -> bool {
        match self.namespace {
            Some(namespace) => exists|outcome: Result<S, H>| #[trigger]
                call.ensures((&namespace.inner, &self.inner), outcome) && r == stub_of(outcome),
            None => r == Err::<Stub<S>, Error<H>>(Error::JsMessage(Message::InsideObject)),
        }
    }

    /// Get a Stub for the Durable Object instance identified by this ObjectId. `call` asks the
    /// namespace, which has to be known.
    pub fn get_stub<S, H, F: FnOnce(&N, &I) -> Result<S, H>>(&self, call: F) -> (r: Result<
        Stub<S>,
        Error<H>,
    >)
        requires
            self.namespace matches Some(namespace) ==> call.requires(
                (&namespace.inner, &self.inner),
            ),
        ensures
            self.leads_to(call, r),
    {
        match self.namespace {
            Some(namespace) => match call(&namespace.inner, &self.inner) {
                Ok(inner) => Ok(Stub { inner }),
                Err(thrown) => Err(Error::Js(thrown)),
            },
            None => Err(Error::JsMessage(Message::InsideObject)),
        }
    }

    /// Whether asking the runtime by `call` for the text of this id can give `text`.
    pub open spec fn written_as<F: FnOnce(&I) -> String>(&self, call: F, text: String) -> bool {
        call.ensures((&self.inner,), text)
    }

    /// The id as the runtime writes it. `call` asks the runtime.
    pub fn to_string<F: FnOnce(&I) -> String>(&self, call: F) -> (r: String)
        requires
            call.requires((&self.inner,)),
        ensures
            self.written_as(call, r),
    {
        call(&self.inner)
    }
}

/// Passed from the runtime to provide access to the Durable Object's storage as well as various
/// metadata about the Object.
#[derive(Debug)]
pub struct State<O> {
    pub inner: O,
}

impl<O> State<O> {
    /// The ID of this Durable Object which can be converted into a hex string using its `to_string()`
    /// method. `call` reads it.
    pub fn id<'a, N, I, F: FnOnce(&O) -> I>(&'a self, call: F) -> (r: ObjectId<'a, N, I>)
        requires
            call.requires((&self.inner,)),
        ensures
            call.ensures((&self.inner,), r.inner),
            r.namespace is None,
    {
        ObjectId { inner: call(&self.inner), namespace: None }
    }

    /// Contains methods for accessing persistent storage via the transactional storage API. `call`
    /// reads the runtime's storage object.
    pub fn storage<T, F: FnOnce(&O) -> T>(&self, call: F) -> (r: Storage<T>)
        requires
            call.requires((&self.inner,)),
        ensures
            call.ensures((&self.inner,), r.inner),
    {
        Storage { inner: call(&self.inner) }
    }

    /// The runtime's object state.
    pub fn _inner(self) -> (r: O)
        ensures
            r == self.inner,
    {
        self.inner
    }
}

impl<O> From<O> for State<O> {
    fn from(o: O) -> (r: Self) {
        State { inner: o }
    }
}

impl<O> vstd::std_specs::convert::FromSpecImpl<O> for State<O> {
    open spec fn obeys_from_spec() -> bool {
        true
    }

    open spec fn from_spec(o: O) -> Self {
        State { inner: o }
    }
}

/// A runtime that always answers the same when given the same name makes the same id of it.
pub proof fn law_same_name_same_id<'a, N, I, H, F: FnOnce(&N, &str) -> Result<I, H>>(
    namespace: &'a ObjectNamespace<N>,
    name: &str,
    call: F,
    first: Result<ObjectId<'a, N, I>, Error<H>>,
    second: Result<ObjectId<'a, N, I>, Error<H>>,
)
    requires
        namespace.id_for(name, call, first),
        namespace.id_for(name, call, second),
        forall|one: Result<I, H>, other: Result<I, H>|
            call.ensures((&namespace.inner, name), one) && call.ensures(
                (&namespace.inner, name),
                other,
            ) ==> one == other,
    ensures
        first == second,
{
}

/// Ids that the runtime tells apart stay apart.
pub proof fn law_distinct_ids_stay_distinct<'a, N, I, H>(
    namespace: &'a ObjectNamespace<N>,
    one: I,
    other: I,
)
    requires
        one != other,
    ensures
        namespace.adopted(Ok::<I, H>(one)) != namespace.adopted(Ok::<I, H>(other)),
{
}

/// A stub is asked for in the namespace that the id was made in, and with the runtime's own id.
pub proof fn law_stub_comes_from_the_namespace_of_the_id<
    'a,
    N,
    I,
    S,
    H,
    F: FnOnce(&N, &I) -> Result<S, H>,
>(namespace: &'a ObjectNamespace<N>, inner: I, call: F, outcome: Result<S, H>)
    requires
        call.ensures((&namespace.inner, &inner), outcome),
    ensures
        namespace.adopted(Ok::<I, H>(inner)) is Ok,
        namespace.adopted(Ok::<I, H>(inner))->Ok_0.leads_to(call, stub_of(outcome)),
{
    let id: ObjectId<'a, N, I> = namespace.adopted(Ok::<I, H>(inner))->Ok_0;
    assert(call.ensures((&id.namespace->0.inner, &id.inner), outcome));
}

/// The id that a Durable Object has of itself gives no stub, whatever the runtime would say.
pub proof fn law_own_id_gives_no_stub<'a, N, I, S, H, F: FnOnce(&N, &I) -> Result<S, H>>(
    id: ObjectId<'a, N, I>,
    call: F,
    r: Result<Stub<S>, Error<H>>,
)
    requires
        id.namespace is None,
        id.leads_to(call, r),
    ensures
        r == Err::<Stub<S>, Error<H>>(Error::JsMessage(Message::InsideObject)),
{
}

} // verus!
