//! JavaScript values, as far as the library looks into them.

use crate::number::Number;
use vstd::prelude::*;

verus! {

/// What JavaScript's `typeof` tells apart, with the contents of booleans and numbers. `null` and
/// objects are kept apart too.
#[derive(Clone, Copy, Debug, PartialEq, Eq, Structural)]
pub enum Kind {
    Undefined,
    Null,
    Bool(bool),
    Number(Number),
    Object,
    Other,
}

/// A JavaScript value.
#[derive(Debug)]
pub struct Value<H> {
    pub kind: Kind,
    /// Whether the value is an instance of `Map`.
    pub map: bool,
    /// Whether the value is an instance of `Response`.
    pub response: bool,
    pub handle: H,
}

impl<H> Value<H> {
    pub open spec fn bool_content(self) -> Option<bool> {
        match self.kind {
            Kind::Bool(b) => Some(b),
            _ => None,
        }
    }

    pub open spec fn number_content(self) -> Option<Number> {
        match self.kind {
            Kind::Number(n) => Some(n),
            _ => None,
        }
    }

    /// Whether this is `undefined`.
    pub fn is_undefined(&self) -> (r: bool)
        ensures
            r == (self.kind == Kind::Undefined),
    {
        match self.kind {
            Kind::Undefined => true,
            _ => false,
        }
    }

    /// Whether this is an object. `null` is none.
    pub fn is_object(&self) -> (r: bool)
        ensures
            r == (self.kind == Kind::Object),
    {
        match self.kind {
            Kind::Object => true,
            _ => false,
        }
    }

    /// The boolean that this is, if it is one.
    pub fn as_bool(&self) -> (r: Option<bool>)
        ensures
            r == self.bool_content(),
    {
        match self.kind {
            Kind::Bool(b) => Some(b),
            _ => None,
        }
    }

    /// The number that this is, if it is one.
    pub fn as_number(&self) -> (r: Option<Number>)
        ensures
            r == self.number_content(),
    {
        match self.kind {
            Kind::Number(n) => Some(n),
            _ => None,
        }
    }
}

} // verus!
