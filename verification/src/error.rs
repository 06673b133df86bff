//! What can go wrong.

use vstd::prelude::*;

verus! {

/// An error text that the library writes itself.
#[derive(Debug)]
pub enum Message {
    /// A key was read under which nothing is stored.
    NoSuchValue,
    /// A deletion was answered by something other than a boolean.
    NotABool,
    /// A deletion of several keys was answered by something other than a number.
    NotANumber,
    /// A stub was asked for on the id that a Durable Object has of itself.
    InsideObject,
    /// Several values were to be stored from something that is not an object.
    NotAStruct,
    /// A stored value was not of the type that was asked for. The text is the decoder's.
    Undecodable(String),
}

impl Message {
    pub open spec fn content(self) -> Seq<char> {
        match self {
            Message::NoSuchValue => "No such value in storage."@,
            Message::NotABool => "Promise did not return bool"@,
            Message::NotANumber => "Promise did not return number"@,
            Message::InsideObject => "Cannot get stub from within a Durable Object"@,
            Message::NotAStruct => "Must pass in a struct type"@,
            Message::Undecodable(text) => text@,
        }
    }

    /// The text itself.
    pub fn text(&self) -> (r: String)
        ensures
            r@ == self.content(),
    {
        match self {
            Message::NoSuchValue => "No such value in storage.".to_owned(),
            Message::NotABool => "Promise did not return bool".to_owned(),
            Message::NotANumber => "Promise did not return number".to_owned(),
            Message::InsideObject => "Cannot get stub from within a Durable Object".to_owned(),
            Message::NotAStruct => "Must pass in a struct type".to_owned(),
            Message::Undecodable(text) => text.clone(),
        }
    }
}

/// The error of an operation.
#[derive(Debug)]
pub enum Error<H> {
    /// A JavaScript value: what a call threw, what a promise was rejected with, or an answer of the
    /// wrong class.
    Js(H),
    /// A JavaScript string that holds the message.
    JsMessage(Message),
    /// A message that never was a JavaScript value.
    RustMessage(Message),
    /// The error value of the encoder that turns Rust values into JavaScript values.
    Encoding(H),
}

} // verus!
