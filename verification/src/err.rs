//! The crate's error type.

use vstd::prelude::*;

verus! {

/// A simple error value carrying a human-readable message.
#[derive(Debug)]
pub struct LErr {
    msg: String,
}

impl LErr {
    /// The message this error carries, as a sequence of characters.
    pub closed spec fn text(&self) -> Seq<char> {
        self.msg@
    }

    /// Wraps a message in an error value.
    pub fn new(msg: String) -> (r: LErr)
        ensures
            r.text() == msg@,
    {
        LErr { msg }
    }

    /// The message this error was created with.
    pub fn message(&self) -> (r: &String)
        ensures
            r@ == self.text(),
    {
        &self.msg
    }
}

} // verus!
