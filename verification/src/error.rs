//! A catch-all error that carries nothing but a message.

use vstd::prelude::*;
use vstd::string::StringExecFns;

verus! {

/// An error described by free text.
#[derive(Debug)]
pub struct AnError {
    msg: String,
}

impl View for AnError {
    type V = Seq<char>;

    /// The message the error was made with.
    closed spec fn view(&self) -> Seq<char> {
        self.msg@
    }
}

impl AnError {
    /// Makes an error that carries `msg`.
    pub fn new(msg: &str) -> (e: Self)
        ensures
            e@ == msg@,
    {
        AnError { msg: msg.to_owned() }
    }

    /// The text shown for this error: the message behind a fixed prefix.
    pub open spec fn spec_message(&self) -> Seq<char> {
        "Error: "@ + self@
    }

    /// Renders the error as text.
    pub fn message(&self) -> (s: String)
        ensures
            s@ == self.spec_message(),
    {
        let mut s = String::from_str("Error: ");
        s.append(self.msg.as_str());
        s
    }
}

} // verus!
