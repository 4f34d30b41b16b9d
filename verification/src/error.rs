//! The error of a failed ID generation.

use vstd::prelude::*;
use vstd::string::*;

verus! {

/// Error type for ID generation failures.
#[derive(Debug, Clone, Eq, PartialEq)]
pub struct IdGenError {
    pub message: String,
}

impl IdGenError {
    /// The error as it is shown to a reader.
    pub open spec fn shown(&self) -> Seq<char> {
        "ID generation failed: "@ + self.message@
    }

    /// Writes the error out: what went wrong, after a fixed introduction.
    pub fn to_string(&self) -> (r: String)
        ensures
            r@ == self.shown(),
    {
        let mut out = "ID generation failed: ".to_owned();
        out.append(self.message.as_str());
        out
    }
}

impl From<String> for IdGenError {
    fn from(s: String) -> (r: Self) {
        Self { message: s }
    }
}

impl vstd::std_specs::convert::FromSpecImpl<String> for IdGenError {
    open spec fn obeys_from_spec() -> bool {
        true
    }

    open spec fn from_spec(s: String) -> Self {
        IdGenError { message: s }
    }
}

impl<'a> From<&'a str> for IdGenError {
    fn from(s: &'a str) -> (r: Self)
        ensures
            r.message@ == s@,
    {
        Self { message: s.to_owned() }
    }
}

// A `String` cannot be named by its text in a specification: `from` states its own result.
impl<'a> vstd::std_specs::convert::FromSpecImpl<&'a str> for IdGenError {
    open spec fn obeys_from_spec() -> bool {
        false
    }

    open spec fn from_spec(s: &'a str) -> Self {
        arbitrary()
    }
}

} // verus!
