//! The error shared by every constructor of this crate.

use vstd::prelude::*;
use vstd::std_specs::cmp::PartialEqSpecImpl;

verus! {

/// Why a constructor refused its input.
#[derive(Debug)]
pub enum TypeError {
    /// The input is outside the grammar; the text says which grammar.
    ParseError(String),
}

impl Clone for TypeError {
    fn clone(&self) -> (copy: Self)
        ensures
            copy.message() == self.message(),
    {
        match self {
            TypeError::ParseError(msg) => TypeError::ParseError(msg.clone()),
        }
    }
}

impl PartialEq for TypeError {
    fn eq(&self, other: &Self) -> (same: bool) {
        match (self, other) {
            (TypeError::ParseError(mine), TypeError::ParseError(theirs)) => *mine == *theirs,
        }
    }
}

impl PartialEqSpecImpl for TypeError {
    open spec fn obeys_eq_spec() -> bool {
        true
    }

    /// Two errors are equal when their messages are.
    open spec fn eq_spec(&self, other: &Self) -> bool {
        self.message() == other.message()
    }
}

impl Eq for TypeError {

}

impl TypeError {
    /// The message carried by the error, as a sequence of characters.
    pub open spec fn message(&self) -> Seq<char> {
        match self {
            TypeError::ParseError(msg) => msg@,
        }
    }

    /// Renders the error: the message, verbatim.
    pub fn to_string(&self) -> (text: String)
        ensures
            text@ == self.message(),
    {
        match self {
            TypeError::ParseError(msg) => msg.clone(),
        }
    }
}

/// What a constructor returns, as text: the text of the value, or the
/// message of the error.
pub type Outcome = Result<Seq<char>, Seq<char>>;

/// What a constructor returned, with the value and the error replaced by
/// their text.
pub open spec fn outcome<T: View>(r: Result<T, TypeError>) -> Result<T::V, Seq<char>> {
    match r {
        Ok(value) => Ok(value@),
        Err(error) => Err(error.message()),
    }
}

} // verus!
