//! The operation a command asks for.

use vstd::prelude::*;
use crate::error::ParseError;
use crate::text::str_eq;

verus! {

/// Whether a command reads a field or writes one.
#[derive(Debug, Clone, Copy, PartialEq, Eq, Structural)]
pub enum CommandType {
    /// Read the field the command addresses.
    Get,
    /// Write the field the command addresses.
    Put,
}

impl CommandType {
    /// The word that selects this operation.
    pub open spec fn name(self) -> Seq<char> {
        match self {
            Self::Get => "get"@,
            Self::Put => "set"@,
        }
    }

    /// The word that selects this operation.
    pub fn as_str(self) -> (r: &'static str)
        ensures
            r@ == self.name(),
    {
        match self {
            Self::Get => "get",
            Self::Put => "set",
        }
    }

    /// Reads the operation from its word. Any other word is reported back in
    /// the error.
    pub fn from_str(s: &str) -> (r: Result<Self, ParseError>)
        ensures
            match r {
                Ok(c) => c.name() == s@,
                Err(e) => {
                    &&& forall|c: Self| c.name() != s@
                    &&& e matches ParseError::InvalidCommandType(word)
                    &&& word@ == s@
                },
            },
    {
        if str_eq(s, "get") {
            Ok(Self::Get)
        } else if str_eq(s, "set") {
            Ok(Self::Put)
        } else {
            Err(ParseError::InvalidCommandType(s.to_owned()))
        }
    }

    /// The two operations go by different words.
    pub proof fn names_are_distinct(a: Self, b: Self)
        requires
            a.name() == b.name(),
        ensures
            a == b,
    {
        reveal_strlit("get");
        reveal_strlit("set");
        assert("get"@.len() == 3 && "get"@[0] == 'g');
        assert("set"@.len() == 3 && "set"@[0] == 's');
    }
}

} // verus!
