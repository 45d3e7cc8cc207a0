//! The closed sets of names a command can use, one set per kind of object,
//! and what each named field accepts.
//!
//! A field is either an *action*, which carries numbers or text, or an
//! *enum*, which carries one of a closed set of named variants. Each set is
//! an enumeration here, so that a lookup yields a value of a closed type and
//! whoever executes a request can match on it exhaustively.

use vstd::prelude::*;

pub mod global;
pub mod kit;
pub mod object;
pub mod pattern;
pub mod settings;
pub mod sound;

verus! {

/// Whether an access to a field stands alone or must say which of the field's
/// slots it means.
#[derive(Debug, Clone, Copy, PartialEq, Eq, Structural)]
pub enum Shape {
    /// The field holds one value.
    Plain,
    /// The field holds several values; an access names one by a slot index.
    Slotted,
}

/// What an action field takes when it is written.
#[derive(Debug, Clone, Copy, PartialEq, Eq, Structural)]
pub enum Takes {
    /// A number, read as an unsigned integer.
    Unsigned,
    /// A number, read as a signed integer.
    Signed,
    /// The integer 0 or 1, read as off or on.
    Flag,
    /// A number, read as a real.
    Real,
    /// A non-empty text.
    Name,
    /// A slot index followed by a signed integer amount.
    SlotAmount,
}

} // verus!
