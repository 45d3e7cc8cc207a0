//! The errors a command can end in.
//!
//! Where an error carries a sentence, the sentence is part of the error: the
//! functions that raise it state its text. How an error is finally worded
//! for a reader is left to whoever shows it.

use vstd::prelude::*;
use crate::parse::types::{Number, ParsedValue, ParsedView, parsed_views};
use crate::value::{RytmValue, ValueView};

verus! {

/// The text an optional string stands for.
pub open spec fn opt_text(o: Option<String>) -> Option<Seq<char>> {
    match o {
        Some(s) => Some(s@),
        None => None,
    }
}

/// A command could not be read.
#[derive(Debug)]
pub enum ParseError {
    /// The word given for the operation is not one. Carries the word.
    InvalidCommandType(String),
    /// A field name was expected where the values end or where a number
    /// stands, or values are left over after a complete command.
    UnexpectedEnd,
    /// A symbol that is neither a known field name nor a known enum name.
    /// Carries a sentence that quotes the symbol.
    InvalidToken(String),
    /// A symbol of the wrong form. Carries a sentence that says which form
    /// was expected.
    InvalidFormat(String),
    /// An enum was named without a variant in a command that writes. Carries
    /// the enum's name.
    EnumRequiresValue(String),
    /// A kit element was not followed by its index. Carries a sentence that
    /// quotes the element.
    ExpectedKitElementIndex(String),
    /// A track, trig or kit sound index outside its range. Carries a
    /// sentence that gives the index and the range.
    IndexOutOfRange(String),
    /// The index of an object is not an integer.
    InvalidIndexType,
    /// The index of an object lies outside the range of its type.
    InvalidIndexRange { min: isize, max: isize, value: isize },
    /// The first value is not the name of an object type.
    InvalidSelector,
    /// There is no first value.
    QuerySelectorMissing,
    /// The object type takes an index and the second value is not an integer.
    QuerySelectorIndexMissingOrInvalid,
    /// A parameter-lock word that cannot stand where it stands. Carries the
    /// word and a sentence of advice.
    InvalidPlockOperation(String, String),
    /// An object type that takes an index was given none.
    InvalidQueryFormat,
    /// A number other than the integers 0 and 1 where a field takes off or
    /// on. Carries the number and the field's name.
    ExpectedZeroOrOne { found: Number, identifier: String },
}

/// What a [`ParseError`] stands for.
pub enum ParseErrorView {
    InvalidCommandType(Seq<char>),
    UnexpectedEnd,
    InvalidToken(Seq<char>),
    InvalidFormat(Seq<char>),
    EnumRequiresValue(Seq<char>),
    ExpectedKitElementIndex(Seq<char>),
    IndexOutOfRange(Seq<char>),
    InvalidIndexType,
    InvalidIndexRange { min: isize, max: isize, value: isize },
    InvalidSelector,
    QuerySelectorMissing,
    QuerySelectorIndexMissingOrInvalid,
    InvalidPlockOperation(Seq<char>, Seq<char>),
    InvalidQueryFormat,
    ExpectedZeroOrOne { found: Number, identifier: Seq<char> },
}

impl View for ParseError {
    type V = ParseErrorView;

    open spec fn view(&self) -> ParseErrorView {
        match self {
            ParseError::InvalidCommandType(s) => ParseErrorView::InvalidCommandType(s@),
            ParseError::UnexpectedEnd => ParseErrorView::UnexpectedEnd,
            ParseError::InvalidToken(s) => ParseErrorView::InvalidToken(s@),
            ParseError::InvalidFormat(s) => ParseErrorView::InvalidFormat(s@),
            ParseError::EnumRequiresValue(s) => ParseErrorView::EnumRequiresValue(s@),
            ParseError::ExpectedKitElementIndex(s) => ParseErrorView::ExpectedKitElementIndex(s@),
            ParseError::IndexOutOfRange(s) => ParseErrorView::IndexOutOfRange(s@),
            ParseError::InvalidIndexType => ParseErrorView::InvalidIndexType,
            ParseError::InvalidIndexRange { min, max, value } => ParseErrorView::InvalidIndexRange {
                min: *min,
                max: *max,
                value: *value,
            },
            ParseError::InvalidSelector => ParseErrorView::InvalidSelector,
            ParseError::QuerySelectorMissing => ParseErrorView::QuerySelectorMissing,
            ParseError::QuerySelectorIndexMissingOrInvalid => ParseErrorView::QuerySelectorIndexMissingOrInvalid,
            ParseError::InvalidPlockOperation(a, b) => ParseErrorView::InvalidPlockOperation(a@, b@),
            ParseError::InvalidQueryFormat => ParseErrorView::InvalidQueryFormat,
            ParseError::ExpectedZeroOrOne { found, identifier } => ParseErrorView::ExpectedZeroOrOne {
                found: *found,
                identifier: identifier@,
            },
        }
    }
}

/// A query for an object could not be formed.
#[derive(Debug, Clone, Copy, PartialEq, Eq, Structural)]
pub enum QueryError {
    /// There are no values to name an object.
    InvalidFormat,
}

/// An object could not be picked for sending.
#[derive(Debug, Clone, Copy, PartialEq, Eq, Structural)]
pub enum SendError {
    /// There are no values to name an object.
    InvalidFormat,
}

/// A command that reads could not be carried out.
#[derive(Debug)]
pub enum GetError {
    /// The command has the wrong form. Carries a sentence that says why.
    InvalidFormat(String),
    /// An index of the path lies outside its collection. Carries a sentence
    /// that gives the index and the bounds.
    InvalidRange(String),
}

/// What a [`GetError`] stands for.
pub enum GetErrorView {
    InvalidFormat(Seq<char>),
    InvalidRange(Seq<char>),
}

impl View for GetError {
    type V = GetErrorView;

    open spec fn view(&self) -> GetErrorView {
        match self {
            GetError::InvalidFormat(s) => GetErrorView::InvalidFormat(s@),
            GetError::InvalidRange(s) => GetErrorView::InvalidRange(s@),
        }
    }
}

/// A command that writes could not be carried out.
#[derive(Debug)]
pub enum SetError {
    /// The command has the wrong form. Carries a sentence that says why.
    InvalidFormat(String),
}

/// What a [`SetError`] stands for.
pub enum SetErrorView {
    InvalidFormat(Seq<char>),
}

impl View for SetError {
    type V = SetErrorView;

    open spec fn view(&self) -> SetErrorView {
        match self {
            SetError::InvalidFormat(s) => SetErrorView::InvalidFormat(s@),
        }
    }
}

/// An enum was named that the addressed object does not have.
#[derive(Debug)]
pub enum EnumError {
    /// Carries the name.
    InvalidEnumType(String),
}

/// What an [`EnumError`] stands for.
pub enum EnumErrorView {
    InvalidEnumType(Seq<char>),
}

impl View for EnumError {
    type V = EnumErrorView;

    open spec fn view(&self) -> EnumErrorView {
        match self {
            EnumError::InvalidEnumType(s) => EnumErrorView::InvalidEnumType(s@),
        }
    }
}

/// A field was named that the addressed object does not have, or does not
/// have for the operation asked.
#[derive(Debug)]
pub enum IdentifierError {
    /// Carries the name.
    InvalidType(String),
}

/// What an [`IdentifierError`] stands for.
pub enum IdentifierErrorView {
    InvalidType(Seq<char>),
}

impl View for IdentifierError {
    type V = IdentifierErrorView;

    open spec fn view(&self) -> IdentifierErrorView {
        match self {
            IdentifierError::InvalidType(s) => IdentifierErrorView::InvalidType(s@),
        }
    }
}

/// The kind of value an accessor asked for.
#[derive(Debug, Clone, Copy, PartialEq, Eq, Structural)]
pub enum Expected {
    /// An integer or a real.
    Number,
    /// A text.
    Symbol,
    /// The integer 0 or the integer 1.
    ZeroOrOne,
}

/// Every error of the library.
#[derive(Debug)]
pub enum RytmObjectError {
    /// An error that has only a sentence to it.
    Custom(String),
    Query(QueryError),
    Send(SendError),
    Get(GetError),
    Put(SetError),
    Enum(EnumError),
    Identifier(IdentifierError),
    Parse(ParseError),
    /// A value is not of the kind that was asked of it. Carries the value.
    TypeMismatch { expected: Expected, found: RytmValue },
}

/// What a [`RytmObjectError`] stands for.
pub enum RytmObjectErrorView {
    Custom(Seq<char>),
    Query(QueryError),
    Send(SendError),
    Get(GetErrorView),
    Put(SetErrorView),
    Enum(EnumErrorView),
    Identifier(IdentifierErrorView),
    Parse(ParseErrorView),
    TypeMismatch { expected: Expected, found: ValueView },
}

impl View for RytmObjectError {
    type V = RytmObjectErrorView;

    open spec fn view(&self) -> RytmObjectErrorView {
        match self {
            RytmObjectError::Custom(s) => RytmObjectErrorView::Custom(s@),
            RytmObjectError::Query(e) => RytmObjectErrorView::Query(*e),
            RytmObjectError::Send(e) => RytmObjectErrorView::Send(*e),
            RytmObjectError::Get(e) => RytmObjectErrorView::Get(e@),
            RytmObjectError::Put(e) => RytmObjectErrorView::Put(e@),
            RytmObjectError::Enum(e) => RytmObjectErrorView::Enum(e@),
            RytmObjectError::Identifier(e) => RytmObjectErrorView::Identifier(e@),
            RytmObjectError::Parse(e) => RytmObjectErrorView::Parse(e@),
            RytmObjectError::TypeMismatch { expected, found } => RytmObjectErrorView::TypeMismatch {
                expected: *expected,
                found: found@,
            },
        }
    }
}

/// The sentence for a write that is not given a number.
pub open spec fn number_expected_text() -> Seq<char> {
    "Invalid parameter. Allowed parameters are only integers or floats."@
}

/// The number a write is given: the token at the position must be a numeric
/// parameter.
pub fn number_or_set_error(tokens: &Vec<ParsedValue>, pos: usize) -> (r: Result<Number, RytmObjectError>)
    ensures
        match r {
            Ok(n) => pos < tokens@.len() && parsed_views(tokens@)[pos as int] == ParsedView::Parameter(n),
            Err(e) => !(pos < tokens@.len() && parsed_views(tokens@)[pos as int] is Parameter) && e@
                == RytmObjectErrorView::Put(SetErrorView::InvalidFormat(number_expected_text())),
        },
{
    if pos < tokens.len() {
        match &tokens[pos] {
            ParsedValue::Parameter(n) => {
                return Ok(*n);
            },
            _ => {},
        }
    }
    Err(
        RytmObjectError::Put(
            SetError::InvalidFormat("Invalid parameter. Allowed parameters are only integers or floats.".to_owned()),
        ),
    )
}

} // verus!
