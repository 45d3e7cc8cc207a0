//! The tagged values a command is made of and a reply carries.

use vstd::prelude::*;
use crate::error::{Expected, RytmObjectError};
use crate::float::Float;
use crate::parse::types::Number;

verus! {

/// One token of a command, or one field of a reply: an integer, a real, or a
/// short case-sensitive text.
#[derive(Debug, Clone, PartialEq)]
pub enum RytmValue {
    Float(Float),
    Int(isize),
    Symbol(String),
}

/// What a [`RytmValue`] stands for.
pub enum ValueView {
    Float(Float),
    Int(isize),
    Symbol(Seq<char>),
}

impl View for RytmValue {
    type V = ValueView;

    open spec fn view(&self) -> ValueView {
        match self {
            RytmValue::Float(v) => ValueView::Float(*v),
            RytmValue::Int(v) => ValueView::Int(*v),
            RytmValue::Symbol(v) => ValueView::Symbol(v@),
        }
    }
}

/// What an optional value stands for.
pub open spec fn opt_value(v: Option<RytmValue>) -> Option<ValueView> {
    match v {
        Some(x) => Some(x@),
        None => None,
    }
}

impl ValueView {
    /// The value is an integer or a real.
    pub open spec fn is_number(self) -> bool {
        self is Int || self is Float
    }

    /// The number this value holds, if it holds one.
    pub open spec fn number(self) -> Option<Number> {
        match self {
            ValueView::Int(i) => Some(Number::Int(i)),
            ValueView::Float(x) => Some(Number::Float(x)),
            ValueView::Symbol(_) => None,
        }
    }
}

impl RytmValue {
    /// A symbol with the given text.
    pub fn symbol(text: &str) -> (r: RytmValue)
        ensures
            r@ == ValueView::Symbol(text@),
    {
        RytmValue::Symbol(text.to_owned())
    }

    /// The value a number stands for.
    pub fn from_number(n: Number) -> (r: RytmValue)
        ensures
            r@.number() == Some(n),
    {
        match n {
            Number::Float(v) => RytmValue::Float(v),
            Number::Int(v) => RytmValue::Int(v),
        }
    }

    /// A copy of the value.
    pub fn duplicate(&self) -> (r: RytmValue)
        ensures
            r@ == self@,
    {
        match self {
            RytmValue::Float(v) => RytmValue::Float(*v),
            RytmValue::Int(v) => RytmValue::Int(*v),
            RytmValue::Symbol(v) => RytmValue::Symbol(v.clone()),
        }
    }

    /// The number the value holds. A symbol holds none: that is reported as a
    /// mismatch that carries the symbol.
    pub fn as_number(&self) -> (r: Result<Number, RytmObjectError>)
        ensures
            match r {
                Ok(n) => self@.number() == Some(n),
                Err(e) => {
                    &&& self@ is Symbol
                    &&& e matches RytmObjectError::TypeMismatch { expected, found }
                    &&& expected == Expected::Number
                    &&& found@ == self@
                },
            },
    {
        match self {
            RytmValue::Int(i) => Ok(Number::Int(*i)),
            RytmValue::Float(x) => Ok(Number::Float(*x)),
            RytmValue::Symbol(_) => Err(
                RytmObjectError::TypeMismatch { expected: Expected::Number, found: self.duplicate() },
            ),
        }
    }

    /// The text of a symbol. A number has none: that is reported as a
    /// mismatch that carries the number.
    pub fn as_symbol(&self) -> (r: Result<&String, RytmObjectError>)
        ensures
            match r {
                Ok(s) => self@ == ValueView::Symbol(s@),
                Err(e) => {
                    &&& self@.is_number()
                    &&& e matches RytmObjectError::TypeMismatch { expected, found }
                    &&& expected == Expected::Symbol
                    &&& found@ == self@
                },
            },
    {
        match self {
            RytmValue::Symbol(s) => Ok(s),
            _ => Err(
                RytmObjectError::TypeMismatch { expected: Expected::Symbol, found: self.duplicate() },
            ),
        }
    }

    /// Succeeds on a number and fails on a symbol, with a mismatch that
    /// carries the symbol.
    pub fn expect_number(&self) -> (r: Result<(), RytmObjectError>)
        ensures
            match r {
                Ok(_) => self@.is_number(),
                Err(e) => {
                    &&& self@ is Symbol
                    &&& e matches RytmObjectError::TypeMismatch { expected, found }
                    &&& expected == Expected::Number
                    &&& found@ == self@
                },
            },
    {
        match self.as_number() {
            Ok(_) => Ok(()),
            Err(e) => Err(e),
        }
    }

    /// Reads the value as off or on: the integer 0 is off, the integer 1 is
    /// on, and every other value is a mismatch that carries the value.
    pub fn try_extract_bool(&self) -> (r: Result<bool, RytmObjectError>)
        ensures
            match r {
                Ok(b) => self@ == ValueView::Int(if b { 1isize } else { 0isize }),
                Err(e) => {
                    &&& self@ != ValueView::Int(0)
                    &&& self@ != ValueView::Int(1)
                    &&& e matches RytmObjectError::TypeMismatch { expected, found }
                    &&& expected == Expected::ZeroOrOne
                    &&& found@ == self@
                },
            },
    {
        match self {
            RytmValue::Int(0) => Ok(false),
            RytmValue::Int(1) => Ok(true),
            _ => Err(
                RytmObjectError::TypeMismatch { expected: Expected::ZeroOrOne, found: self.duplicate() },
            ),
        }
    }
}

/// The values of one command, in the order in which they were given.
#[derive(Debug)]
pub struct RytmValueList(pub Vec<RytmValue>);

impl View for RytmValueList {
    type V = Seq<ValueView>;

    open spec fn view(&self) -> Seq<ValueView> {
        Seq::new(self.0@.len(), |i: int| self.0@[i]@)
    }
}

impl RytmValueList {
    /// The number of values.
    pub fn len(&self) -> (r: usize)
        ensures
            r == self@.len(),
    {
        self.0.len()
    }

    /// The value at a position, if the list is that long.
    pub fn get(&self, i: usize) -> (r: Option<&RytmValue>)
        ensures
            match r {
                Some(v) => i < self@.len() && v@ == self@[i as int],
                None => i >= self@.len(),
            },
    {
        if i < self.0.len() {
            Some(&self.0[i])
        } else {
            None
        }
    }

    /// The first value, if there is one.
    pub fn first(&self) -> (r: Option<&RytmValue>)
        ensures
            match r {
                Some(v) => 0 < self@.len() && v@ == self@[0],
                None => self@.len() == 0,
            },
    {
        self.get(0)
    }
}

impl From<Vec<RytmValue>> for RytmValueList {
    fn from(v: Vec<RytmValue>) -> (r: Self) {
        RytmValueList(v)
    }
}

impl vstd::std_specs::convert::FromSpecImpl<Vec<RytmValue>> for RytmValueList {
    open spec fn obeys_from_spec() -> bool {
        true
    }

    open spec fn from_spec(v: Vec<RytmValue>) -> Self {
        RytmValueList(v)
    }
}

} // verus!
