//! The typed tokens a command is read into.

use vstd::prelude::*;
use crate::error::{ParseError, ParseErrorView, opt_text};
use crate::fields::object::ObjectType;
use crate::float::Float;
use crate::text::{has_no_colon, is_plain, lemma_plain_text, str_eq};
use crate::value::{RytmValue, ValueView};

verus! {

/// What a parameter-lock command does to the lock it names.
#[derive(Debug, Clone, Copy, PartialEq, Eq, Structural)]
pub enum PlockOperation {
    Get,
    Put,
    Clear,
}

impl PlockOperation {
    /// The word by which a command names this operation.
    pub open spec fn name(self) -> Seq<char> {
        match self {
            Self::Get => "plockget"@,
            Self::Put => "plockset"@,
            Self::Clear => "plockclear"@,
        }
    }

    /// Whether a word names one of these.
    pub open spec fn known(s: Seq<char>) -> bool {
        exists|f: Self| f.name() == s
    }

    /// The word by which a command names this operation.
    pub fn as_str(self) -> (r: &'static str)
        ensures
            r@ == self.name(),
    {
        match self {
            Self::Get => "plockget",
            Self::Put => "plockset",
            Self::Clear => "plockclear",
        }
    }

    /// The operation a word names, if it names one.
    pub open spec fn named(s: Seq<char>) -> Option<Self> {
        if Self::known(s) {
            Some(choose|f: Self| f.name() == s)
        } else {
            None
        }
    }

    /// Looks a word up: the operation that carries it, if there is one.
    pub fn from_name(s: &str) -> (r: Option<Self>)
        ensures
            r == Self::named(s@),
    {
        let r = if str_eq(s, "plockget") {
            Some(Self::Get)
        } else if str_eq(s, "plockset") {
            Some(Self::Put)
        } else if str_eq(s, "plockclear") {
            Some(Self::Clear)
        } else {
            None
        };
        proof {
            if let Some(f) = r {
                assert(f.name() == s@);
                Self::names_are_distinct(choose|g: Self| g.name() == s@, f);
            } else {
                assert forall|f: Self| f.name() != s@ by {}
            }
        }
        r
    }

    /// A operation's own word names it and nothing else.
    pub proof fn named_by_its_name(self)
        ensures
            Self::named(self.name()) == Some(self),
    {
        assert(Self::known(self.name()));
        Self::names_are_distinct(choose|g: Self| g.name() == self.name(), self);
    }

    /// No two of these share a word, so a word names at most one operation.
    pub proof fn names_are_distinct(a: Self, b: Self)
        requires
            a.name() == b.name(),
        ensures
            a == b,
    {
        reveal_strlit("plockget");
        reveal_strlit("plockset");
        reveal_strlit("plockclear");
        assert("plockget"@.len() == 8 && "plockget"@[5] == 'g');
        assert("plockset"@.len() == 8 && "plockset"@[5] == 's');
        assert("plockclear"@.len() == 10);
    }

    /// The word holds no colon, so it is never mistaken for an enum reference.
    pub proof fn name_is_plain(self)
        ensures
            is_plain(self.name()),
    {
        reveal_with_fuel(has_no_colon, 32);
        reveal_strlit("plockget");
        reveal_strlit("plockset");
        reveal_strlit("plockclear");
        assert(has_no_colon("plockget"@, 8));
        assert(has_no_colon("plockset"@, 8));
        assert(has_no_colon("plockclear"@, 10));
        lemma_plain_text(self.name());
    }

    /// The advice given with a word that names no operation.
    pub open spec fn advice() -> Seq<char> {
        "Try using plockget, plockset or plockclear."@
    }

    /// Reads the operation from its word. Any other word is reported back,
    /// with advice.
    pub fn from_str(s: &str) -> (r: Result<Self, ParseError>)
        ensures
            match r {
                Ok(op) => Self::named(s@) == Some(op),
                Err(e) => Self::named(s@) is None && e@ == ParseErrorView::InvalidPlockOperation(
                    s@,
                    Self::advice(),
                ),
            },
    {
        match Self::from_name(s) {
            Some(op) => Ok(op),
            None => Err(
                ParseError::InvalidPlockOperation(
                    s.to_owned(),
                    "Try using plockget, plockset or plockclear.".to_owned(),
                ),
            ),
        }
    }
}

/// An integer or a real, as a field's parameter.
#[derive(Debug, Clone, Copy, PartialEq)]
pub enum Number {
    Int(isize),
    Float(Float),
}

/// An integer read as unsigned the way the machine does it: a negative
/// integer stands for the large number with the same bits.
pub open spec fn wrapped(i: int) -> int {
    if i >= 0 {
        i
    } else {
        i + usize::MAX + 1
    }
}

impl Number {
    /// The number as an integer: an integer as it is, a real cut down toward
    /// zero.
    pub open spec fn int_value(self) -> int {
        match self {
            Number::Int(i) => i as int,
            Number::Float(x) => x.truncated(),
        }
    }

    /// The number as a real: a real as it is, an integer widened.
    pub open spec fn float_value(self) -> Float {
        match self {
            Number::Int(i) => Float::of_int(i as int),
            Number::Float(x) => x,
        }
    }

    /// The number is the integer 0 or the integer 1.
    pub open spec fn is_zero_or_one(self) -> bool {
        self == Number::Int(0) || self == Number::Int(1)
    }

    /// Reads the number as off or on: the integer 0 is off and the integer 1
    /// is on. Any other number, a real among them, is refused with an error
    /// that carries the number and the name of the field it was meant for.
    pub fn get_bool_from_0_or_1(&self, identifier: &str) -> (r: Result<bool, ParseError>)
        ensures
            match r {
                Ok(b) => *self == Number::Int(if b { 1isize } else { 0isize }),
                Err(e) => !self.is_zero_or_one() && e@ == (ParseErrorView::ExpectedZeroOrOne {
                    found: *self,
                    identifier: identifier@,
                }),
            },
    {
        match self {
            Number::Int(0) => Ok(false),
            Number::Int(1) => Ok(true),
            _ => Err(
                ParseError::ExpectedZeroOrOne { found: *self, identifier: identifier.to_owned() },
            ),
        }
    }

    /// The number as an integer.
    pub fn get_int(&self) -> (r: isize)
        ensures
            r == self.int_value(),
    {
        match self {
            Number::Int(i) => *i,
            Number::Float(x) => x.truncate(),
        }
    }

    /// The number as a real.
    pub fn get_float(&self) -> (r: Float)
        ensures
            r == self.float_value(),
    {
        match self {
            Number::Int(i) => Float::from_int(*i),
            Number::Float(x) => *x,
        }
    }

    /// An integer that a double can hold, which every integer up to `2^53`
    /// in magnitude is, comes back unchanged when it is read as a real and
    /// the real is read as an integer.
    pub proof fn integer_survives_widening(i: isize)
        requires
            -0x20_0000_0000_0000 <= i <= 0x20_0000_0000_0000,
        ensures
            Number::Float(Number::Int(i).float_value()).int_value() == i,
    {
        crate::float::widening_is_exact(i as int);
    }

    /// The number as an unsigned integer, by way of [`Number::get_int`]: a
    /// negative integer comes out as the large number with the same bits.
    pub fn get_unsigned(&self) -> (r: usize)
        ensures
            r == wrapped(self.int_value()),
    {
        wrap(self.get_int())
    }
}

/// An integer read as unsigned.
pub fn wrap(i: isize) -> (r: usize)
    ensures
        r == wrapped(i as int),
{
    if i >= 0 {
        i as usize
    } else {
        ((i as i128) + (usize::MAX as i128) + 1) as usize
    }
}

/// Which object a command addresses. An index, where there is one, lies
/// within the range of the object's type.
#[derive(Debug, Clone, Copy, PartialEq, Eq, Structural)]
pub enum ObjectTypeSelector {
    Pattern(usize),
    PatternWorkBuffer,
    Kit(usize),
    KitWorkBuffer,
    Sound(usize),
    SoundWorkBuffer(usize),
    Global(usize),
    GlobalWorkBuffer,
    Settings,
}

impl ObjectTypeSelector {
    /// The type of the object.
    pub open spec fn object_type(self) -> ObjectType {
        match self {
            Self::Pattern(_) => ObjectType::Pattern,
            Self::PatternWorkBuffer => ObjectType::PatternWorkBuffer,
            Self::Kit(_) => ObjectType::Kit,
            Self::KitWorkBuffer => ObjectType::KitWorkBuffer,
            Self::Sound(_) => ObjectType::Sound,
            Self::SoundWorkBuffer(_) => ObjectType::SoundWorkBuffer,
            Self::Global(_) => ObjectType::Global,
            Self::GlobalWorkBuffer => ObjectType::GlobalWorkBuffer,
            Self::Settings => ObjectType::Settings,
        }
    }

    /// The index of the object, if its type takes one.
    pub open spec fn index(self) -> Option<usize> {
        match self {
            Self::Pattern(i) | Self::Kit(i) | Self::Sound(i) | Self::SoundWorkBuffer(i) | Self::Global(i) => Some(i),
            _ => None,
        }
    }

    /// The selector for an object of the given type; the index is left out
    /// where the type takes none.
    pub open spec fn of(t: ObjectType, i: usize) -> Self {
        match t {
            ObjectType::Pattern => Self::Pattern(i),
            ObjectType::PatternWorkBuffer => Self::PatternWorkBuffer,
            ObjectType::Kit => Self::Kit(i),
            ObjectType::KitWorkBuffer => Self::KitWorkBuffer,
            ObjectType::Sound => Self::Sound(i),
            ObjectType::SoundWorkBuffer => Self::SoundWorkBuffer(i),
            ObjectType::Global => Self::Global(i),
            ObjectType::GlobalWorkBuffer => Self::GlobalWorkBuffer,
            ObjectType::Settings => Self::Settings,
        }
    }

    /// The index, where there is one, lies within the range of the type.
    pub open spec fn valid(self) -> bool {
        match (self.object_type().index_range(), self.index()) {
            (Some((min, max)), Some(i)) => min <= i <= max,
            (None, None) => true,
            _ => false,
        }
    }

    /// What a selector symbol and an optional index resolve to.
    ///
    /// The symbol must name an object type. A type that takes an index must
    /// be given an integer within the type's range; a type that takes none
    /// ignores what it is given.
    pub open spec fn resolved(selector: ValueView, index: Option<ValueView>) -> Result<Self, ParseErrorView> {
        match selector {
            ValueView::Symbol(s) => match ObjectType::named(s) {
                None => Err(ParseErrorView::InvalidSelector),
                Some(t) => match t.index_range() {
                    None => Ok(Self::of(t, 0)),
                    Some((min, max)) => match index {
                        None => Err(ParseErrorView::InvalidQueryFormat),
                        Some(ValueView::Int(i)) => if min <= i <= max {
                            Ok(Self::of(t, i as usize))
                        } else {
                            Err(ParseErrorView::InvalidIndexRange { min: min as isize, max: max as isize, value: i })
                        },
                        Some(_) => Err(ParseErrorView::InvalidIndexType),
                    },
                },
            },
            _ => Err(ParseErrorView::InvalidSelector),
        }
    }

    /// Whether objects of this selector's type are selected by an index.
    pub fn is_indexable(&self) -> (r: bool)
        ensures
            r == self.object_type().index_range().is_some(),
    {
        match self {
            Self::Pattern(_) | Self::Kit(_) | Self::Sound(_) | Self::SoundWorkBuffer(_) | Self::Global(_) => true,
            _ => false,
        }
    }

    /// Whether a value names an object type that takes an index.
    pub open spec fn names_indexable(v: ValueView) -> bool {
        match v {
            ValueView::Symbol(s) => match ObjectType::named(s) {
                Some(t) => t.index_range().is_some(),
                None => false,
            },
            _ => false,
        }
    }

    /// Whether a value names an object type that takes an index.
    pub fn is_object_type_indexable(object_type: &RytmValue) -> (r: bool)
        ensures
            r == Self::names_indexable(object_type@),
    {
        match object_type {
            RytmValue::Symbol(s) => match ObjectType::from_name(s.as_str()) {
                Some(t) => t.index_range().is_some(),
                None => false,
            },
            _ => false,
        }
    }

    /// Resolves a selector symbol and an optional index to the object they
    /// address.
    pub fn resolve(selector: &RytmValue, index: Option<&RytmValue>) -> (r: Result<Self, ParseError>)
        ensures
            match r {
                Ok(sel) => Self::resolved(selector@, value_view(index)) == Ok::<Self, ParseErrorView>(sel) && sel.valid(),
                Err(e) => Self::resolved(selector@, value_view(index)) == Err::<Self, ParseErrorView>(e@),
            },
    {
        let name = match selector {
            RytmValue::Symbol(s) => s,
            _ => {
                return Err(ParseError::InvalidSelector);
            },
        };
        let t = match ObjectType::from_name(name.as_str()) {
            Some(t) => t,
            None => {
                return Err(ParseError::InvalidSelector);
            },
        };
        match t.index_range() {
            None => Ok(Self::make(t, 0)),
            Some((min, max)) => parse_indexed(index, t, min, max),
        }
    }

    /// The selector for an object of the given type.
    pub fn make(t: ObjectType, i: usize) -> (r: Self)
        ensures
            r == Self::of(t, i),
    {
        match t {
            ObjectType::Pattern => Self::Pattern(i),
            ObjectType::PatternWorkBuffer => Self::PatternWorkBuffer,
            ObjectType::Kit => Self::Kit(i),
            ObjectType::KitWorkBuffer => Self::KitWorkBuffer,
            ObjectType::Sound => Self::Sound(i),
            ObjectType::SoundWorkBuffer => Self::SoundWorkBuffer(i),
            ObjectType::Global => Self::Global(i),
            ObjectType::GlobalWorkBuffer => Self::GlobalWorkBuffer,
            ObjectType::Settings => Self::Settings,
        }
    }

    /// What resolution gives is valid: an index lies within the range of its
    /// type.
    pub proof fn resolved_is_valid(selector: ValueView, index: Option<ValueView>)
        ensures
            Self::resolved(selector, index) matches Ok(s) ==> s.valid(),
    {
    }

    /// Resolution accepts exactly the indices of a type's range: every index
    /// from the least to the greatest resolves to the object with that index,
    /// and every other integer, the one below the least and the one above the
    /// greatest among them, is refused with the exact bounds and the integer.
    pub proof fn index_range_is_exact(t: ObjectType, min: usize, max: usize, i: isize)
        requires
            t.index_range() == Some((min, max)),
        ensures
            min <= i <= max ==> Self::resolved(ValueView::Symbol(t.name()), Some(ValueView::Int(i))) == Ok::<
                Self,
                ParseErrorView,
            >(Self::of(t, i as usize)),
            !(min <= i <= max) ==> Self::resolved(ValueView::Symbol(t.name()), Some(ValueView::Int(i))) == Err::<
                Self,
                ParseErrorView,
            >(ParseErrorView::InvalidIndexRange { min: min as isize, max: max as isize, value: i }),
    {
        t.named_by_its_name();
    }
}

/// What an optional value stands for.
pub open spec fn value_view(v: Option<&RytmValue>) -> Option<ValueView> {
    match v {
        Some(x) => Some(x@),
        None => None,
    }
}

fn parse_indexed(index: Option<&RytmValue>, t: ObjectType, min: usize, max: usize) -> (r: Result<
    ObjectTypeSelector,
    ParseError,
>)
    requires
        t.index_range() == Some((min, max)),
    ensures
        match r {
            Ok(sel) => value_view(index) matches Some(ValueView::Int(i)) && min <= i <= max && sel
                == ObjectTypeSelector::of(t, i as usize) && sel.valid(),
            Err(e) => e@ == (match value_view(index) {
                None => ParseErrorView::InvalidQueryFormat,
                Some(ValueView::Int(i)) => ParseErrorView::InvalidIndexRange {
                    min: min as isize,
                    max: max as isize,
                    value: i,
                },
                Some(_) => ParseErrorView::InvalidIndexType,
            }) && !(value_view(index) matches Some(ValueView::Int(i)) && min <= i <= max),
        },
{
    match index {
        None => Err(ParseError::InvalidQueryFormat),
        Some(RytmValue::Int(i)) => {
            let i: isize = *i;
            if i >= 0 && (i as usize) >= min && (i as usize) <= max {
                Ok(ObjectTypeSelector::make(t, i as usize))
            } else {
                Err(ParseError::InvalidIndexRange { min: min as isize, max: max as isize, value: i })
            }
        },
        Some(_) => Err(ParseError::InvalidIndexType),
    }
}

/// One step on the path a command describes, or a parameter at its end.
#[derive(Debug, Clone, PartialEq)]
pub enum ParsedValue {
    /// The object the command addresses.
    ObjectType(ObjectTypeSelector),
    /// The name of an action field.
    Identifier(String),
    /// A numeric parameter.
    Parameter(Number),
    /// A text parameter.
    ParameterString(String),
    /// The name of an enum field and, if one was given, a variant.
    Enum(String, Option<String>),
    /// A track of a pattern.
    TrackIndex(usize),
    /// A trig of a track.
    TrigIndex(usize),
    /// A sound of a kit.
    SoundIndex(usize),
    /// The name of a kit element.
    Element(String),
    /// The index of a kit element.
    ElementIndex(usize),
    /// What to do with a parameter lock.
    PlockOperation(PlockOperation),
}

/// What a [`ParsedValue`] stands for.
pub enum ParsedView {
    ObjectType(ObjectTypeSelector),
    Identifier(Seq<char>),
    Parameter(Number),
    ParameterString(Seq<char>),
    Enum(Seq<char>, Option<Seq<char>>),
    TrackIndex(usize),
    TrigIndex(usize),
    SoundIndex(usize),
    Element(Seq<char>),
    ElementIndex(usize),
    PlockOperation(PlockOperation),
}

impl View for ParsedValue {
    type V = ParsedView;

    open spec fn view(&self) -> ParsedView {
        match self {
            ParsedValue::ObjectType(s) => ParsedView::ObjectType(*s),
            ParsedValue::Identifier(s) => ParsedView::Identifier(s@),
            ParsedValue::Parameter(n) => ParsedView::Parameter(*n),
            ParsedValue::ParameterString(s) => ParsedView::ParameterString(s@),
            ParsedValue::Enum(s, v) => ParsedView::Enum(s@, opt_text(*v)),
            ParsedValue::TrackIndex(i) => ParsedView::TrackIndex(*i),
            ParsedValue::TrigIndex(i) => ParsedView::TrigIndex(*i),
            ParsedValue::SoundIndex(i) => ParsedView::SoundIndex(*i),
            ParsedValue::Element(s) => ParsedView::Element(s@),
            ParsedValue::ElementIndex(i) => ParsedView::ElementIndex(*i),
            ParsedValue::PlockOperation(op) => ParsedView::PlockOperation(*op),
        }
    }
}

/// What a list of tokens stands for.
pub open spec fn parsed_views(tokens: Seq<ParsedValue>) -> Seq<ParsedView> {
    Seq::new(tokens.len(), |i: int| tokens[i]@)
}

/// The result of reading something from a command.
pub type ParseResult<T> = Result<T, ParseError>;

} // verus!
