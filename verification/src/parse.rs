//! Reading a command: from a list of values to a list of typed tokens.
//!
//! A command opens with an object type and, for the types that take one, an
//! index. What may follow depends on the type: a pattern may go on to a
//! track, a trig and a parameter-lock word; a kit to one of its elements; and
//! every path ends in the name of a field, either an identifier with up to
//! two numbers after it or an enum written as `name:` or `name:variant`.
//! Which names are known depends on where the path has led: each kind of
//! object has its own, and after a parameter-lock word only the fields that
//! can be locked are.
//! The values are read once, left to right, looking at most one value ahead.
//! A command is read whole or not at all: values left over after a complete
//! path are an error.

use vstd::prelude::*;
use vstd::string::StringExecFns;
use crate::api::plock;
use crate::api::plock::{lockable_action, lockable_enum};
use crate::error::{ParseError, ParseErrorView};
use crate::fields::global::{GlobalAction, GlobalEnum};
use crate::fields::kit::{KitAction, KitElement, KitEnum};
use crate::fields::pattern::{PatternAction, PatternEnum, TrackAction, TrackEnum, TrigAction, TrigEnum};
use crate::fields::settings::{SettingsAction, SettingsEnum};
use crate::fields::sound::{SoundAction, SoundEnum};
use crate::parse::types::{
    Number,
    ObjectTypeSelector,
    ParseResult,
    ParsedValue,
    ParsedView,
    PlockOperation,
    parsed_views,
    wrap,
    wrapped,
};
use crate::text::{decimal, is_plain, isize_to_string, lowercase_of, str_eq, to_lowercase};
use crate::types::CommandType;
use crate::value::{RytmValue, RytmValueList, ValueView};

pub mod types;

verus! {

/// Where a path has led when it comes to name a field. Each context has its
/// own closed set of names.
#[derive(Debug, Clone, Copy, PartialEq, Eq, Structural)]
pub enum Context {
    /// A pattern, one of its tracks or one of their trigs.
    Pattern,
    /// A kit or an entry of one of its elements.
    Kit,
    /// A sound, be it of the pool, of the working copy or of a kit.
    Sound,
    /// A global slot.
    Global,
    /// The settings.
    Settings,
    /// A parameter lock of a trig.
    Lock,
}

/// Whether a word is the name of an identifier in a context: of an action
/// field of the context's objects. For a pattern these are the fields of
/// patterns, tracks and trigs; for a kit its own fields and its numeric
/// elements; for a lock the fields that can be locked.
pub open spec fn is_identifier_name(context: Context, s: Seq<char>) -> bool {
    match context {
        Context::Pattern => PatternAction::known(s) || TrackAction::known(s) || TrigAction::known(s),
        Context::Kit => KitAction::known(s) || (KitElement::named(s) matches Some(e) && e.takes().is_some()),
        Context::Sound => SoundAction::known(s),
        Context::Global => GlobalAction::known(s),
        Context::Settings => SettingsAction::known(s),
        Context::Lock => lockable_action(s) is Some,
    }
}

/// Whether a word is the name of an enum in a context: of an enum field of
/// the context's objects. For a pattern these are the enums of patterns,
/// tracks and trigs; for a kit its own enums and the elements whose entries
/// hold variants; for a lock the enums that can be locked.
pub open spec fn is_enum_name(context: Context, s: Seq<char>) -> bool {
    match context {
        Context::Pattern => PatternEnum::known(s) || TrackEnum::known(s) || TrigEnum::known(s),
        Context::Kit => KitEnum::known(s) || (KitElement::named(s) matches Some(e) && e.holds_variant()),
        Context::Sound => SoundEnum::known(s),
        Context::Global => GlobalEnum::known(s),
        Context::Settings => SettingsEnum::known(s),
        Context::Lock => lockable_enum(s) is Some,
    }
}

/// Whether a position of a text holds the first colon of the text.
pub open spec fn is_first_colon(s: Seq<char>, k: int) -> bool {
    &&& 0 <= k < s.len()
    &&& s[k] == ':'
    &&& forall|j: int| 0 <= j < k ==> s[j] != ':'
}

/// The position of the first colon of a text, if it has one.
pub open spec fn first_colon(s: Seq<char>) -> Option<int> {
    if exists|k: int| is_first_colon(s, k) {
        Some(choose|k: int| is_first_colon(s, k))
    } else {
        None
    }
}

/// The part of a symbol that names an enum: what stands before the first
/// colon, or the whole symbol if it has no colon.
pub open spec fn enum_name_of(s: Seq<char>) -> Seq<char> {
    match first_colon(s) {
        Some(k) => s.subrange(0, k),
        None => s,
    }
}

/// Whether a symbol refers to an enum that is known in a context.
pub open spec fn is_enum_symbol(context: Context, s: Seq<char>) -> bool {
    is_enum_name(context, enum_name_of(s))
}

/// How a symbol reads as an enum reference.
#[derive(Debug)]
pub enum EnumParseResult {
    /// A name and a variant: `name:variant`.
    Complete(String, Option<String>),
    /// A name and no variant: `name:`.
    RequiresValue(String),
    /// No colon, and so not an enum reference. Carries the symbol.
    Invalid(String),
}

/// What an [`EnumParseResult`] stands for.
pub enum EnumParseView {
    Complete(Seq<char>, Seq<char>),
    RequiresValue(Seq<char>),
    Invalid(Seq<char>),
}

impl EnumParseResult {
    /// What the result stands for.
    pub open spec fn model(self) -> EnumParseView {
        match self {
            EnumParseResult::Complete(name, Some(value)) => EnumParseView::Complete(name@, value@),
            EnumParseResult::Complete(name, None) => EnumParseView::RequiresValue(name@),
            EnumParseResult::RequiresValue(name) => EnumParseView::RequiresValue(name@),
            EnumParseResult::Invalid(s) => EnumParseView::Invalid(s@),
        }
    }
}

/// A symbol split at its first colon: the name before it and the variant
/// after it, where the variant may hold further colons.
pub open spec fn split_enum(s: Seq<char>) -> EnumParseView {
    match first_colon(s) {
        None => EnumParseView::Invalid(s),
        Some(k) => if k + 1 == s.len() {
            EnumParseView::RequiresValue(s.subrange(0, k))
        } else {
            EnumParseView::Complete(s.subrange(0, k), s.subrange(k + 1, s.len() as int))
        },
    }
}

/// The sentence for a symbol that is neither an identifier nor an enum.
pub open spec fn unexpected_symbol_text(s: Seq<char>) -> Seq<char> {
    "Unexpected symbol '"@ + s + "'. Expected an identifier or enum."@
}

/// The sentence for a symbol that names an enum but has no colon.
pub open spec fn invalid_enum_text(s: Seq<char>) -> Seq<char> {
    "Invalid enum format: '"@ + s
        + "'. Enums may only have the format of <enum-type>: or <enum-type>:<variant>"@
}

/// The sentence for a kit element without an index.
pub open spec fn element_index_text(element: Seq<char>) -> Seq<char> {
    "Expected element index after '"@ + element
        + "': Kit elements must be followed by an integer index."@
}

/// The sentence for a sound's name that is not a symbol.
pub open spec fn name_parameter_text(symbol: Seq<char>) -> Seq<char> {
    "Invalid parameter '"@ + symbol
        + "': name must be a symbol with maximum 15 characters long and use only ascii characters."@
}

/// The advice for a parameter-lock word with nothing after it.
pub open spec fn plock_needs_field_text() -> Seq<char> {
    "This operation needs to be followed by an identifier or an enum."@
}

/// The sentence for an index outside its range.
pub open spec fn out_of_range_text(index: int, min: int, max: int, name: Seq<char>) -> Seq<char> {
    range_sentence(index, min, max, name, lowercase_of(name))
}

/// The value at a position, if there is one.
pub open spec fn peek(values: Seq<ValueView>, pos: int) -> Option<ValueView> {
    if 0 <= pos < values.len() {
        Some(values[pos])
    } else {
        None
    }
}

/// What the rest of a command reads as: the tokens, and the position after
/// the last value that was read.
pub type Tail = Result<(Seq<ParsedView>, int), ParseErrorView>;

/// Up to two numbers, read as the parameters of an identifier.
pub open spec fn parameters(values: Seq<ValueView>, pos: int) -> (Seq<ParsedView>, int) {
    match peek(values, pos) {
        Some(first) => match first.number() {
            Some(a) => match peek(values, pos + 1) {
                Some(second) => match second.number() {
                    Some(b) => (seq![ParsedView::Parameter(a), ParsedView::Parameter(b)], pos + 2),
                    None => (seq![ParsedView::Parameter(a)], pos + 1),
                },
                None => (seq![ParsedView::Parameter(a)], pos + 1),
            },
            None => (seq![], pos),
        },
        None => (seq![], pos),
    }
}

/// The end of every path: a symbol that is an identifier of the context,
/// followed by its parameters, or a symbol that refers to an enum of the
/// context. A symbol that is neither is refused, whatever it may name
/// elsewhere.
///
/// An enum reference without a variant asks for the current variant and so
/// is only accepted in a command that reads.
pub open spec fn identifier_or_enum(
    context: Context,
    values: Seq<ValueView>,
    pos: int,
    command_type: CommandType,
) -> Tail {
    match peek(values, pos) {
        Some(ValueView::Symbol(s)) => if is_identifier_name(context, s) {
            Ok((seq![ParsedView::Identifier(s)] + parameters(values, pos + 1).0, parameters(values, pos + 1).1))
        } else if !is_enum_symbol(context, s) {
            Err(ParseErrorView::InvalidToken(unexpected_symbol_text(s)))
        } else {
            match split_enum(s) {
                EnumParseView::Complete(name, value) => Ok((seq![ParsedView::Enum(name, Some(value))], pos + 1)),
                EnumParseView::RequiresValue(name) => if command_type == CommandType::Put {
                    Err(ParseErrorView::EnumRequiresValue(name))
                } else {
                    Ok((seq![ParsedView::Enum(name, None)], pos + 1))
                },
                EnumParseView::Invalid(t) => Err(ParseErrorView::InvalidFormat(invalid_enum_text(t))),
            }
        },
        _ => Err(ParseErrorView::UnexpectedEnd),
    }
}

/// An optional index within a range: an integer at the position is read as
/// the index and must lie within the range; anything else is left alone.
pub open spec fn optional_index(values: Seq<ValueView>, pos: int, min: int, max: int, name: Seq<char>) -> Result<
    Option<usize>,
    ParseErrorView,
> {
    match peek(values, pos) {
        Some(ValueView::Int(i)) => if min <= i <= max {
            Ok(Some(i as usize))
        } else {
            Err(ParseErrorView::IndexOutOfRange(out_of_range_text(i as int, min, max, name)))
        },
        _ => Ok(None),
    }
}

/// What follows a pattern: an optional track index, an optional trig index,
/// an optional parameter-lock word, and then a field.
pub open spec fn pattern_tail(values: Seq<ValueView>, pos: int, command_type: CommandType) -> Tail {
    match optional_index(values, pos, 0, 12, "Track index"@) {
        Err(e) => Err(e),
        Ok(track) => {
            let (track_tokens, after_track) = match track {
                Some(t) => (seq![ParsedView::TrackIndex(t)], pos + 1),
                None => (seq![], pos),
            };
            match optional_index(values, after_track, 0, 63, "Trig index"@) {
                Err(e) => Err(e),
                Ok(trig) => {
                    let (trig_tokens, after_trig) = match trig {
                        Some(t) => (seq![ParsedView::TrigIndex(t)], after_track + 1),
                        None => (seq![], after_track),
                    };
                    match plock_and_field(values, after_trig, command_type) {
                        Err(e) => Err(e),
                        Ok((rest, end)) => Ok((track_tokens + trig_tokens + rest, end)),
                    }
                },
            }
        },
    }
}

/// The parameter-lock word at a position, if one stands there.
pub open spec fn plock_word(values: Seq<ValueView>, pos: int) -> Option<PlockOperation> {
    match peek(values, pos) {
        Some(ValueView::Symbol(s)) => PlockOperation::named(s),
        _ => None,
    }
}

/// An optional parameter-lock word and the field after it. The word must
/// not be the last value, and the field after it must be one that can be
/// locked; without the word, the field is one of a pattern, a track or a
/// trig.
pub open spec fn plock_and_field(values: Seq<ValueView>, pos: int, command_type: CommandType) -> Tail {
    match plock_word(values, pos) {
        Some(op) => if pos + 1 < values.len() {
            match identifier_or_enum(Context::Lock, values, pos + 1, command_type) {
                Err(e) => Err(e),
                Ok((rest, end)) => Ok((seq![ParsedView::PlockOperation(op)] + rest, end)),
            }
        } else {
            Err(ParseErrorView::InvalidPlockOperation(op.name(), plock_needs_field_text()))
        },
        None => identifier_or_enum(Context::Pattern, values, pos, command_type),
    }
}

/// The kit element named at a position, if one is.
pub open spec fn element_word(values: Seq<ValueView>, pos: int) -> Option<KitElement> {
    match peek(values, pos) {
        Some(ValueView::Symbol(s)) => KitElement::named(s),
        _ => None,
    }
}

/// What follows a kit: either an element with its index, after which a field
/// may follow, or a field of the kit itself. The index of a sound must lie
/// within the kit's twelve sounds; the index of another element is taken as
/// it is, read as unsigned.
pub open spec fn kit_tail(values: Seq<ValueView>, pos: int, command_type: CommandType) -> Tail {
    match element_word(values, pos) {
        None => identifier_or_enum(Context::Kit, values, pos, command_type),
        Some(element) => match peek(values, pos + 1) {
            Some(ValueView::Int(i)) => {
                if element == KitElement::Sound && !(0 <= i <= 11) {
                    Err(ParseErrorView::IndexOutOfRange(out_of_range_text(i as int, 0, 11, "Kit sound index"@)))
                } else {
                    let head = seq![
                        ParsedView::Element(element.name()),
                        if element == KitElement::Sound {
                            ParsedView::SoundIndex(i as usize)
                        } else {
                            ParsedView::ElementIndex(wrapped(i as int) as usize)
                        },
                    ];
                    if pos + 2 < values.len() {
                        let rest = if element == KitElement::Sound {
                            sound_tail(values, pos + 2, command_type)
                        } else {
                            identifier_or_enum(Context::Kit, values, pos + 2, command_type)
                        };
                        match rest {
                            Err(e) => Err(e),
                            Ok((tokens, end)) => Ok((head + tokens, end)),
                        }
                    } else {
                        Ok((head, pos + 2))
                    }
                }
            },
            _ => Err(ParseErrorView::ExpectedKitElementIndex(element_index_text(element.name()))),
        },
    }
}

/// What follows a sound: a field. Writing the sound's name is the one
/// command that takes a symbol as its parameter.
pub open spec fn sound_tail(values: Seq<ValueView>, pos: int, command_type: CommandType) -> Tail {
    match peek(values, pos) {
        Some(ValueView::Symbol(s)) => if s == "name"@ && command_type == CommandType::Put {
            match peek(values, pos + 1) {
                Some(ValueView::Symbol(text)) => Ok(
                    (seq![ParsedView::Identifier(s), ParsedView::ParameterString(text)], pos + 2),
                ),
                _ => Err(ParseErrorView::InvalidFormat(name_parameter_text(s))),
            }
        } else {
            identifier_or_enum(Context::Sound, values, pos, command_type)
        },
        _ => Err(ParseErrorView::UnexpectedEnd),
    }
}

/// What follows the object of a command, by the type of the object.
pub open spec fn remainder(
    values: Seq<ValueView>,
    pos: int,
    command_type: CommandType,
    selector: ObjectTypeSelector,
) -> Tail {
    match selector {
        ObjectTypeSelector::Pattern(_) | ObjectTypeSelector::PatternWorkBuffer => pattern_tail(
            values,
            pos,
            command_type,
        ),
        ObjectTypeSelector::Kit(_) | ObjectTypeSelector::KitWorkBuffer => kit_tail(values, pos, command_type),
        ObjectTypeSelector::Sound(_) | ObjectTypeSelector::SoundWorkBuffer(_) => sound_tail(
            values,
            pos,
            command_type,
        ),
        ObjectTypeSelector::Global(_) | ObjectTypeSelector::GlobalWorkBuffer => identifier_or_enum(
            Context::Global,
            values,
            pos,
            command_type,
        ),
        ObjectTypeSelector::Settings => identifier_or_enum(Context::Settings, values, pos, command_type),
    }
}

/// What a list of values reads as under an operation: the tokens of the
/// command, or the error that the first offending value causes.
///
/// The first token is the object; the rest is the path from it to a field.
pub open spec fn parsed(values: Seq<ValueView>, command_type: CommandType) -> Result<
    Seq<ParsedView>,
    ParseErrorView,
> {
    if values.len() == 0 {
        Err(ParseErrorView::QuerySelectorMissing)
    } else if ObjectTypeSelector::names_indexable(values[0]) && !(peek(values, 1) matches Some(
        ValueView::Int(_),
    )) {
        Err(ParseErrorView::QuerySelectorIndexMissingOrInvalid)
    } else {
        let indexed = ObjectTypeSelector::names_indexable(values[0]);
        let index = if indexed {
            Some(values[1])
        } else {
            None
        };
        let pos: int = if indexed {
            2
        } else {
            1
        };
        match ObjectTypeSelector::resolved(values[0], index) {
            Err(e) => Err(e),
            Ok(selector) => match remainder(values, pos, command_type, selector) {
                Err(e) => Err(e),
                Ok((tail, end)) => if end == values.len() {
                    Ok(seq![ParsedView::ObjectType(selector)] + tail)
                } else {
                    Err(ParseErrorView::UnexpectedEnd)
                },
            },
        }
    }
}

/// Three texts in a row.
pub fn join3(a: &str, b: &str, c: &str) -> (r: String)
    ensures
        r@ == a@ + b@ + c@,
{
    let mut r = String::from_str(a);
    r.append(b);
    r.append(c);
    r
}

/// Whether a word is the name of an identifier in a context.
pub fn is_identifier(context: Context, s: &str) -> (r: bool)
    ensures
        r == is_identifier_name(context, s@),
{
    match context {
        Context::Pattern => PatternAction::from_name(s).is_some() || TrackAction::from_name(s).is_some()
            || TrigAction::from_name(s).is_some(),
        Context::Kit => KitAction::from_name(s).is_some() || (match KitElement::from_name(s) {
            Some(e) => e.takes().is_some(),
            None => false,
        }),
        Context::Sound => SoundAction::from_name(s).is_some(),
        Context::Global => GlobalAction::from_name(s).is_some(),
        Context::Settings => SettingsAction::from_name(s).is_some(),
        Context::Lock => plock::lookup_action(s).is_some(),
    }
}

/// Whether a word is the name of an enum in a context.
pub fn is_enum_word(context: Context, name: &str) -> (r: bool)
    ensures
        r == is_enum_name(context, name@),
{
    match context {
        Context::Pattern => PatternEnum::from_name(name).is_some() || TrackEnum::from_name(name).is_some()
            || TrigEnum::from_name(name).is_some(),
        Context::Kit => KitEnum::from_name(name).is_some() || (match KitElement::from_name(name) {
            Some(e) => e.holds_variant(),
            None => false,
        }),
        Context::Sound => SoundEnum::from_name(name).is_some(),
        Context::Global => GlobalEnum::from_name(name).is_some(),
        Context::Settings => SettingsEnum::from_name(name).is_some(),
        Context::Lock => plock::lookup_enum(name).is_some(),
    }
}

/// The position of the first colon of a text, if it has one.
pub fn find_colon(s: &str) -> (r: Option<usize>)
    ensures
        match r {
            Some(k) => first_colon(s@) == Some(k as int) && is_first_colon(s@, k as int),
            None => first_colon(s@) is None,
        },
{
    let n = s.unicode_len();
    let mut i: usize = 0;
    while i < n
        invariant
            i <= n,
            n == s@.len(),
            forall|j: int| 0 <= j < i ==> s@[j] != ':',
        decreases n - i,
    {
        if s.get_char(i) == ':' {
            proof {
                assert(is_first_colon(s@, i as int));
                let k = choose|k: int| is_first_colon(s@, k);
                assert(k == i) by {
                    if k < i {
                        assert(s@[k] != ':');
                    } else if i < k {
                        assert(s@[i as int] != ':');
                    }
                }
            }
            return Some(i);
        }
        i = i + 1;
    }
    proof {
        assert forall|k: int| !is_first_colon(s@, k) by {
            if 0 <= k < s@.len() {
                assert(s@[k] != ':');
            }
        }
    }
    None
}

/// Whether a symbol refers to an enum that is known in a context: what
/// stands before its first colon, or the whole of it if it has none, is the
/// name of an enum there.
pub fn is_enum(context: Context, s: &str) -> (r: bool)
    ensures
        r == is_enum_symbol(context, s@),
{
    let name: &str = match find_colon(s) {
        Some(k) => s.substring_char(0, k),
        None => s,
    };
    is_enum_word(context, name)
}

/// Whether a word is one of the parameter-lock operations.
pub fn is_plock_operation(s: &str) -> (r: bool)
    ensures
        r == PlockOperation::known(s@),
{
    PlockOperation::from_name(s).is_some()
}

/// Whether a word is the name of a kit element.
pub fn is_element(s: &str) -> (r: bool)
    ensures
        r == KitElement::known(s@),
{
    KitElement::from_name(s).is_some()
}

/// Splits a symbol at its first colon into the name of an enum and a
/// variant.
pub fn parse_enum_value(s: &str) -> (r: EnumParseResult)
    ensures
        r.model() == split_enum(s@),
        r matches EnumParseResult::Complete(_, value) ==> value is Some,
{
    match find_colon(s) {
        None => EnumParseResult::Invalid(s.to_owned()),
        Some(k) => {
            let n = s.unicode_len();
            let name = s.substring_char(0, k).to_owned();
            if k + 1 == n {
                EnumParseResult::RequiresValue(name)
            } else {
                EnumParseResult::Complete(name, Some(s.substring_char(k + 1, n).to_owned()))
            }
        },
    }
}

/// The sentence for an index outside its range, made from the index, the
/// bounds, what the index is an index of, and the lower-case form of that.
pub open spec fn range_sentence(index: int, min: int, max: int, name: Seq<char>, lower: Seq<char>) -> Seq<char> {
    decimal(index) + " is out of range for "@ + lower + ". "@ + name + " must be an integer between  "@
        + decimal(min) + " and "@ + decimal(max) + "."@
}

/// Words the sentence for an index outside its range.
pub fn range_message(index: isize, min: isize, max: isize, name: &str, lower: &str) -> (r: String)
    ensures
        r@ == range_sentence(index as int, min as int, max as int, name@, lower@),
{
    let mut text = isize_to_string(index);
    text.append(" is out of range for ");
    text.append(lower);
    text.append(". ");
    text.append(name);
    text.append(" must be an integer between  ");
    let low = isize_to_string(min);
    text.append(low.as_str());
    text.append(" and ");
    let high = isize_to_string(max);
    text.append(high.as_str());
    text.append(".");
    text
}

/// Checks that an index lies within a range, both ends included. The error
/// for an index outside it gives the index, the range and what the index
/// is an index of.
pub fn validate_index(index: &isize, min: isize, max: isize, name: &str) -> (r: ParseResult<()>)
    ensures
        match r {
            Ok(_) => min <= *index <= max,
            Err(e) => !(min <= *index <= max) && e@ == ParseErrorView::IndexOutOfRange(
                out_of_range_text(*index as int, min as int, max as int, name@),
            ),
        },
{
    if *index >= min && *index <= max {
        Ok(())
    } else {
        let lower = to_lowercase(name);
        Err(ParseError::IndexOutOfRange(range_message(*index, min, max, name, lower.as_str())))
    }
}

/// Adding a token to a list adds its view to the views of the list.
pub proof fn lemma_views_push(tokens: Seq<ParsedValue>, token: ParsedValue)
    ensures
        parsed_views(tokens.push(token)) == parsed_views(tokens).push(token@),
{
}

/// Whether the outcome of reading part of a command is the one the grammar
/// gives. On success the end position is the grammar's and the grammar's
/// tokens have been added to the list. On failure the error is the
/// grammar's and the list is as it was before.
pub open spec fn agrees(
    r: ParseResult<usize>,
    tail: Tail,
    before: Seq<ParsedValue>,
    after: Seq<ParsedValue>,
) -> bool {
    match (r, tail) {
        (Ok(end), Ok((tokens, stop))) => end == stop && parsed_views(after) == parsed_views(before) + tokens,
        (Err(e), Err(f)) => e@ == f && after == before,
        _ => false,
    }
}

fn push_token(result: &mut Vec<ParsedValue>, token: ParsedValue)
    ensures
        final(result)@ == old(result)@.push(token),
        parsed_views(final(result)@) == parsed_views(old(result)@).push(token@),
{
    proof {
        lemma_views_push(result@, token);
    }
    result.push(token);
}

/// Puts a list back to an earlier length, dropping what was added since.
fn put_back(result: &mut Vec<ParsedValue>, len: usize)
    requires
        len <= old(result)@.len(),
    ensures
        final(result)@ == old(result)@.subrange(0, len as int),
{
    result.truncate(len);
}

/// Reads one numeric parameter, if one stands at the position.
pub fn parse_single_parameter(values: &RytmValueList, pos: usize) -> (r: Option<ParsedValue>)
    ensures
        match r {
            Some(token) => peek(values@, pos as int) matches Some(v) && v.number() matches Some(n) && token@
                == ParsedView::Parameter(n),
            None => !(peek(values@, pos as int) matches Some(v) && v.number() is Some),
        },
{
    match values.get(pos) {
        Some(RytmValue::Int(i)) => Some(ParsedValue::Parameter(Number::Int(*i))),
        Some(RytmValue::Float(x)) => Some(ParsedValue::Parameter(Number::Float(*x))),
        _ => None,
    }
}

/// Reads up to two numeric parameters and adds them to the list.
pub fn parse_optional_parameters(values: &RytmValueList, pos: usize, result: &mut Vec<ParsedValue>) -> (end: usize)
    ensures
        end == parameters(values@, pos as int).1,
        pos <= values@.len() ==> end <= values@.len(),
        parsed_views(final(result)@) == parsed_views(old(result)@) + parameters(values@, pos as int).0,
{
    let n = values.len();
    match parse_single_parameter(values, pos) {
        Some(first) => {
            push_token(result, first);
            match parse_single_parameter(values, pos + 1) {
                Some(second) => {
                    push_token(result, second);
                    pos + 2
                },
                None => {
                    pos + 1
                },
            }
        },
        None => {
            pos
        },
    }
}

/// Reads the field a path ends in: an identifier of the context with its
/// parameters, or an enum of the context.
pub fn parse_identifier_or_enum(
    context: Context,
    command_type: CommandType,
    values: &RytmValueList,
    pos: usize,
    result: &mut Vec<ParsedValue>,
) -> (r: ParseResult<usize>)
    ensures
        agrees(r, identifier_or_enum(context, values@, pos as int, command_type), old(result)@, final(result)@),
        r matches Ok(end) ==> end <= values@.len(),
{
    let n = values.len();
    let symbol = match values.get(pos) {
        Some(RytmValue::Symbol(s)) => s,
        _ => {
            return Err(ParseError::UnexpectedEnd);
        },
    };
    if is_identifier(context, symbol.as_str()) {
        push_token(result, ParsedValue::Identifier(symbol.clone()));
        let end = parse_optional_parameters(values, pos + 1, result);
        assert(parsed_views(result@) =~= parsed_views(old(result)@) + (seq![ParsedView::Identifier(symbol@)]
            + parameters(values@, pos + 1).0));
        return Ok(end);
    }
    if !is_enum(context, symbol.as_str()) {
        return Err(
            ParseError::InvalidToken(
                join3("Unexpected symbol '", symbol.as_str(), "'. Expected an identifier or enum."),
            ),
        );
    }
    match parse_enum_value(symbol.as_str()) {
        EnumParseResult::Complete(name, Some(value)) => {
            push_token(result, ParsedValue::Enum(name, Some(value)));
            assert(parsed_views(result@) =~= parsed_views(old(result)@) + seq![
                ParsedView::Enum(name@, Some(value@)),
            ]);
            Ok(pos + 1)
        },
        EnumParseResult::Complete(name, None) | EnumParseResult::RequiresValue(name) => {
            match command_type {
                CommandType::Put => Err(ParseError::EnumRequiresValue(name)),
                CommandType::Get => {
                    push_token(result, ParsedValue::Enum(name, None));
                    assert(parsed_views(result@) =~= parsed_views(old(result)@) + seq![
                        ParsedView::Enum(name@, None),
                    ]);
                    Ok(pos + 1)
                },
            }
        },
        EnumParseResult::Invalid(text) => Err(
            ParseError::InvalidFormat(
                join3(
                    "Invalid enum format: '",
                    text.as_str(),
                    "'. Enums may only have the format of <enum-type>: or <enum-type>:<variant>",
                ),
            ),
        ),
    }
}

/// Reads an optional index within a range and adds nothing to the list: the
/// caller decides what the index is an index of.
fn parse_optional_index(values: &RytmValueList, pos: usize, min: isize, max: isize, name: &str) -> (r:
    ParseResult<Option<usize>>)
    requires
        0 <= min,
    ensures
        match (r, optional_index(values@, pos as int, min as int, max as int, name@)) {
            (Ok(i), Ok(j)) => i == j,
            (Err(e), Err(f)) => e@ == f,
            _ => false,
        },
        r matches Ok(Some(_)) ==> pos < values@.len(),
{
    match values.get(pos) {
        Some(RytmValue::Int(i)) => match validate_index(i, min, max, name) {
            Ok(_) => Ok(Some(*i as usize)),
            Err(e) => Err(e),
        },
        _ => Ok(None),
    }
}

/// Reads an optional parameter-lock word and the field after it.
pub fn parse_plock_and_field(
    command_type: CommandType,
    values: &RytmValueList,
    pos: usize,
    result: &mut Vec<ParsedValue>,
) -> (r: ParseResult<usize>)
    ensures
        agrees(r, plock_and_field(values@, pos as int, command_type), old(result)@, final(result)@),
        r matches Ok(end) ==> end <= values@.len(),
{
    let n = values.len();
    let word: Option<PlockOperation> = match values.get(pos) {
        Some(RytmValue::Symbol(s)) => PlockOperation::from_name(s.as_str()),
        _ => None,
    };
    match word {
        Some(op) => {
            if pos + 1 < n {
                let start = result.len();
                push_token(result, ParsedValue::PlockOperation(op));
                match parse_identifier_or_enum(Context::Lock, command_type, values, pos + 1, result) {
                    Ok(end) => {
                        proof {
                            let rest = identifier_or_enum(Context::Lock, values@, pos + 1, command_type)->Ok_0.0;
                            assert(parsed_views(result@) =~= parsed_views(old(result)@) + (seq![
                                ParsedView::PlockOperation(op),
                            ] + rest));
                        }
                        Ok(end)
                    },
                    Err(e) => {
                        put_back(result, start);
                        assert(result@ =~= old(result)@);
                        Err(e)
                    },
                }
            } else {
                Err(
                    ParseError::InvalidPlockOperation(
                        op.as_str().to_owned(),
                        "This operation needs to be followed by an identifier or an enum.".to_owned(),
                    ),
                )
            }
        },
        None => parse_identifier_or_enum(Context::Pattern, command_type, values, pos, result),
    }
}

/// Reads what follows a pattern. Both indices are checked before either is
/// added to the list.
pub fn parse_pattern(command_type: CommandType, values: &RytmValueList, pos: usize, result: &mut Vec<ParsedValue>) -> (r:
    ParseResult<usize>)
    ensures
        agrees(r, pattern_tail(values@, pos as int, command_type), old(result)@, final(result)@),
        r matches Ok(end) ==> end <= values@.len(),
{
    let n = values.len();
    let track = match parse_optional_index(values, pos, 0, 12, "Track index") {
        Ok(track) => track,
        Err(e) => {
            return Err(e);
        },
    };
    let after_track: usize = if track.is_some() {
        pos + 1
    } else {
        pos
    };
    let trig = match parse_optional_index(values, after_track, 0, 63, "Trig index") {
        Ok(trig) => trig,
        Err(e) => {
            return Err(e);
        },
    };
    let after_trig: usize = if trig.is_some() {
        after_track + 1
    } else {
        after_track
    };
    let start = result.len();
    let ghost mut read: Seq<ParsedView> = seq![];
    match track {
        Some(t) => {
            push_token(result, ParsedValue::TrackIndex(t));
            proof {
                read = seq![ParsedView::TrackIndex(t)];
            }
        },
        None => {},
    }
    match trig {
        Some(g) => {
            push_token(result, ParsedValue::TrigIndex(g));
            proof {
                read = read + seq![ParsedView::TrigIndex(g)];
            }
        },
        None => {
            proof {
                read = read + seq![];
            }
        },
    }
    assert(parsed_views(result@) =~= parsed_views(old(result)@) + read);
    assert(result@.subrange(0, start as int) =~= old(result)@);
    match parse_plock_and_field(command_type, values, after_trig, result) {
        Ok(end) => {
            proof {
                let rest = plock_and_field(values@, after_trig as int, command_type)->Ok_0.0;
                assert(parsed_views(result@) =~= parsed_views(old(result)@) + (read + rest));
            }
            Ok(end)
        },
        Err(e) => {
            put_back(result, start);
            Err(e)
        },
    }
}

/// Reads what follows a sound.
pub fn parse_sound(command_type: CommandType, values: &RytmValueList, pos: usize, result: &mut Vec<ParsedValue>) -> (r:
    ParseResult<usize>)
    ensures
        agrees(r, sound_tail(values@, pos as int, command_type), old(result)@, final(result)@),
        r matches Ok(end) ==> end <= values@.len(),
{
    let n = values.len();
    let symbol = match values.get(pos) {
        Some(RytmValue::Symbol(s)) => s,
        _ => {
            return Err(ParseError::UnexpectedEnd);
        },
    };
    let writes = match command_type {
        CommandType::Put => true,
        CommandType::Get => false,
    };
    if str_eq(symbol.as_str(), "name") && writes {
        match values.get(pos + 1) {
            Some(RytmValue::Symbol(text)) => {
                push_token(result, ParsedValue::Identifier(symbol.clone()));
                push_token(result, ParsedValue::ParameterString(text.clone()));
                assert(parsed_views(result@) =~= parsed_views(old(result)@) + seq![
                    ParsedView::Identifier(symbol@),
                    ParsedView::ParameterString(text@),
                ]);
                Ok(pos + 2)
            },
            _ => Err(
                ParseError::InvalidFormat(
                    join3(
                        "Invalid parameter '",
                        symbol.as_str(),
                        "': name must be a symbol with maximum 15 characters long and use only ascii characters.",
                    ),
                ),
            ),
        }
    } else {
        parse_identifier_or_enum(Context::Sound, command_type, values, pos, result)
    }
}

/// Reads what follows a kit. The index of an element is checked before the
/// element is added to the list.
pub fn parse_kit(command_type: CommandType, values: &RytmValueList, pos: usize, result: &mut Vec<ParsedValue>) -> (r:
    ParseResult<usize>)
    ensures
        agrees(r, kit_tail(values@, pos as int, command_type), old(result)@, final(result)@),
        r matches Ok(end) ==> end <= values@.len(),
{
    let n = values.len();
    let word: Option<KitElement> = match values.get(pos) {
        Some(RytmValue::Symbol(s)) => KitElement::from_name(s.as_str()),
        _ => None,
    };
    let element = match word {
        Some(e) => e,
        None => {
            return parse_identifier_or_enum(Context::Kit, command_type, values, pos, result);
        },
    };
    let index: isize = match values.get(pos + 1) {
        Some(RytmValue::Int(i)) => *i,
        _ => {
            return Err(
                ParseError::ExpectedKitElementIndex(
                    join3(
                        "Expected element index after '",
                        element.as_str(),
                        "': Kit elements must be followed by an integer index.",
                    ),
                ),
            );
        },
    };
    let is_sound = match element {
        KitElement::Sound => true,
        _ => false,
    };
    if is_sound {
        match validate_index(&index, 0, 11, "Kit sound index") {
            Ok(_) => {},
            Err(e) => {
                return Err(e);
            },
        }
    }
    let start = result.len();
    push_token(result, ParsedValue::Element(element.as_str().to_owned()));
    if is_sound {
        push_token(result, ParsedValue::SoundIndex(index as usize));
    } else {
        push_token(result, ParsedValue::ElementIndex(wrap(index)));
    }
    let ghost head = seq![
        ParsedView::Element(element.name()),
        if element == KitElement::Sound {
            ParsedView::SoundIndex(index as usize)
        } else {
            ParsedView::ElementIndex(wrapped(index as int) as usize)
        },
    ];
    assert(parsed_views(result@) =~= parsed_views(old(result)@) + head);
    assert(result@.subrange(0, start as int) =~= old(result)@);
    if pos + 2 < n {
        let r = if is_sound {
            parse_sound(command_type, values, pos + 2, result)
        } else {
            parse_identifier_or_enum(Context::Kit, command_type, values, pos + 2, result)
        };
        match r {
            Ok(end) => {
                proof {
                    let rest = if element == KitElement::Sound {
                        sound_tail(values@, pos + 2, command_type)
                    } else {
                        identifier_or_enum(Context::Kit, values@, pos + 2, command_type)
                    };
                    assert(parsed_views(result@) =~= parsed_views(old(result)@) + (head + rest->Ok_0.0));
                }
                Ok(end)
            },
            Err(e) => {
                put_back(result, start);
                Err(e)
            },
        }
    } else {
        Ok(pos + 2)
    }
}

/// Reads what follows a global slot.
pub fn parse_global(command_type: CommandType, values: &RytmValueList, pos: usize, result: &mut Vec<ParsedValue>) -> (r:
    ParseResult<usize>)
    ensures
        agrees(
            r,
            identifier_or_enum(Context::Global, values@, pos as int, command_type),
            old(result)@,
            final(result)@,
        ),
        r matches Ok(end) ==> end <= values@.len(),
{
    parse_identifier_or_enum(Context::Global, command_type, values, pos, result)
}

/// Reads what follows the settings.
pub fn parse_settings(command_type: CommandType, values: &RytmValueList, pos: usize, result: &mut Vec<ParsedValue>) -> (r:
    ParseResult<usize>)
    ensures
        agrees(
            r,
            identifier_or_enum(Context::Settings, values@, pos as int, command_type),
            old(result)@,
            final(result)@,
        ),
        r matches Ok(end) ==> end <= values@.len(),
{
    parse_identifier_or_enum(Context::Settings, command_type, values, pos, result)
}

/// Reads what follows the object of a command, by the type of the object.
pub fn parse_remainder(
    command_type: CommandType,
    selector: &ObjectTypeSelector,
    values: &RytmValueList,
    pos: usize,
    result: &mut Vec<ParsedValue>,
) -> (r: ParseResult<usize>)
    ensures
        agrees(r, remainder(values@, pos as int, command_type, *selector), old(result)@, final(result)@),
        r matches Ok(end) ==> end <= values@.len(),
{
    match selector {
        ObjectTypeSelector::Pattern(_) | ObjectTypeSelector::PatternWorkBuffer => parse_pattern(
            command_type,
            values,
            pos,
            result,
        ),
        ObjectTypeSelector::Kit(_) | ObjectTypeSelector::KitWorkBuffer => parse_kit(
            command_type,
            values,
            pos,
            result,
        ),
        ObjectTypeSelector::Sound(_) | ObjectTypeSelector::SoundWorkBuffer(_) => parse_sound(
            command_type,
            values,
            pos,
            result,
        ),
        ObjectTypeSelector::Global(_) | ObjectTypeSelector::GlobalWorkBuffer => parse_global(
            command_type,
            values,
            pos,
            result,
        ),
        ObjectTypeSelector::Settings => parse_settings(command_type, values, pos, result),
    }
}

/// Whether an outcome of reading a command is the one the grammar gives: the
/// grammar's tokens, or the grammar's error.
pub open spec fn reads_as(r: ParseResult<Vec<ParsedValue>>, values: Seq<ValueView>, command_type: CommandType) -> bool {
    match (r, parsed(values, command_type)) {
        (Ok(tokens), Ok(views)) => parsed_views(tokens@) == views,
        (Err(e), Err(f)) => e@ == f,
        _ => false,
    }
}

/// Reading is deterministic: two readings of the same values under the same
/// operation end alike, in the same tokens or in the same error.
pub proof fn parsing_is_deterministic(
    first: ParseResult<Vec<ParsedValue>>,
    second: ParseResult<Vec<ParsedValue>>,
    values: Seq<ValueView>,
    command_type: CommandType,
)
    requires
        reads_as(first, values, command_type),
        reads_as(second, values, command_type),
    ensures
        match (first, second) {
            (Ok(a), Ok(b)) => parsed_views(a@) == parsed_views(b@),
            (Err(e), Err(f)) => e@ == f@,
            _ => false,
        },
{
}

/// Whether every index among a list of tokens lies within its collection:
/// the index of an object within the range of its type, a track index
/// within the thirteen tracks of a pattern, a trig index within the
/// sixty-four trigs of a track, and a sound index within the twelve sounds
/// of a kit.
pub open spec fn in_range(tokens: Seq<ParsedView>) -> bool {
    forall|i: int|
        0 <= i < tokens.len() ==> match #[trigger] tokens[i] {
            ParsedView::ObjectType(selector) => selector.valid(),
            ParsedView::TrackIndex(track) => track <= 12,
            ParsedView::TrigIndex(trig) => trig <= 63,
            ParsedView::SoundIndex(sound) => sound <= 11,
            _ => true,
        }
}

/// Two lists whose indices are in range are so when joined.
pub proof fn lemma_in_range_joined(a: Seq<ParsedView>, b: Seq<ParsedView>)
    requires
        in_range(a),
        in_range(b),
    ensures
        in_range(a + b),
{
    assert forall|i: int| 0 <= i < (a + b).len() implies match #[trigger] (a + b)[i] {
        ParsedView::ObjectType(selector) => selector.valid(),
        ParsedView::TrackIndex(track) => track <= 12,
        ParsedView::TrigIndex(trig) => trig <= 63,
        ParsedView::SoundIndex(sound) => sound <= 11,
        _ => true,
    } by {
        if i < a.len() {
            assert((a + b)[i] == a[i]);
        } else {
            assert((a + b)[i] == b[i - a.len()]);
        }
    }
}

proof fn lemma_field_is_in_range(context: Context, values: Seq<ValueView>, pos: int, command_type: CommandType)
    ensures
        identifier_or_enum(context, values, pos, command_type) matches Ok((tokens, _)) ==> in_range(tokens),
        sound_tail(values, pos, command_type) matches Ok((tokens, _)) ==> in_range(tokens),
{
}

proof fn lemma_pattern_is_in_range(values: Seq<ValueView>, pos: int, command_type: CommandType)
    ensures
        pattern_tail(values, pos, command_type) matches Ok((tokens, _)) ==> in_range(tokens),
{
    if let Ok((tokens, _)) = pattern_tail(values, pos, command_type) {
        let track = optional_index(values, pos, 0, 12, "Track index"@)->Ok_0;
        let (track_tokens, after_track) = match track {
            Some(t) => (seq![ParsedView::TrackIndex(t)], pos + 1),
            None => (seq![], pos),
        };
        let trig = optional_index(values, after_track, 0, 63, "Trig index"@)->Ok_0;
        let (trig_tokens, after_trig) = match trig {
            Some(t) => (seq![ParsedView::TrigIndex(t)], after_track + 1),
            None => (seq![], after_track),
        };
        let rest = plock_and_field(values, after_trig, command_type)->Ok_0.0;
        lemma_field_is_in_range(Context::Pattern, values, after_trig, command_type);
        lemma_field_is_in_range(Context::Lock, values, after_trig + 1, command_type);
        assert(in_range(track_tokens));
        assert(in_range(trig_tokens));
        assert(in_range(rest)) by {
            if let Some(op) = plock_word(values, after_trig) {
                let field = identifier_or_enum(Context::Lock, values, after_trig + 1, command_type)->Ok_0.0;
                lemma_in_range_joined(seq![ParsedView::PlockOperation(op)], field);
            }
        }
        lemma_in_range_joined(track_tokens, trig_tokens);
        lemma_in_range_joined(track_tokens + trig_tokens, rest);
    }
}

proof fn lemma_kit_is_in_range(values: Seq<ValueView>, pos: int, command_type: CommandType)
    ensures
        kit_tail(values, pos, command_type) matches Ok((tokens, _)) ==> in_range(tokens),
{
    if let Ok((tokens, _)) = kit_tail(values, pos, command_type) {
        lemma_field_is_in_range(Context::Kit, values, pos, command_type);
        lemma_field_is_in_range(Context::Kit, values, pos + 2, command_type);
        if let Some(element) = element_word(values, pos) {
            let i = peek(values, pos + 1)->Some_0->Int_0;
            let head = seq![
                ParsedView::Element(element.name()),
                if element == KitElement::Sound {
                    ParsedView::SoundIndex(i as usize)
                } else {
                    ParsedView::ElementIndex(wrapped(i as int) as usize)
                },
            ];
            assert(in_range(head));
            if pos + 2 < values.len() {
                let rest = if element == KitElement::Sound {
                    sound_tail(values, pos + 2, command_type)
                } else {
                    identifier_or_enum(Context::Kit, values, pos + 2, command_type)
                };
                lemma_in_range_joined(head, rest->Ok_0.0);
            }
        }
    }
}

/// Every index among the tokens of a command lies within its collection:
/// the bounds are checked where the token is made.
pub proof fn tokens_are_in_range(values: Seq<ValueView>, command_type: CommandType)
    ensures
        parsed(values, command_type) matches Ok(tokens) ==> in_range(tokens),
{
    if let Ok(tokens) = parsed(values, command_type) {
        let indexed = ObjectTypeSelector::names_indexable(values[0]);
        let pos: int = if indexed {
            2
        } else {
            1
        };
        let index = if indexed {
            Some(values[1])
        } else {
            None
        };
        ObjectTypeSelector::resolved_is_valid(values[0], index);
        let selector = ObjectTypeSelector::resolved(values[0], index)->Ok_0;
        let tail = remainder(values, pos, command_type, selector)->Ok_0.0;
        lemma_field_is_in_range(Context::Global, values, pos, command_type);
        lemma_field_is_in_range(Context::Settings, values, pos, command_type);
        lemma_pattern_is_in_range(values, pos, command_type);
        lemma_kit_is_in_range(values, pos, command_type);
        assert(in_range(tail));
        assert(in_range(seq![ParsedView::ObjectType(selector)]));
        lemma_in_range_joined(seq![ParsedView::ObjectType(selector)], tail);
    }
}

/// Whether none of a list of tokens is an object.
pub open spec fn no_object(tokens: Seq<ParsedView>) -> bool {
    forall|i: int| 0 <= i < tokens.len() ==> !(#[trigger] tokens[i] is ObjectType)
}

/// Two lists without an object hold none when joined.
pub proof fn lemma_no_object_joined(a: Seq<ParsedView>, b: Seq<ParsedView>)
    requires
        no_object(a),
        no_object(b),
    ensures
        no_object(a + b),
{
    assert forall|i: int| 0 <= i < (a + b).len() implies !(#[trigger] (a + b)[i] is ObjectType) by {
        if i < a.len() {
            assert((a + b)[i] == a[i]);
        } else {
            assert((a + b)[i] == b[i - a.len()]);
        }
    }
}

proof fn lemma_field_has_no_object(context: Context, values: Seq<ValueView>, pos: int, command_type: CommandType)
    ensures
        identifier_or_enum(context, values, pos, command_type) matches Ok((tokens, _)) ==> no_object(tokens),
        sound_tail(values, pos, command_type) matches Ok((tokens, _)) ==> no_object(tokens),
{
}

proof fn lemma_pattern_has_no_object(values: Seq<ValueView>, pos: int, command_type: CommandType)
    ensures
        pattern_tail(values, pos, command_type) matches Ok((tokens, _)) ==> no_object(tokens),
{
    if let Ok((tokens, _)) = pattern_tail(values, pos, command_type) {
        let track = optional_index(values, pos, 0, 12, "Track index"@)->Ok_0;
        let (track_tokens, after_track) = match track {
            Some(t) => (seq![ParsedView::TrackIndex(t)], pos + 1),
            None => (seq![], pos),
        };
        let trig = optional_index(values, after_track, 0, 63, "Trig index"@)->Ok_0;
        let (trig_tokens, after_trig) = match trig {
            Some(t) => (seq![ParsedView::TrigIndex(t)], after_track + 1),
            None => (seq![], after_track),
        };
        let rest = plock_and_field(values, after_trig, command_type)->Ok_0.0;
        lemma_field_has_no_object(Context::Pattern, values, after_trig, command_type);
        lemma_field_has_no_object(Context::Lock, values, after_trig + 1, command_type);
        assert(no_object(track_tokens));
        assert(no_object(trig_tokens));
        assert(no_object(rest)) by {
            if let Some(op) = plock_word(values, after_trig) {
                let field = identifier_or_enum(Context::Lock, values, after_trig + 1, command_type)->Ok_0.0;
                lemma_no_object_joined(seq![ParsedView::PlockOperation(op)], field);
            }
        }
        lemma_no_object_joined(track_tokens, trig_tokens);
        lemma_no_object_joined(track_tokens + trig_tokens, rest);
    }
}

proof fn lemma_kit_has_no_object(values: Seq<ValueView>, pos: int, command_type: CommandType)
    ensures
        kit_tail(values, pos, command_type) matches Ok((tokens, _)) ==> no_object(tokens),
{
    if let Ok((tokens, _)) = kit_tail(values, pos, command_type) {
        lemma_field_has_no_object(Context::Kit, values, pos, command_type);
        lemma_field_has_no_object(Context::Kit, values, pos + 2, command_type);
        if let Some(element) = element_word(values, pos) {
            let i = peek(values, pos + 1)->Some_0->Int_0;
            let head = seq![
                ParsedView::Element(element.name()),
                if element == KitElement::Sound {
                    ParsedView::SoundIndex(i as usize)
                } else {
                    ParsedView::ElementIndex(wrapped(i as int) as usize)
                },
            ];
            assert(no_object(head));
            if pos + 2 < values.len() {
                let rest = if element == KitElement::Sound {
                    sound_tail(values, pos + 2, command_type)
                } else {
                    identifier_or_enum(Context::Kit, values, pos + 2, command_type)
                };
                lemma_no_object_joined(head, rest->Ok_0.0);
            }
        }
    }
}

/// The tokens of a command begin with the object it addresses, and no
/// other token is an object.
pub proof fn tokens_begin_with_one_object(values: Seq<ValueView>, command_type: CommandType)
    ensures
        parsed(values, command_type) matches Ok(tokens) ==> tokens.len() > 0 && tokens[0] is ObjectType
            && no_object(tokens.subrange(1, tokens.len() as int)),
{
    if let Ok(tokens) = parsed(values, command_type) {
        let indexed = ObjectTypeSelector::names_indexable(values[0]);
        let pos: int = if indexed {
            2
        } else {
            1
        };
        let index = if indexed {
            Some(values[1])
        } else {
            None
        };
        let selector = ObjectTypeSelector::resolved(values[0], index)->Ok_0;
        let tail = remainder(values, pos, command_type, selector)->Ok_0.0;
        lemma_field_has_no_object(Context::Global, values, pos, command_type);
        lemma_field_has_no_object(Context::Settings, values, pos, command_type);
        lemma_pattern_has_no_object(values, pos, command_type);
        lemma_kit_has_no_object(values, pos, command_type);
        assert(no_object(tail));
        assert(tokens.subrange(1, tokens.len() as int) =~= tail);
    }
}

/// Reads a command: the values that follow the operation, under that
/// operation.
///
/// The result is the list of tokens the grammar gives, which begins with the
/// object the command addresses, or the grammar's error.
pub fn parse_command(values: &RytmValueList, command_type: CommandType) -> (r: ParseResult<Vec<ParsedValue>>)
    ensures
        reads_as(r, values@, command_type),
        r matches Ok(tokens) ==> in_range(parsed_views(tokens@)),
{
    proof {
        tokens_are_in_range(values@, command_type);
    }
    let selector = match values.first() {
        Some(v) => v,
        None => {
            return Err(ParseError::QuerySelectorMissing);
        },
    };
    let mut pos: usize = 1;
    let index: Option<&RytmValue> = if ObjectTypeSelector::is_object_type_indexable(selector) {
        match values.get(1) {
            Some(RytmValue::Int(_)) => {
                pos = 2;
                values.get(1)
            },
            _ => {
                return Err(ParseError::QuerySelectorIndexMissingOrInvalid);
            },
        }
    } else {
        None
    };
    let object_type_selector = match ObjectTypeSelector::resolve(selector, index) {
        Ok(s) => s,
        Err(e) => {
            return Err(e);
        },
    };
    let mut result: Vec<ParsedValue> = Vec::new();
    push_token(&mut result, ParsedValue::ObjectType(object_type_selector));
    assert(parsed_views(result@) =~= seq![ParsedView::ObjectType(object_type_selector)]);
    match parse_remainder(command_type, &object_type_selector, values, pos, &mut result) {
        Err(e) => Err(e),
        Ok(end) => {
            if end == values.len() {
                Ok(result)
            } else {
                Err(ParseError::UnexpectedEnd)
            }
        },
    }
}

/// No identifier of any context holds a colon.
pub proof fn identifier_names_are_plain(context: Context, s: Seq<char>)
    requires
        is_identifier_name(context, s),
    ensures
        is_plain(s),
{
    if PatternAction::known(s) {
        (choose|f: PatternAction| f.name() == s).name_is_plain();
    } else if TrackAction::known(s) {
        (choose|f: TrackAction| f.name() == s).name_is_plain();
    } else if TrigAction::known(s) {
        (choose|f: TrigAction| f.name() == s).name_is_plain();
    } else if KitAction::known(s) {
        (choose|f: KitAction| f.name() == s).name_is_plain();
    } else if KitElement::known(s) {
        (choose|f: KitElement| f.name() == s).name_is_plain();
    } else if SoundAction::known(s) {
        (choose|f: SoundAction| f.name() == s).name_is_plain();
    } else if GlobalAction::known(s) {
        (choose|f: GlobalAction| f.name() == s).name_is_plain();
    } else {
        (choose|f: SettingsAction| f.name() == s).name_is_plain();
    }
}

/// No name of an enum of any context holds a colon.
pub proof fn enum_names_are_plain(context: Context, s: Seq<char>)
    requires
        is_enum_name(context, s),
    ensures
        is_plain(s),
{
    if PatternEnum::known(s) {
        (choose|f: PatternEnum| f.name() == s).name_is_plain();
    } else if TrackEnum::known(s) {
        (choose|f: TrackEnum| f.name() == s).name_is_plain();
    } else if TrigEnum::known(s) {
        (choose|f: TrigEnum| f.name() == s).name_is_plain();
    } else if KitEnum::known(s) {
        (choose|f: KitEnum| f.name() == s).name_is_plain();
    } else if KitElement::known(s) {
        (choose|f: KitElement| f.name() == s).name_is_plain();
    } else if SoundEnum::known(s) {
        (choose|f: SoundEnum| f.name() == s).name_is_plain();
    } else if GlobalEnum::known(s) {
        (choose|f: GlobalEnum| f.name() == s).name_is_plain();
    } else {
        (choose|f: SettingsEnum| f.name() == s).name_is_plain();
    }
}

/// The name of an enum of a context, followed by a colon and whatever else,
/// is split at that colon, refers to the enum, and is no identifier of the
/// context.
pub proof fn lemma_enum_reference(context: Context, name: Seq<char>, rest: Seq<char>)
    requires
        is_enum_name(context, name),
    ensures
        first_colon(name + seq![':'] + rest) == Some(name.len() as int),
        enum_name_of(name + seq![':'] + rest) == name,
        is_enum_symbol(context, name + seq![':'] + rest),
        !is_identifier_name(context, name + seq![':'] + rest),
{
    let s = name + seq![':'] + rest;
    let k = name.len() as int;
    enum_names_are_plain(context, name);
    assert(s[k] == ':');
    assert forall|j: int| 0 <= j < k implies s[j] != ':' by {
        assert(s[j] == name[j]);
    }
    assert(is_first_colon(s, k));
    let c = choose|c: int| is_first_colon(s, c);
    assert(c == k) by {
        if c < k {
            assert(s[c] != ':');
        } else if k < c {
            assert(s[k] != ':');
        }
    }
    assert(s.subrange(0, k) =~= name);
    if is_identifier_name(context, s) {
        identifier_names_are_plain(context, s);
        assert(s[k] != ':');
    }
}

/// An enum of the context named without a variant, as `name:`, is read as
/// the enum with no variant in a command that reads, and refused in a
/// command that writes.
pub proof fn enum_without_variant(
    context: Context,
    values: Seq<ValueView>,
    pos: int,
    name: Seq<char>,
    command_type: CommandType,
)
    requires
        is_enum_name(context, name),
        peek(values, pos) == Some(ValueView::Symbol(name + seq![':'])),
    ensures
        command_type == CommandType::Get ==> identifier_or_enum(context, values, pos, command_type) == Ok::<
            (Seq<ParsedView>, int),
            ParseErrorView,
        >((seq![ParsedView::Enum(name, None)], pos + 1)),
        command_type == CommandType::Put ==> identifier_or_enum(context, values, pos, command_type) == Err::<
            (Seq<ParsedView>, int),
            ParseErrorView,
        >(ParseErrorView::EnumRequiresValue(name)),
{
    let s = name + seq![':'];
    assert(s =~= name + seq![':'] + Seq::<char>::empty());
    lemma_enum_reference(context, name, Seq::<char>::empty());
    assert(s.subrange(0, name.len() as int) =~= name);
}

/// An enum of the context named with a variant, as `name:variant`, is read
/// as the enum with that variant, whatever the command.
pub proof fn enum_with_variant(
    context: Context,
    values: Seq<ValueView>,
    pos: int,
    name: Seq<char>,
    variant: Seq<char>,
    command_type: CommandType,
)
    requires
        is_enum_name(context, name),
        variant.len() > 0,
        peek(values, pos) == Some(ValueView::Symbol(name + seq![':'] + variant)),
    ensures
        identifier_or_enum(context, values, pos, command_type) == Ok::<(Seq<ParsedView>, int), ParseErrorView>(
            (seq![ParsedView::Enum(name, Some(variant))], pos + 1),
        ),
{
    let s = name + seq![':'] + variant;
    lemma_enum_reference(context, name, variant);
    assert(s.subrange(0, name.len() as int) =~= name);
    assert(s.subrange(name.len() as int + 1, s.len() as int) =~= variant);
}

/// A name that is no field of the context is refused there, whatever other
/// object it may be a field of: a symbol that is neither an identifier nor
/// an enum of the context is an invalid token.
pub proof fn foreign_name_is_refused(
    context: Context,
    values: Seq<ValueView>,
    pos: int,
    name: Seq<char>,
    command_type: CommandType,
)
    requires
        peek(values, pos) == Some(ValueView::Symbol(name)),
        !is_identifier_name(context, name),
        !is_enum_symbol(context, name),
    ensures
        identifier_or_enum(context, values, pos, command_type) == Err::<(Seq<ParsedView>, int), ParseErrorView>(
            ParseErrorView::InvalidToken(unexpected_symbol_text(name)),
        ),
{
}

} // verus!
