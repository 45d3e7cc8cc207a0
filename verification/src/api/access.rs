//! From the name of a field and the tokens after it to an access.
//!
//! All objects are handled alike: a name is looked up among the fields of
//! the object's family; the tables say whether the field can be read or
//! written and in what form; and the tokens after the name must supply what
//! that form needs. What differs between the families is the order of the
//! checks on a write and the wording of some errors.

use vstd::prelude::*;
use vstd::string::StringExecFns;
use crate::api::{Access, AccessView, Argument, ArgumentView, Family, Field, Request, RequestView, Target};
use crate::error::{
    EnumError,
    EnumErrorView,
    GetError,
    GetErrorView,
    IdentifierError,
    IdentifierErrorView,
    ParseErrorView,
    RytmObjectError,
    RytmObjectErrorView,
    SetError,
    SetErrorView,
    number_expected_text,
    number_or_set_error,
    opt_text,
};
use crate::fields::global::{GlobalAction, GlobalEnum};
use crate::fields::kit::{KitAction, KitEnum};
use crate::fields::pattern::{PatternAction, PatternEnum, TrackAction, TrackEnum, TrigAction, TrigEnum};
use crate::fields::settings::{SettingsAction, SettingsEnum};
use crate::fields::sound::{SoundAction, SoundEnum};
use crate::fields::{Shape, Takes};
use crate::parse::join3;
use crate::parse::types::{Number, ParsedValue, ParsedView, parsed_views, wrap, wrapped};
use crate::text::{decimal, parse_usize, parsed_usize, str_eq, usize_to_string};
use crate::types::CommandType;

verus! {

/// What the tables say of an action field.
pub struct ActionInfo {
    pub field: Field,
    pub reads: Option<Shape>,
    pub writes: Option<Takes>,
}

/// What the tables say of an enum field.
pub struct EnumInfo {
    pub field: Field,
    pub reads: Option<Shape>,
    pub writes: Option<Shape>,
}

/// The action field of a family that a word names, if it names one.
pub open spec fn action_named(family: Family, name: Seq<char>) -> Option<ActionInfo> {
    match family {
        Family::Pattern => match PatternAction::named(name) {
            Some(f) => Some(ActionInfo { field: Field::PatternAction(f), reads: f.reads(), writes: f.writes() }),
            None => None,
        },
        Family::Track => match TrackAction::named(name) {
            Some(f) => Some(ActionInfo { field: Field::TrackAction(f), reads: f.reads(), writes: f.writes() }),
            None => None,
        },
        Family::Trig => match TrigAction::named(name) {
            Some(f) => Some(ActionInfo { field: Field::TrigAction(f), reads: f.reads(), writes: f.writes() }),
            None => None,
        },
        Family::Kit => match KitAction::named(name) {
            Some(f) => Some(ActionInfo { field: Field::KitAction(f), reads: f.reads(), writes: f.writes() }),
            None => None,
        },
        Family::Sound => match SoundAction::named(name) {
            Some(f) => Some(ActionInfo { field: Field::SoundAction(f), reads: f.reads(), writes: f.writes() }),
            None => None,
        },
        Family::Global => match GlobalAction::named(name) {
            Some(f) => Some(ActionInfo { field: Field::GlobalAction(f), reads: f.reads(), writes: f.writes() }),
            None => None,
        },
        Family::Settings => match SettingsAction::named(name) {
            Some(f) => Some(ActionInfo { field: Field::SettingsAction(f), reads: f.reads(), writes: f.writes() }),
            None => None,
        },
    }
}

/// Looks up an action field of a family by its name.
pub fn lookup_action(family: Family, name: &str) -> (r: Option<ActionInfo>)
    ensures
        r == action_named(family, name@),
{
    match family {
        Family::Pattern => match PatternAction::from_name(name) {
            Some(f) => Some(ActionInfo { field: Field::PatternAction(f), reads: f.reads(), writes: f.writes() }),
            None => None,
        },
        Family::Track => match TrackAction::from_name(name) {
            Some(f) => Some(ActionInfo { field: Field::TrackAction(f), reads: f.reads(), writes: f.writes() }),
            None => None,
        },
        Family::Trig => match TrigAction::from_name(name) {
            Some(f) => Some(ActionInfo { field: Field::TrigAction(f), reads: f.reads(), writes: f.writes() }),
            None => None,
        },
        Family::Kit => match KitAction::from_name(name) {
            Some(f) => Some(ActionInfo { field: Field::KitAction(f), reads: f.reads(), writes: f.writes() }),
            None => None,
        },
        Family::Sound => match SoundAction::from_name(name) {
            Some(f) => Some(ActionInfo { field: Field::SoundAction(f), reads: f.reads(), writes: f.writes() }),
            None => None,
        },
        Family::Global => match GlobalAction::from_name(name) {
            Some(f) => Some(ActionInfo { field: Field::GlobalAction(f), reads: f.reads(), writes: f.writes() }),
            None => None,
        },
        Family::Settings => match SettingsAction::from_name(name) {
            Some(f) => Some(
                ActionInfo { field: Field::SettingsAction(f), reads: f.reads(), writes: f.writes() },
            ),
            None => None,
        },
    }
}

/// The enum field of a family that a word names, if it names one.
pub open spec fn enum_named(family: Family, name: Seq<char>) -> Option<EnumInfo> {
    match family {
        Family::Pattern => match PatternEnum::named(name) {
            Some(f) => Some(EnumInfo { field: Field::PatternEnum(f), reads: f.reads(), writes: f.writes() }),
            None => None,
        },
        Family::Track => match TrackEnum::named(name) {
            Some(f) => Some(EnumInfo { field: Field::TrackEnum(f), reads: f.reads(), writes: f.writes() }),
            None => None,
        },
        Family::Trig => match TrigEnum::named(name) {
            Some(f) => Some(EnumInfo { field: Field::TrigEnum(f), reads: f.reads(), writes: f.writes() }),
            None => None,
        },
        Family::Kit => match KitEnum::named(name) {
            Some(f) => Some(EnumInfo { field: Field::KitEnum(f), reads: f.reads(), writes: f.writes() }),
            None => None,
        },
        Family::Sound => match SoundEnum::named(name) {
            Some(f) => Some(EnumInfo { field: Field::SoundEnum(f), reads: f.reads(), writes: f.writes() }),
            None => None,
        },
        Family::Global => match GlobalEnum::named(name) {
            Some(f) => Some(EnumInfo { field: Field::GlobalEnum(f), reads: f.reads(), writes: f.writes() }),
            None => None,
        },
        Family::Settings => match SettingsEnum::named(name) {
            Some(f) => Some(EnumInfo { field: Field::SettingsEnum(f), reads: f.reads(), writes: f.writes() }),
            None => None,
        },
    }
}

/// Looks up an enum field of a family by its name.
pub fn lookup_enum(family: Family, name: &str) -> (r: Option<EnumInfo>)
    ensures
        r == enum_named(family, name@),
{
    match family {
        Family::Pattern => match PatternEnum::from_name(name) {
            Some(f) => Some(EnumInfo { field: Field::PatternEnum(f), reads: f.reads(), writes: f.writes() }),
            None => None,
        },
        Family::Track => match TrackEnum::from_name(name) {
            Some(f) => Some(EnumInfo { field: Field::TrackEnum(f), reads: f.reads(), writes: f.writes() }),
            None => None,
        },
        Family::Trig => match TrigEnum::from_name(name) {
            Some(f) => Some(EnumInfo { field: Field::TrigEnum(f), reads: f.reads(), writes: f.writes() }),
            None => None,
        },
        Family::Kit => match KitEnum::from_name(name) {
            Some(f) => Some(EnumInfo { field: Field::KitEnum(f), reads: f.reads(), writes: f.writes() }),
            None => None,
        },
        Family::Sound => match SoundEnum::from_name(name) {
            Some(f) => Some(EnumInfo { field: Field::SoundEnum(f), reads: f.reads(), writes: f.writes() }),
            None => None,
        },
        Family::Global => match GlobalEnum::from_name(name) {
            Some(f) => Some(EnumInfo { field: Field::GlobalEnum(f), reads: f.reads(), writes: f.writes() }),
            None => None,
        },
        Family::Settings => match SettingsEnum::from_name(name) {
            Some(f) => Some(EnumInfo { field: Field::SettingsEnum(f), reads: f.reads(), writes: f.writes() }),
            None => None,
        },
    }
}

/// What resolving an access comes to.
pub type Resolved = Result<RequestView, RytmObjectErrorView>;

/// Whether a result is the one a specification gives.
pub open spec fn resolves_to(r: Result<Request, RytmObjectError>, expected: Resolved) -> bool {
    match (r, expected) {
        (Ok(request), Ok(view)) => request@ == view,
        (Err(e), Err(f)) => e@ == f,
        _ => false,
    }
}

/// The token at a position, if there is one.
pub open spec fn token_at(tokens: Seq<ParsedView>, pos: int) -> Option<ParsedView> {
    if 0 <= pos < tokens.len() {
        Some(tokens[pos])
    } else {
        None
    }
}

/// The token at a position, if there is one.
pub fn token(tokens: &Vec<ParsedValue>, pos: usize) -> (r: Option<&ParsedValue>)
    ensures
        match r {
            Some(t) => token_at(parsed_views(tokens@), pos as int) == Some(t@),
            None => token_at(parsed_views(tokens@), pos as int) is None,
        },
{
    if pos < tokens.len() {
        Some(&tokens[pos])
    } else {
        None
    }
}

/// The integer parameter at a position, if one stands there.
pub open spec fn int_parameter_at(tokens: Seq<ParsedView>, pos: int) -> Option<isize> {
    match token_at(tokens, pos) {
        Some(ParsedView::Parameter(Number::Int(i))) => Some(i),
        _ => None,
    }
}

/// The integer parameter at a position, if one stands there.
pub fn int_parameter(tokens: &Vec<ParsedValue>, pos: usize) -> (r: Option<isize>)
    ensures
        r == int_parameter_at(parsed_views(tokens@), pos as int),
{
    match token(tokens, pos) {
        Some(ParsedValue::Parameter(Number::Int(i))) => Some(*i),
        _ => None,
    }
}

/// The error for a name that is no action field of the object, or none that
/// the operation applies to.
pub open spec fn unknown_identifier(name: Seq<char>) -> RytmObjectErrorView {
    RytmObjectErrorView::Identifier(IdentifierErrorView::InvalidType(name))
}

/// The error for a name that is no enum field of the object, or none that
/// the operation applies to.
pub open spec fn unknown_enum(name: Seq<char>) -> RytmObjectErrorView {
    RytmObjectErrorView::Enum(EnumErrorView::InvalidEnumType(name))
}

/// The error for a token that is neither an identifier nor an enum where a
/// field must be named.
pub open spec fn malformed(command_type: CommandType) -> RytmObjectErrorView {
    match command_type {
        CommandType::Get => RytmObjectErrorView::Get(
            GetErrorView::InvalidFormat("An identifier or an enum is expected."@),
        ),
        CommandType::Put => RytmObjectErrorView::Put(
            SetErrorView::InvalidFormat("An identifier or an enum is expected."@),
        ),
    }
}

/// The error for a token that is neither an identifier nor an enum where a
/// field must be named.
pub fn malformed_error(command_type: CommandType) -> (r: RytmObjectError)
    ensures
        r@ == malformed(command_type),
{
    match command_type {
        CommandType::Get => RytmObjectError::Get(
            GetError::InvalidFormat("An identifier or an enum is expected.".to_owned()),
        ),
        CommandType::Put => RytmObjectError::Put(
            SetError::InvalidFormat("An identifier or an enum is expected.".to_owned()),
        ),
    }
}

/// The error for a write that is not given a number.
pub open spec fn missing_parameter(family: Family) -> RytmObjectErrorView {
    match family {
        Family::Kit => RytmObjectErrorView::Custom(
            "Allowed parameters are integers or floats or a symbol if you'd like to change the name of the kit."@,
        ),
        Family::Sound => RytmObjectErrorView::Custom(
            "Allowed parameters are integers or floats or a symbol if you'd like to change the name of the sound."@,
        ),
        _ => RytmObjectErrorView::Put(SetErrorView::InvalidFormat(number_expected_text())),
    }
}

fn missing_parameter_error(family: Family) -> (r: RytmObjectError)
    requires
        family == Family::Kit || family == Family::Sound,
    ensures
        r@ == missing_parameter(family),
{
    match family {
        Family::Kit => RytmObjectError::Custom(
            "Allowed parameters are integers or floats or a symbol if you'd like to change the name of the kit.".to_owned(),
        ),
        _ => RytmObjectError::Custom(
            "Allowed parameters are integers or floats or a symbol if you'd like to change the name of the sound.".to_owned(),
        ),
    }
}

/// The sentence for a name that is empty.
pub open spec fn empty_name_text() -> Seq<char> {
    "Invalid parameter: name must not be empty."@
}

/// The sentence for a name that is not given as a text.
pub open spec fn name_form_text() -> Seq<char> {
    "Invalid parameter: name must be a symbol with maximum 15 characters long and use only ascii characters."@
}

/// The error for an enum that is written without a variant.
pub open spec fn missing_variant(family: Family) -> RytmObjectErrorView {
    match family {
        Family::Kit | Family::Sound => RytmObjectErrorView::Get(
            GetErrorView::InvalidFormat("Enum value not provided"@),
        ),
        _ => RytmObjectErrorView::Put(SetErrorView::InvalidFormat("Enum value not provided"@)),
    }
}

fn missing_variant_error(family: Family) -> (r: RytmObjectError)
    ensures
        r@ == missing_variant(family),
{
    match family {
        Family::Kit | Family::Sound => RytmObjectError::Get(
            GetError::InvalidFormat("Enum value not provided".to_owned()),
        ),
        _ => RytmObjectError::Put(SetError::InvalidFormat("Enum value not provided".to_owned())),
    }
}

/// The sentence for a slot index beyond a field's slots.
pub open spec fn slot_range_text(slot: usize, name: Seq<char>) -> Seq<char> {
    "Invalid range: The index "@ + decimal(slot as int) + " is out of range for "@ + name + "."@
}

/// A slot index, checked against the number of slots where that number is
/// known: the slotted fields of kits and sounds have four slots each. The
/// slots of other fields are numbered by the tree, which is left to refuse
/// an index it does not have.
pub open spec fn checked_slot(family: Family, slot: usize, name: Seq<char>) -> Result<usize, RytmObjectErrorView> {
    if (family == Family::Kit || family == Family::Sound) && slot > 3 {
        Err(RytmObjectErrorView::Custom(slot_range_text(slot, name)))
    } else {
        Ok(slot)
    }
}

fn check_slot(family: Family, slot: usize, name: &str) -> (r: Result<usize, RytmObjectError>)
    ensures
        match (r, checked_slot(family, slot, name@)) {
            (Ok(a), Ok(b)) => a == b,
            (Err(e), Err(f)) => e@ == f,
            _ => false,
        },
{
    let four = match family {
        Family::Kit | Family::Sound => true,
        _ => false,
    };
    if four && slot > 3 {
        let mut text = String::from_str("Invalid range: The index ");
        let number = usize_to_string(slot);
        text.append(number.as_str());
        text.append(" is out of range for ");
        text.append(name);
        text.append(".");
        Err(RytmObjectError::Custom(text))
    } else {
        Ok(slot)
    }
}

/// The sentence for an action field that is read without saying which slot.
pub open spec fn read_slot_text(field: Field) -> Seq<char> {
    match field {
        Field::SoundAction(SoundAction::AtModAmt) => "atmodamt should be followed by an integer index."@,
        Field::GlobalAction(GlobalAction::RouteToMain) => "routetomain should be followed by an integer track index."@,
        Field::GlobalAction(GlobalAction::SendToFx) => "sendtofx should be followed by a track index (integer)"@,
        Field::SettingsAction(SettingsAction::Mute) => "mute should be followed by an integer sound index."@,
        _ => field.name() + " should be followed by an index."@,
    }
}

/// The error for an action field that is read without saying which slot.
pub open spec fn missing_read_slot(family: Family, field: Field) -> RytmObjectErrorView {
    match family {
        Family::Kit | Family::Sound => RytmObjectErrorView::Custom(read_slot_text(field)),
        _ => RytmObjectErrorView::Get(GetErrorView::InvalidFormat(read_slot_text(field))),
    }
}

fn missing_read_slot_error(family: Family, field: Field) -> (r: RytmObjectError)
    ensures
        r@ == missing_read_slot(family, field),
{
    let text: String = match field {
        Field::SoundAction(SoundAction::AtModAmt) => "atmodamt should be followed by an integer index.".to_owned(),
        Field::GlobalAction(GlobalAction::RouteToMain) => "routetomain should be followed by an integer track index.".to_owned(),
        Field::GlobalAction(GlobalAction::SendToFx) => "sendtofx should be followed by a track index (integer)".to_owned(),
        Field::SettingsAction(SettingsAction::Mute) => "mute should be followed by an integer sound index.".to_owned(),
        _ => {
            let mut t = String::from_str(field.as_str());
            t.append(" should be followed by an index.");
            t
        },
    };
    match family {
        Family::Kit | Family::Sound => RytmObjectError::Custom(text),
        _ => RytmObjectError::Get(GetError::InvalidFormat(text)),
    }
}

/// The sentence for an enum field that is read without a slot index in the
/// place of the variant.
pub open spec fn read_variant_slot_text(field: Field) -> Seq<char> {
    match field {
        Field::GlobalEnum(_) => "trackchannels: should include an integer track index. Example: trackchannels:1"@,
        _ => field.name() + ":<integer> is the correct format. Example: "@ + field.name() + ":2"@,
    }
}

fn read_variant_slot_error(field: Field) -> (r: RytmObjectError)
    ensures
        r@ == RytmObjectErrorView::Get(GetErrorView::InvalidFormat(read_variant_slot_text(field))),
{
    let text: String = match field {
        Field::GlobalEnum(_) => "trackchannels: should include an integer track index. Example: trackchannels:1".to_owned(),
        _ => {
            let mut t = String::from_str(field.as_str());
            t.append(":<integer> is the correct format. Example: ");
            t.append(field.as_str());
            t.append(":2");
            t
        },
    };
    RytmObjectError::Get(GetError::InvalidFormat(text))
}

/// The sentence for a slotted field that is written without saying which
/// slot.
pub open spec fn write_slot_text(field: Field) -> Seq<char> {
    match field {
        Field::KitAction(KitAction::ControlIn1ModAmt) => "ctrlinmod1amt should be followed by an integer ctrlinmod1 index. Format: ctrlinmod1amt <ctrlinmod1 index> <amount>. Example: ctrlinmod1amt 2 100"@,
        Field::KitAction(KitAction::ControlIn2ModAmt) => "ctrlinmod2amt should be followed by an integer ctrlinmod2 index. Format: ctrlinmod2amt <ctrlinmod2 index> <amount>. Example: ctrlinmod2amt 2 100"@,
        Field::SoundAction(SoundAction::VelModAmt) => "velmodamt should be followed by an integer velmod index. Format: velmodamt <velmod index> <amount>. Example: velmodamt 2 100"@,
        Field::SoundAction(SoundAction::AtModAmt) => "atmodamt should be followed by an integer atmod index. Format: atmodamt <atmod index> <amount>. Example: atmodamt 2 100"@,
        Field::KitEnum(KitEnum::ControlIn1ModTarget) => "ctrlinmod1target should be followed by an integer ctrlinmod1 index. Format: ctrlinmod1target:<target> <ctrlinmod1 index>. Example: ctrlinmod1target:lfophase 2"@,
        Field::KitEnum(KitEnum::ControlIn2ModTarget) => "ctrlinmod2target should be followed by an integer ctrlinmod2 index. Format: ctrlinmod2target:<target> <ctrlinmod2 index>. Example: ctrlinmod2target:lfophase 2"@,
        Field::SoundEnum(SoundEnum::VelocityModTarget) => "velmodtarget should be followed by an integer velmod index. Format: velmodtarget:<target> <velmod index>. Example: velmodtarget:lfophase 2"@,
        Field::SoundEnum(SoundEnum::AfterTouchModTarget) => "atmodtarget should be followed by an integer atmod index. Format: atmodtarget:<target> <atmod index>. Example: atmodtarget:lfophase 2"@,
        Field::GlobalEnum(GlobalEnum::TrackChannels) => "trackchannels should be followed by an integer track index. Format: trackchannels:<channel> <track index>. Example: trackchannels:1 2"@,
        _ => field.name() + " should be followed by an integer index."@,
    }
}

fn write_slot_error(field: Field) -> (r: RytmObjectError)
    ensures
        r@ == RytmObjectErrorView::Put(SetErrorView::InvalidFormat(write_slot_text(field))),
{
    let text: String = match field {
        Field::KitAction(KitAction::ControlIn1ModAmt) => "ctrlinmod1amt should be followed by an integer ctrlinmod1 index. Format: ctrlinmod1amt <ctrlinmod1 index> <amount>. Example: ctrlinmod1amt 2 100".to_owned(),
        Field::KitAction(KitAction::ControlIn2ModAmt) => "ctrlinmod2amt should be followed by an integer ctrlinmod2 index. Format: ctrlinmod2amt <ctrlinmod2 index> <amount>. Example: ctrlinmod2amt 2 100".to_owned(),
        Field::SoundAction(SoundAction::VelModAmt) => "velmodamt should be followed by an integer velmod index. Format: velmodamt <velmod index> <amount>. Example: velmodamt 2 100".to_owned(),
        Field::SoundAction(SoundAction::AtModAmt) => "atmodamt should be followed by an integer atmod index. Format: atmodamt <atmod index> <amount>. Example: atmodamt 2 100".to_owned(),
        Field::KitEnum(KitEnum::ControlIn1ModTarget) => "ctrlinmod1target should be followed by an integer ctrlinmod1 index. Format: ctrlinmod1target:<target> <ctrlinmod1 index>. Example: ctrlinmod1target:lfophase 2".to_owned(),
        Field::KitEnum(KitEnum::ControlIn2ModTarget) => "ctrlinmod2target should be followed by an integer ctrlinmod2 index. Format: ctrlinmod2target:<target> <ctrlinmod2 index>. Example: ctrlinmod2target:lfophase 2".to_owned(),
        Field::SoundEnum(SoundEnum::VelocityModTarget) => "velmodtarget should be followed by an integer velmod index. Format: velmodtarget:<target> <velmod index>. Example: velmodtarget:lfophase 2".to_owned(),
        Field::SoundEnum(SoundEnum::AfterTouchModTarget) => "atmodtarget should be followed by an integer atmod index. Format: atmodtarget:<target> <atmod index>. Example: atmodtarget:lfophase 2".to_owned(),
        Field::GlobalEnum(GlobalEnum::TrackChannels) => "trackchannels should be followed by an integer track index. Format: trackchannels:<channel> <track index>. Example: trackchannels:1 2".to_owned(),
        _ => {
            let mut t = String::from_str(field.as_str());
            t.append(" should be followed by an integer index.");
            t
        },
    };
    RytmObjectError::Put(SetError::InvalidFormat(text))
}

/// A number in the form a field takes it. Only a field that takes off or
/// on can refuse a number: it takes the integers 0 and 1 and nothing else.
///
/// This gives no form for a name or for a slot and an amount, which are not
/// made from one number.
pub open spec fn argument_for(takes: Takes, param: Number, name: Seq<char>) -> Result<
    ArgumentView,
    RytmObjectErrorView,
> {
    match takes {
        Takes::Unsigned => Ok(ArgumentView::Unsigned(wrapped(param.int_value()) as usize)),
        Takes::Signed => Ok(ArgumentView::Signed(param.int_value() as isize)),
        Takes::Flag => if param == Number::Int(0) {
            Ok(ArgumentView::Flag(false))
        } else if param == Number::Int(1) {
            Ok(ArgumentView::Flag(true))
        } else {
            Err(RytmObjectErrorView::Parse(ParseErrorView::ExpectedZeroOrOne { found: param, identifier: name }))
        },
        Takes::Real => Ok(ArgumentView::Real(param)),
        Takes::Name | Takes::SlotAmount => Err(unknown_identifier(name)),
    }
}

/// Puts a number into the form a field takes it.
pub fn make_argument(takes: Takes, param: Number, name: &str) -> (r: Result<Argument, RytmObjectError>)
    ensures
        match (r, argument_for(takes, param, name@)) {
            (Ok(a), Ok(b)) => a@ == b,
            (Err(e), Err(f)) => e@ == f,
            _ => false,
        },
{
    match takes {
        Takes::Unsigned => Ok(Argument::Unsigned(param.get_unsigned())),
        Takes::Signed => Ok(Argument::Signed(param.get_int())),
        Takes::Flag => match param.get_bool_from_0_or_1(name) {
            Ok(b) => Ok(Argument::Flag(b)),
            Err(e) => Err(RytmObjectError::Parse(e)),
        },
        Takes::Real => Ok(Argument::Real(param)),
        Takes::Name | Takes::SlotAmount => Err(
            RytmObjectError::Identifier(IdentifierError::InvalidType(name.to_owned())),
        ),
    }
}

/// Reading an action field: the name must be that of a field of the family
/// that can be read, and a slotted field must be followed by the integer
/// index of a slot.
pub open spec fn read_action(family: Family, target: Target, tokens: Seq<ParsedView>, pos: int, name: Seq<char>) -> Resolved {
    match action_named(family, name) {
        None => Err(unknown_identifier(name)),
        Some(info) => match info.reads {
            None => Err(unknown_identifier(name)),
            Some(Shape::Plain) => Ok(RequestView { target, field: info.field, access: AccessView::Read }),
            Some(Shape::Slotted) => match int_parameter_at(tokens, pos) {
                None => Err(missing_read_slot(family, info.field)),
                Some(i) => match checked_slot(family, wrapped(i as int) as usize, name) {
                    Err(e) => Err(e),
                    Ok(slot) => Ok(RequestView { target, field: info.field, access: AccessView::ReadSlot(slot) }),
                },
            },
        },
    }
}

/// Resolves the reading of an action field.
pub fn get_action(family: Family, target: Target, tokens: &Vec<ParsedValue>, pos: usize, name: &str) -> (r: Result<
    Request,
    RytmObjectError,
>)
    ensures
        resolves_to(r, read_action(family, target, parsed_views(tokens@), pos as int, name@)),
{
    let info = match lookup_action(family, name) {
        Some(info) => info,
        None => {
            return Err(RytmObjectError::Identifier(IdentifierError::InvalidType(name.to_owned())));
        },
    };
    match info.reads {
        None => Err(RytmObjectError::Identifier(IdentifierError::InvalidType(name.to_owned()))),
        Some(Shape::Plain) => Ok(Request { target, field: info.field, access: Access::Read }),
        Some(Shape::Slotted) => match int_parameter(tokens, pos) {
            None => Err(missing_read_slot_error(family, info.field)),
            Some(i) => match check_slot(family, wrap(i), name) {
                Err(e) => Err(e),
                Ok(slot) => Ok(Request { target, field: info.field, access: Access::ReadSlot(slot) }),
            },
        },
    }
}

/// Writing an action field.
///
/// A kit or a sound is first asked whether the field is its name, which
/// takes a non-empty text. Every other write must be given a number; then
/// the name must be that of a field of the family that can be written; and
/// then the number is put into the form the field takes. A slotted field
/// takes the number as the slot and must be followed by an integer amount.
pub open spec fn write_action(family: Family, target: Target, tokens: Seq<ParsedView>, pos: int, name: Seq<char>) -> Resolved {
    if (family == Family::Kit || family == Family::Sound) && name == "name"@ {
        match token_at(tokens, pos) {
            Some(ParsedView::ParameterString(text)) => if text.len() == 0 {
                Err(RytmObjectErrorView::Custom(empty_name_text()))
            } else {
                Ok(
                    RequestView {
                        target,
                        field: if family == Family::Kit {
                            Field::KitAction(KitAction::Name)
                        } else {
                            Field::SoundAction(SoundAction::Name)
                        },
                        access: AccessView::Write(ArgumentView::Text(text)),
                    },
                )
            },
            _ => Err(RytmObjectErrorView::Custom(name_form_text())),
        }
    } else {
        match token_at(tokens, pos) {
            Some(ParsedView::Parameter(param)) => match action_named(family, name) {
                None => Err(unknown_identifier(name)),
                Some(info) => match info.writes {
                    None => Err(unknown_identifier(name)),
                    Some(Takes::SlotAmount) => match int_parameter_at(tokens, pos + 1) {
                        None => Err(RytmObjectErrorView::Put(SetErrorView::InvalidFormat(write_slot_text(info.field)))),
                        Some(amount) => match checked_slot(family, wrapped(param.int_value()) as usize, name) {
                            Err(e) => Err(e),
                            Ok(slot) => Ok(
                                RequestView {
                                    target,
                                    field: info.field,
                                    access: AccessView::WriteSlot(slot, ArgumentView::Signed(amount)),
                                },
                            ),
                        },
                    },
                    Some(takes) => match argument_for(takes, param, name) {
                        Err(e) => Err(e),
                        Ok(argument) => Ok(
                            RequestView { target, field: info.field, access: AccessView::Write(argument) },
                        ),
                    },
                },
            },
            _ => Err(missing_parameter(family)),
        }
    }
}

/// Resolves the writing of an action field.
pub fn set_action(family: Family, target: Target, tokens: &Vec<ParsedValue>, pos: usize, name: &str) -> (r: Result<
    Request,
    RytmObjectError,
>)
    ensures
        resolves_to(r, write_action(family, target, parsed_views(tokens@), pos as int, name@)),
{
    let n = tokens.len();
    let named = match family {
        Family::Kit | Family::Sound => true,
        _ => false,
    };
    if named && str_eq(name, "name") {
        return match token(tokens, pos) {
            Some(ParsedValue::ParameterString(text)) => {
                if text.as_str().unicode_len() == 0 {
                    Err(RytmObjectError::Custom("Invalid parameter: name must not be empty.".to_owned()))
                } else {
                    let field = match family {
                        Family::Kit => Field::KitAction(KitAction::Name),
                        _ => Field::SoundAction(SoundAction::Name),
                    };
                    Ok(Request { target, field, access: Access::Write(Argument::Text(text.clone())) })
                }
            },
            _ => Err(
                RytmObjectError::Custom(
                    "Invalid parameter: name must be a symbol with maximum 15 characters long and use only ascii characters.".to_owned(),
                ),
            ),
        };
    }
    let param: Number = if named {
        match token(tokens, pos) {
            Some(ParsedValue::Parameter(param)) => *param,
            _ => {
                return Err(missing_parameter_error(family));
            },
        }
    } else {
        match number_or_set_error(tokens, pos) {
            Ok(param) => param,
            Err(e) => {
                return Err(e);
            },
        }
    };
    let info = match lookup_action(family, name) {
        Some(info) => info,
        None => {
            return Err(RytmObjectError::Identifier(IdentifierError::InvalidType(name.to_owned())));
        },
    };
    match info.writes {
        None => Err(RytmObjectError::Identifier(IdentifierError::InvalidType(name.to_owned()))),
        Some(Takes::SlotAmount) => match int_parameter(tokens, pos + 1) {
            None => Err(write_slot_error(info.field)),
            Some(amount) => match check_slot(family, param.get_unsigned(), name) {
                Err(e) => Err(e),
                Ok(slot) => Ok(
                    Request { target, field: info.field, access: Access::WriteSlot(slot, Argument::Signed(amount)) },
                ),
            },
        },
        Some(takes) => match make_argument(takes, param, name) {
            Err(e) => Err(e),
            Ok(argument) => Ok(Request { target, field: info.field, access: Access::Write(argument) }),
        },
    }
}

/// Reading an enum field: the name must be that of an enum of the family
/// that can be read. A slotted enum is read with the index of the slot
/// written in the place of the variant.
pub open spec fn read_enum(family: Family, target: Target, name: Seq<char>, value: Option<Seq<char>>) -> Resolved {
    match enum_named(family, name) {
        None => Err(unknown_enum(name)),
        Some(info) => match info.reads {
            None => Err(unknown_enum(name)),
            Some(Shape::Plain) => Ok(RequestView { target, field: info.field, access: AccessView::Read }),
            Some(Shape::Slotted) => {
                let slot = match value {
                    Some(v) => parsed_usize(v),
                    None => None,
                };
                match slot {
                    None => Err(
                        RytmObjectErrorView::Get(GetErrorView::InvalidFormat(read_variant_slot_text(info.field))),
                    ),
                    Some(i) => match checked_slot(family, i, name) {
                        Err(e) => Err(e),
                        Ok(slot) => Ok(
                            RequestView { target, field: info.field, access: AccessView::ReadSlot(slot) },
                        ),
                    },
                }
            },
        },
    }
}

/// Resolves the reading of an enum field.
pub fn get_enum(family: Family, target: Target, name: &str, value: &Option<String>) -> (r: Result<
    Request,
    RytmObjectError,
>)
    ensures
        resolves_to(r, read_enum(family, target, name@, opt_text(*value))),
{
    let info = match lookup_enum(family, name) {
        Some(info) => info,
        None => {
            return Err(RytmObjectError::Enum(EnumError::InvalidEnumType(name.to_owned())));
        },
    };
    match info.reads {
        None => Err(RytmObjectError::Enum(EnumError::InvalidEnumType(name.to_owned()))),
        Some(Shape::Plain) => Ok(Request { target, field: info.field, access: Access::Read }),
        Some(Shape::Slotted) => {
            let slot = match value {
                Some(v) => parse_usize(v.as_str()),
                None => None,
            };
            match slot {
                None => Err(read_variant_slot_error(info.field)),
                Some(i) => match check_slot(family, i, name) {
                    Err(e) => Err(e),
                    Ok(slot) => Ok(Request { target, field: info.field, access: Access::ReadSlot(slot) }),
                },
            }
        },
    }
}

/// Writing an enum field: a variant must be given; then the name must be
/// that of an enum of the family that can be written. A slotted enum must
/// be followed by the integer index of the slot.
pub open spec fn write_enum(
    family: Family,
    target: Target,
    tokens: Seq<ParsedView>,
    pos: int,
    name: Seq<char>,
    value: Option<Seq<char>>,
) -> Resolved {
    match value {
        None => Err(missing_variant(family)),
        Some(variant) => match enum_named(family, name) {
            None => Err(unknown_enum(name)),
            Some(info) => match info.writes {
                None => Err(unknown_enum(name)),
                Some(Shape::Plain) => Ok(
                    RequestView {
                        target,
                        field: info.field,
                        access: AccessView::Write(ArgumentView::Text(variant)),
                    },
                ),
                Some(Shape::Slotted) => match int_parameter_at(tokens, pos) {
                    None => Err(RytmObjectErrorView::Put(SetErrorView::InvalidFormat(write_slot_text(info.field)))),
                    Some(i) => match checked_slot(family, wrapped(i as int) as usize, name) {
                        Err(e) => Err(e),
                        Ok(slot) => Ok(
                            RequestView {
                                target,
                                field: info.field,
                                access: AccessView::WriteSlot(slot, ArgumentView::Text(variant)),
                            },
                        ),
                    },
                },
            },
        },
    }
}

/// Resolves the writing of an enum field.
pub fn set_enum(
    family: Family,
    target: Target,
    tokens: &Vec<ParsedValue>,
    pos: usize,
    name: &str,
    value: &Option<String>,
) -> (r: Result<Request, RytmObjectError>)
    ensures
        resolves_to(r, write_enum(family, target, parsed_views(tokens@), pos as int, name@, opt_text(*value))),
{
    let variant: &String = match value {
        Some(v) => v,
        None => {
            return Err(missing_variant_error(family));
        },
    };
    let info = match lookup_enum(family, name) {
        Some(info) => info,
        None => {
            return Err(RytmObjectError::Enum(EnumError::InvalidEnumType(name.to_owned())));
        },
    };
    match info.writes {
        None => Err(RytmObjectError::Enum(EnumError::InvalidEnumType(name.to_owned()))),
        Some(Shape::Plain) => Ok(
            Request { target, field: info.field, access: Access::Write(Argument::Text(variant.clone())) },
        ),
        Some(Shape::Slotted) => match int_parameter(tokens, pos) {
            None => Err(write_slot_error(info.field)),
            Some(i) => match check_slot(family, wrap(i), name) {
                Err(e) => Err(e),
                Ok(slot) => Ok(
                    Request {
                        target,
                        field: info.field,
                        access: Access::WriteSlot(slot, Argument::Text(variant.clone())),
                    },
                ),
            },
        },
    }
}

/// The end of every path: the token at the position names a field of the
/// object, as an identifier or as an enum, and the operation decides whether
/// the field is read or written.
pub open spec fn field_access(
    family: Family,
    target: Target,
    command_type: CommandType,
    tokens: Seq<ParsedView>,
    pos: int,
) -> Resolved {
    match token_at(tokens, pos) {
        Some(ParsedView::Enum(name, value)) => match command_type {
            CommandType::Get => read_enum(family, target, name, value),
            CommandType::Put => write_enum(family, target, tokens, pos + 1, name, value),
        },
        Some(ParsedView::Identifier(name)) => match command_type {
            CommandType::Get => read_action(family, target, tokens, pos + 1, name),
            CommandType::Put => write_action(family, target, tokens, pos + 1, name),
        },
        _ => Err(malformed(command_type)),
    }
}

/// Resolves the field a path ends in.
pub fn resolve_field(
    family: Family,
    target: Target,
    command_type: CommandType,
    tokens: &Vec<ParsedValue>,
    pos: usize,
) -> (r: Result<Request, RytmObjectError>)
    ensures
        resolves_to(r, field_access(family, target, command_type, parsed_views(tokens@), pos as int)),
{
    let n = tokens.len();
    match token(tokens, pos) {
        Some(ParsedValue::Enum(name, value)) => match command_type {
            CommandType::Get => get_enum(family, target, name.as_str(), value),
            CommandType::Put => set_enum(family, target, tokens, pos + 1, name.as_str(), value),
        },
        Some(ParsedValue::Identifier(name)) => match command_type {
            CommandType::Get => get_action(family, target, tokens, pos + 1, name.as_str()),
            CommandType::Put => set_action(family, target, tokens, pos + 1, name.as_str()),
        },
        _ => Err(malformed_error(command_type)),
    }
}

} // verus!
