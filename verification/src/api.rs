//! Dispatch: from the tokens of a command to the one access they ask for.
//!
//! The project tree itself is owned by a collaborator. This module decides
//! which object a command addresses, which of its fields, and what is to be
//! done with it; it checks every parameter that can be checked without the
//! tree; and it hands the result on as a [`Request`]. Whoever holds the tree
//! carries the request out and reports a [`Reading`], from which
//! [`respond`] makes the reply.

use vstd::prelude::*;

pub mod access;
pub mod global;
pub mod kit;
pub mod pattern;
pub mod plock;
pub mod settings;
pub mod sound;
pub mod wellformed;

use crate::fields::global::{GlobalAction, GlobalEnum};
use crate::fields::kit::{KitAction, KitElement, KitEnum};
use crate::fields::pattern::{PatternAction, PatternEnum, TrackAction, TrackEnum, TrigAction, TrigEnum};
use crate::fields::settings::{SettingsAction, SettingsEnum};
use crate::fields::sound::{SoundAction, SoundEnum};
use crate::api::access::{Resolved, malformed, malformed_error, resolves_to, token, token_at};
use crate::api::sound::SoundSource;
use crate::error::{ParseErrorView, QueryError, RytmObjectError, RytmObjectErrorView, SendError};
use crate::parse::types::{Number, ObjectTypeSelector, ParsedValue, ParsedView, parsed_views, value_view};
use crate::parse::{parse_command, parsed, peek};
use crate::types::CommandType;
use crate::value::RytmValueList;
use crate::value::{RytmValue, ValueView, opt_value};

verus! {

/// The kinds of object that have fields.
#[derive(Debug, Clone, Copy, PartialEq, Eq, Structural)]
pub enum Family {
    Pattern,
    Track,
    Trig,
    Kit,
    Sound,
    Global,
    Settings,
}

/// A field of some object.
#[derive(Debug, Clone, Copy, PartialEq, Eq, Structural)]
pub enum Field {
    PatternAction(PatternAction),
    PatternEnum(PatternEnum),
    TrackAction(TrackAction),
    TrackEnum(TrackEnum),
    TrigAction(TrigAction),
    TrigEnum(TrigEnum),
    KitAction(KitAction),
    KitEnum(KitEnum),
    KitElement(KitElement),
    SoundAction(SoundAction),
    SoundEnum(SoundEnum),
    GlobalAction(GlobalAction),
    GlobalEnum(GlobalEnum),
    SettingsAction(SettingsAction),
    SettingsEnum(SettingsEnum),
}

impl Field {
    /// The word by which a command names the field.
    pub open spec fn name(self) -> Seq<char> {
        match self {
            Field::PatternAction(f) => f.name(),
            Field::PatternEnum(f) => f.name(),
            Field::TrackAction(f) => f.name(),
            Field::TrackEnum(f) => f.name(),
            Field::TrigAction(f) => f.name(),
            Field::TrigEnum(f) => f.name(),
            Field::KitAction(f) => f.name(),
            Field::KitEnum(f) => f.name(),
            Field::KitElement(f) => f.name(),
            Field::SoundAction(f) => f.name(),
            Field::SoundEnum(f) => f.name(),
            Field::GlobalAction(f) => f.name(),
            Field::GlobalEnum(f) => f.name(),
            Field::SettingsAction(f) => f.name(),
            Field::SettingsEnum(f) => f.name(),
        }
    }

    /// The word by which a command names the field.
    pub fn as_str(self) -> (r: &'static str)
        ensures
            r@ == self.name(),
    {
        match self {
            Field::PatternAction(f) => f.as_str(),
            Field::PatternEnum(f) => f.as_str(),
            Field::TrackAction(f) => f.as_str(),
            Field::TrackEnum(f) => f.as_str(),
            Field::TrigAction(f) => f.as_str(),
            Field::TrigEnum(f) => f.as_str(),
            Field::KitAction(f) => f.as_str(),
            Field::KitEnum(f) => f.as_str(),
            Field::KitElement(f) => f.as_str(),
            Field::SoundAction(f) => f.as_str(),
            Field::SoundEnum(f) => f.as_str(),
            Field::GlobalAction(f) => f.as_str(),
            Field::GlobalEnum(f) => f.as_str(),
            Field::SettingsAction(f) => f.as_str(),
            Field::SettingsEnum(f) => f.as_str(),
        }
    }
}

/// The object an access is made on. An index that is left out stands for the
/// working copy.
#[derive(Debug, Clone, Copy, PartialEq, Eq, Structural)]
pub enum Target {
    Pattern { pattern: Option<usize> },
    Track { pattern: Option<usize>, track: usize },
    Trig { pattern: Option<usize>, track: usize, trig: usize },
    Kit { kit: Option<usize> },
    KitSound { kit: Option<usize>, sound: usize },
    PoolSound { sound: usize },
    WorkBufferSound { sound: usize },
    Global { global: Option<usize> },
    Settings,
}

/// Whether an optional index lies within a bound.
pub open spec fn within(index: Option<usize>, max: usize) -> bool {
    match index {
        Some(i) => i <= max,
        None => true,
    }
}

impl Target {
    /// Every index lies within its collection: 128 patterns and kits, 13
    /// tracks of 64 trigs, 12 sounds, 4 globals.
    pub open spec fn valid(self) -> bool {
        match self {
            Target::Pattern { pattern } => within(pattern, 127),
            Target::Track { pattern, track } => within(pattern, 127) && track <= 12,
            Target::Trig { pattern, track, trig } => within(pattern, 127) && track <= 12 && trig <= 63,
            Target::Kit { kit } => within(kit, 127),
            Target::KitSound { kit, sound } => within(kit, 127) && sound <= 11,
            Target::PoolSound { sound } => sound <= 11,
            Target::WorkBufferSound { sound } => sound <= 11,
            Target::Global { global } => within(global, 3),
            Target::Settings => true,
        }
    }
}

/// The value a write carries, in the form the field takes it.
#[derive(Debug, Clone, PartialEq)]
pub enum Argument {
    Unsigned(usize),
    Signed(isize),
    Flag(bool),
    Real(Number),
    /// A name, or the name of an enum's variant.
    Text(String),
}

/// What an [`Argument`] stands for.
pub enum ArgumentView {
    Unsigned(usize),
    Signed(isize),
    Flag(bool),
    Real(Number),
    Text(Seq<char>),
}

impl View for Argument {
    type V = ArgumentView;

    open spec fn view(&self) -> ArgumentView {
        match self {
            Argument::Unsigned(v) => ArgumentView::Unsigned(*v),
            Argument::Signed(v) => ArgumentView::Signed(*v),
            Argument::Flag(v) => ArgumentView::Flag(*v),
            Argument::Real(v) => ArgumentView::Real(*v),
            Argument::Text(v) => ArgumentView::Text(v@),
        }
    }
}

/// What is to be done with a field.
#[derive(Debug, Clone, PartialEq)]
pub enum Access {
    /// Read the field.
    Read,
    /// Read one slot of the field.
    ReadSlot(usize),
    /// Read the parameter lock a trig holds on the field.
    ReadLock,
    /// Remove the parameter lock a trig holds on the field.
    ClearLock,
    /// Write the field.
    Write(Argument),
    /// Write one slot of the field.
    WriteSlot(usize, Argument),
    /// Lock the field on a trig.
    WriteLock(Argument),
}

/// What an [`Access`] stands for.
pub enum AccessView {
    Read,
    ReadSlot(usize),
    ReadLock,
    ClearLock,
    Write(ArgumentView),
    WriteSlot(usize, ArgumentView),
    WriteLock(ArgumentView),
}

impl View for Access {
    type V = AccessView;

    open spec fn view(&self) -> AccessView {
        match self {
            Access::Read => AccessView::Read,
            Access::ReadSlot(i) => AccessView::ReadSlot(*i),
            Access::ReadLock => AccessView::ReadLock,
            Access::ClearLock => AccessView::ClearLock,
            Access::Write(a) => AccessView::Write(a@),
            Access::WriteSlot(i, a) => AccessView::WriteSlot(*i, a@),
            Access::WriteLock(a) => AccessView::WriteLock(a@),
        }
    }
}

impl AccessView {
    /// The access reads and leaves the tree as it is.
    pub open spec fn reads(self) -> bool {
        self is Read || self is ReadSlot || self is ReadLock
    }
}

/// One access to the project tree: on which object, to which field, and what
/// to do there.
#[derive(Debug, Clone, PartialEq)]
pub struct Request {
    pub target: Target,
    pub field: Field,
    pub access: Access,
}

/// What a [`Request`] stands for.
pub struct RequestView {
    pub target: Target,
    pub field: Field,
    pub access: AccessView,
}

impl View for Request {
    type V = RequestView;

    open spec fn view(&self) -> RequestView {
        RequestView { target: self.target, field: self.field, access: self.access@ }
    }
}

/// What came of carrying out a request that reads.
#[derive(Debug, Clone, PartialEq)]
pub struct Reading {
    /// The index the object reports of itself.
    pub index: usize,
    /// For a sound of a kit, the index the kit reports of itself.
    pub owner: usize,
    /// What was read; nothing, if a parameter lock was read that is not set.
    pub value: Option<RytmValue>,
}

/// The reply to a command.
#[derive(Debug, Clone, PartialEq)]
pub enum Response {
    /// A field of a pattern, kit, sound, global or the settings, or a
    /// parameter lock of a trig: the object's index, the field's name, the
    /// value.
    Common { index: usize, key: RytmValue, value: RytmValue },
    /// An entry of a kit element, or a field of a sound of a kit.
    KitElement { kit_index: usize, element_index: usize, element_type: RytmValue, value: RytmValue },
    /// A field of a track.
    Track { pattern_index: usize, track_index: usize, key: RytmValue, value: RytmValue },
    /// A field of a trig.
    Trig { pattern_index: usize, track_index: usize, trig_index: usize, key: RytmValue, value: RytmValue },
    /// The command was carried out and there is nothing to report.
    Done,
}

/// What a [`Response`] stands for.
pub enum ResponseView {
    Common { index: usize, key: ValueView, value: ValueView },
    KitElement { kit_index: usize, element_index: usize, element_type: ValueView, value: ValueView },
    Track { pattern_index: usize, track_index: usize, key: ValueView, value: ValueView },
    Trig { pattern_index: usize, track_index: usize, trig_index: usize, key: ValueView, value: ValueView },
    Done,
}

impl View for Response {
    type V = ResponseView;

    open spec fn view(&self) -> ResponseView {
        match self {
            Response::Common { index, key, value } => ResponseView::Common {
                index: *index,
                key: key@,
                value: value@,
            },
            Response::KitElement { kit_index, element_index, element_type, value } => ResponseView::KitElement {
                kit_index: *kit_index,
                element_index: *element_index,
                element_type: element_type@,
                value: value@,
            },
            Response::Track { pattern_index, track_index, key, value } => ResponseView::Track {
                pattern_index: *pattern_index,
                track_index: *track_index,
                key: key@,
                value: value@,
            },
            Response::Trig { pattern_index, track_index, trig_index, key, value } => ResponseView::Trig {
                pattern_index: *pattern_index,
                track_index: *track_index,
                trig_index: *trig_index,
                key: key@,
                value: value@,
            },
            Response::Done => ResponseView::Done,
        }
    }
}

/// An index as the integer with the same bits, the way the machine reads an
/// unsigned number as signed.
pub open spec fn signed(u: usize) -> int {
    if u <= isize::MAX {
        u as int
    } else {
        u - usize::MAX - 1
    }
}

/// An index as a value.
pub fn index_value(u: usize) -> (r: RytmValue)
    ensures
        r@ == ValueView::Int(signed(u) as isize),
{
    if u <= isize::MAX as usize {
        RytmValue::Int(u as isize)
    } else {
        RytmValue::Int(((u as i128) - (usize::MAX as i128) - 1) as isize)
    }
}

/// The values a reply is made of, in the order in which they are handed
/// back: the indices of the path, the name of the field, the value. An
/// acknowledgement is made of none.
pub open spec fn reply_values(r: ResponseView) -> Seq<ValueView> {
    match r {
        ResponseView::Common { index, key, value } => seq![ValueView::Int(signed(index) as isize), key, value],
        ResponseView::KitElement { kit_index, element_index, element_type, value } => seq![
            ValueView::Int(signed(kit_index) as isize),
            ValueView::Int(signed(element_index) as isize),
            element_type,
            value,
        ],
        ResponseView::Track { pattern_index, track_index, key, value } => seq![
            ValueView::Int(signed(pattern_index) as isize),
            ValueView::Int(signed(track_index) as isize),
            key,
            value,
        ],
        ResponseView::Trig { pattern_index, track_index, trig_index, key, value } => seq![
            ValueView::Int(signed(pattern_index) as isize),
            ValueView::Int(signed(track_index) as isize),
            ValueView::Int(signed(trig_index) as isize),
            key,
            value,
        ],
        ResponseView::Done => seq![],
    }
}

impl Response {
    /// The values the reply is made of, as they are handed back.
    pub fn into_values(self) -> (r: RytmValueList)
        ensures
            r@ == reply_values(self@),
    {
        let mut values: Vec<RytmValue> = Vec::new();
        match self {
            Response::Common { index, key, value } => {
                values.push(index_value(index));
                values.push(key);
                values.push(value);
            },
            Response::KitElement { kit_index, element_index, element_type, value } => {
                values.push(index_value(kit_index));
                values.push(index_value(element_index));
                values.push(element_type);
                values.push(value);
            },
            Response::Track { pattern_index, track_index, key, value } => {
                values.push(index_value(pattern_index));
                values.push(index_value(track_index));
                values.push(key);
                values.push(value);
            },
            Response::Trig { pattern_index, track_index, trig_index, key, value } => {
                values.push(index_value(pattern_index));
                values.push(index_value(track_index));
                values.push(index_value(trig_index));
                values.push(key);
                values.push(value);
            },
            Response::Done => {},
        }
        let r = RytmValueList(values);
        assert(r@ =~= reply_values(self@));
        r
    }
}

/// An optional index, or zero where it is left out.
pub open spec fn or_zero(index: Option<usize>) -> usize {
    match index {
        Some(i) => i,
        None => 0,
    }
}

/// The value a reading holds; the symbol `unset` where it holds none.
pub open spec fn value_read(value: Option<ValueView>) -> ValueView {
    match value {
        Some(v) => v,
        None => ValueView::Symbol("unset"@),
    }
}

/// The reply to a request once it has been carried out.
///
/// A request that writes is answered with [`Response::Done`]. A request that
/// reads is answered with the value read, the name of the field, and as
/// much of the path as tells the caller which object the value belongs to.
pub open spec fn reply(request: RequestView, index: usize, owner: usize, value: Option<ValueView>) -> ResponseView {
    let key = ValueView::Symbol(request.field.name());
    let value = value_read(value);
    if !request.access.reads() {
        ResponseView::Done
    } else {
        match request.target {
            Target::Track { pattern, track } => ResponseView::Track {
                pattern_index: or_zero(pattern),
                track_index: index,
                key,
                value,
            },
            Target::Trig { pattern, track, trig } => if request.access is ReadLock {
                ResponseView::Common { index: trig, key, value }
            } else {
                ResponseView::Trig { pattern_index: or_zero(pattern), track_index: track, trig_index: index, key, value }
            },
            Target::Kit { kit } => match request.access {
                AccessView::ReadSlot(slot) => if request.field is KitElement {
                    ResponseView::KitElement { kit_index: index, element_index: slot, element_type: key, value }
                } else {
                    ResponseView::Common { index, key, value }
                },
                _ => ResponseView::Common { index, key, value },
            },
            Target::KitSound { kit, sound } => ResponseView::KitElement {
                kit_index: owner,
                element_index: index,
                element_type: key,
                value,
            },
            Target::Settings => ResponseView::Common { index: 0, key, value },
            _ => ResponseView::Common { index, key, value },
        }
    }
}

/// Makes the reply to a request from what came of carrying it out.
pub fn respond(request: &Request, reading: Reading) -> (r: Response)
    ensures
        r@ == reply(request@, reading.index, reading.owner, opt_value(reading.value)),
{
    let reads = match request.access {
        Access::Read | Access::ReadSlot(_) | Access::ReadLock => true,
        _ => false,
    };
    if !reads {
        return Response::Done;
    }
    let key = RytmValue::symbol(request.field.as_str());
    let index = reading.index;
    let value = match reading.value {
        Some(v) => v,
        None => RytmValue::symbol("unset"),
    };
    match request.target {
        Target::Track { pattern, track } => Response::Track {
            pattern_index: pattern.unwrap_or(0),
            track_index: index,
            key,
            value,
        },
        Target::Trig { pattern, track, trig } => match request.access {
            Access::ReadLock => Response::Common { index: trig, key, value },
            _ => Response::Trig { pattern_index: pattern.unwrap_or(0), track_index: track, trig_index: index, key, value },
        },
        Target::Kit { kit } => match (&request.access, request.field) {
            (Access::ReadSlot(slot), Field::KitElement(_)) => Response::KitElement {
                kit_index: index,
                element_index: *slot,
                element_type: key,
                value,
            },
            _ => Response::Common { index, key, value },
        },
        Target::KitSound { kit, sound } => Response::KitElement {
            kit_index: reading.owner,
            element_index: index,
            element_type: key,
            value,
        },
        Target::Settings => Response::Common { index: 0, key, value },
        _ => Response::Common { index, key, value },
    }
}

/// What the tokens of a command ask for: the first token is the object,
/// and the kind of the object decides how the rest is read.
pub open spec fn dispatched(tokens: Seq<ParsedView>, command_type: CommandType) -> Resolved {
    match token_at(tokens, 0) {
        Some(ParsedView::ObjectType(selector)) => match selector {
            ObjectTypeSelector::Pattern(index) => pattern::requested(tokens, Some(index), command_type),
            ObjectTypeSelector::PatternWorkBuffer => pattern::requested(tokens, None, command_type),
            ObjectTypeSelector::Kit(index) => kit::requested(tokens, Some(index), command_type),
            ObjectTypeSelector::KitWorkBuffer => kit::requested(tokens, None, command_type),
            ObjectTypeSelector::Sound(index) => sound::requested(tokens, index, SoundSource::Pool, command_type),
            ObjectTypeSelector::SoundWorkBuffer(index) => sound::requested(
                tokens,
                index,
                SoundSource::WorkBuffer,
                command_type,
            ),
            ObjectTypeSelector::Global(index) => global::requested(tokens, Some(index), command_type),
            ObjectTypeSelector::GlobalWorkBuffer => global::requested(tokens, None, command_type),
            ObjectTypeSelector::Settings => settings::requested(tokens, command_type),
        },
        _ => Err(malformed(command_type)),
    }
}

/// Resolves the tokens of a command to the access they ask for.
pub fn dispatch(tokens: &Vec<ParsedValue>, command_type: CommandType) -> (r: Result<Request, RytmObjectError>)
    ensures
        resolves_to(r, dispatched(parsed_views(tokens@), command_type)),
        r matches Ok(request) ==> request@.valid(),
{
    proof {
        wellformed::dispatched_request_is_valid(parsed_views(tokens@), command_type);
    }
    let kind: ObjectTypeSelector = match token(tokens, 0) {
        Some(ParsedValue::ObjectType(kind)) => *kind,
        _ => {
            return Err(malformed_error(command_type));
        },
    };
    match kind {
        ObjectTypeSelector::Pattern(index) => pattern::handle(tokens, Some(index), command_type),
        ObjectTypeSelector::PatternWorkBuffer => pattern::handle(tokens, None, command_type),
        ObjectTypeSelector::Kit(index) => kit::handle(tokens, Some(index), command_type),
        ObjectTypeSelector::KitWorkBuffer => kit::handle(tokens, None, command_type),
        ObjectTypeSelector::Sound(index) => sound::handle(tokens, index, SoundSource::Pool, command_type),
        ObjectTypeSelector::SoundWorkBuffer(index) => sound::handle(
            tokens,
            index,
            SoundSource::WorkBuffer,
            command_type,
        ),
        ObjectTypeSelector::Global(index) => global::handle(tokens, Some(index), command_type),
        ObjectTypeSelector::GlobalWorkBuffer => global::handle(tokens, None, command_type),
        ObjectTypeSelector::Settings => settings::handle(tokens, command_type),
    }
}

/// What a command asks for: its values are read into tokens, and the tokens
/// are resolved to an access.
pub open spec fn commanded(values: Seq<ValueView>, command_type: CommandType) -> Resolved {
    match parsed(values, command_type) {
        Err(e) => Err(RytmObjectErrorView::Parse(e)),
        Ok(tokens) => dispatched(tokens, command_type),
    }
}

/// Resolves a command, given as the operation and the values after it, to
/// the one access to the project tree that it asks for.
pub fn command(selector: CommandType, values: &RytmValueList) -> (r: Result<Request, RytmObjectError>)
    ensures
        resolves_to(r, commanded(values@, selector)),
        r matches Ok(request) ==> request@.valid(),
{
    match parse_command(values, selector) {
        Err(e) => Err(RytmObjectError::Parse(e)),
        Ok(tokens) => dispatch(&tokens, selector),
    }
}

/// The object that the first values of a list select, or the given error
/// if the list is empty.
pub open spec fn selected(values: Seq<ValueView>, empty: RytmObjectErrorView) -> Result<
    ObjectTypeSelector,
    RytmObjectErrorView,
> {
    if values.len() == 0 {
        Err(empty)
    } else {
        match ObjectTypeSelector::resolved(values[0], peek(values, 1)) {
            Ok(selector) => Ok(selector),
            Err(e) => Err(RytmObjectErrorView::Parse(e)),
        }
    }
}

fn select(values: &RytmValueList) -> (r: Option<Result<ObjectTypeSelector, RytmObjectError>>)
    ensures
        match r {
            None => values@.len() == 0,
            Some(Ok(selector)) => values@.len() > 0 && ObjectTypeSelector::resolved(values@[0], peek(values@, 1))
                == Ok::<ObjectTypeSelector, ParseErrorView>(selector) && selector.valid(),
            Some(Err(e)) => e@ matches RytmObjectErrorView::Parse(f) && values@.len() > 0
                && ObjectTypeSelector::resolved(values@[0], peek(values@, 1)) == Err::<
                ObjectTypeSelector,
                ParseErrorView,
            >(f),
        },
{
    let first = match values.first() {
        Some(v) => v,
        None => {
            return None;
        },
    };
    match ObjectTypeSelector::resolve(first, values.get(1)) {
        Ok(selector) => Some(Ok(selector)),
        Err(e) => Some(Err(RytmObjectError::Parse(e))),
    }
}

/// The object a query asks the device for: the one that the first value,
/// and the second where the object's type takes an index, select.
pub fn query_selector(query: &RytmValueList) -> (r: Result<ObjectTypeSelector, RytmObjectError>)
    ensures
        match (r, selected(query@, RytmObjectErrorView::Query(QueryError::InvalidFormat))) {
            (Ok(a), Ok(b)) => a == b && a.valid(),
            (Err(e), Err(f)) => e@ == f,
            _ => false,
        },
{
    match select(query) {
        None => Err(RytmObjectError::Query(QueryError::InvalidFormat)),
        Some(r) => r,
    }
}

/// The object that is to be sent to the device: the one that the first
/// value, and the second where the object's type takes an index, select.
pub fn send_selector(selector: &RytmValueList) -> (r: Result<ObjectTypeSelector, RytmObjectError>)
    ensures
        match (r, selected(selector@, RytmObjectErrorView::Send(SendError::InvalidFormat))) {
            (Ok(a), Ok(b)) => a == b && a.valid(),
            (Err(e), Err(f)) => e@ == f,
            _ => false,
        },
{
    match select(selector) {
        None => Err(RytmObjectError::Send(SendError::InvalidFormat)),
        Some(r) => r,
    }
}

} // verus!
