//! What every request that comes out of dispatch has in common.
//!
//! Whoever carries a request out matches on its field and on the form of
//! its access. These laws say which combinations can occur, so that the
//! others need no handling.

use vstd::prelude::*;
use crate::api::access::{
    action_named,
    argument_for,
    checked_slot,
    enum_named,
    field_access,
    read_action,
    read_enum,
    token_at,
    write_action,
    write_enum,
};
use crate::api::sound::SoundSource;
use crate::api::{AccessView, ArgumentView, Family, Field, RequestView, Target, dispatched, global, kit, pattern, plock, settings, sound};
use crate::fields::kit::KitElement;
use crate::fields::{Shape, Takes};
use crate::parse::types::{Number, ObjectTypeSelector, ParsedView, PlockOperation};
use crate::types::CommandType;

verus! {

impl Field {
    /// The kind of object the field belongs to.
    pub open spec fn family(self) -> Family {
        match self {
            Field::PatternAction(_) | Field::PatternEnum(_) => Family::Pattern,
            Field::TrackAction(_) | Field::TrackEnum(_) => Family::Track,
            Field::TrigAction(_) | Field::TrigEnum(_) => Family::Trig,
            Field::KitAction(_) | Field::KitEnum(_) | Field::KitElement(_) => Family::Kit,
            Field::SoundAction(_) | Field::SoundEnum(_) => Family::Sound,
            Field::GlobalAction(_) | Field::GlobalEnum(_) => Family::Global,
            Field::SettingsAction(_) | Field::SettingsEnum(_) => Family::Settings,
        }
    }

    /// How the field is read, if it can be read.
    pub open spec fn reads(self) -> Option<Shape> {
        match self {
            Field::PatternAction(f) => f.reads(),
            Field::PatternEnum(f) => f.reads(),
            Field::TrackAction(f) => f.reads(),
            Field::TrackEnum(f) => f.reads(),
            Field::TrigAction(f) => f.reads(),
            Field::TrigEnum(f) => f.reads(),
            Field::KitAction(f) => f.reads(),
            Field::KitEnum(f) => f.reads(),
            Field::KitElement(f) => if f.takes().is_some() || f.holds_variant() {
                Some(Shape::Slotted)
            } else {
                None
            },
            Field::SoundAction(f) => f.reads(),
            Field::SoundEnum(f) => f.reads(),
            Field::GlobalAction(f) => f.reads(),
            Field::GlobalEnum(f) => f.reads(),
            Field::SettingsAction(f) => f.reads(),
            Field::SettingsEnum(f) => f.reads(),
        }
    }

    /// What the field takes when it is written as a whole, if it can be.
    pub open spec fn takes(self) -> Option<Takes> {
        match self {
            Field::PatternAction(f) => f.writes(),
            Field::TrackAction(f) => f.writes(),
            Field::TrigAction(f) => f.writes(),
            Field::KitAction(f) => f.writes(),
            Field::KitElement(f) => f.takes(),
            Field::SoundAction(f) => f.writes(),
            Field::GlobalAction(f) => f.writes(),
            Field::SettingsAction(f) => f.writes(),
            _ => None,
        }
    }

    /// How the field is written with the name of a variant, if it can be.
    pub open spec fn takes_variant(self) -> Option<Shape> {
        match self {
            Field::PatternEnum(f) => f.writes(),
            Field::TrackEnum(f) => f.writes(),
            Field::TrigEnum(f) => f.writes(),
            Field::KitEnum(f) => f.writes(),
            Field::KitElement(f) => if f.holds_variant() {
                Some(Shape::Slotted)
            } else {
                None
            },
            Field::SoundEnum(f) => f.writes(),
            Field::GlobalEnum(f) => f.writes(),
            Field::SettingsEnum(f) => f.writes(),
            _ => None,
        }
    }

    /// Whether a trig can hold a parameter lock on the field.
    pub open spec fn lockable(self) -> bool {
        match self {
            Field::KitAction(f) => f.lockable() && f.writes().is_some(),
            Field::KitEnum(f) => f.lockable(),
            Field::SoundAction(f) => f.lockable() && f.writes().is_some(),
            Field::SoundEnum(f) => f.lockable(),
            _ => false,
        }
    }

    /// Whether a slot index of the field is checked against four slots.
    pub open spec fn four_slots(self) -> bool {
        match self {
            Field::KitAction(_) | Field::KitEnum(_) | Field::SoundAction(_) | Field::SoundEnum(_) => true,
            _ => false,
        }
    }
}

impl Target {
    /// The kind of object the target is.
    pub open spec fn family(self) -> Family {
        match self {
            Target::Pattern { .. } => Family::Pattern,
            Target::Track { .. } => Family::Track,
            Target::Trig { .. } => Family::Trig,
            Target::Kit { .. } => Family::Kit,
            Target::KitSound { .. } | Target::PoolSound { .. } | Target::WorkBufferSound { .. } => Family::Sound,
            Target::Global { .. } => Family::Global,
            Target::Settings => Family::Settings,
        }
    }
}

impl ArgumentView {
    /// Whether the argument has the form a field takes.
    pub open spec fn fits(self, takes: Takes) -> bool {
        match takes {
            Takes::Unsigned => self is Unsigned,
            Takes::Signed => self is Signed,
            Takes::Flag => self is Flag,
            Takes::Real => self is Real,
            Takes::Name => self matches ArgumentView::Text(text) && text.len() > 0,
            Takes::SlotAmount => false,
        }
    }
}

impl RequestView {
    /// The request is one that dispatch can give.
    ///
    /// The target's indices lie within their collections. A parameter lock
    /// is asked of a trig, on a field that can be locked, with an argument
    /// of the form the field takes. Every other access is to a field of the
    /// target's own kind, in a form the tables allow for it: a plain field
    /// is read or written as a whole, a slotted one by slot, with a slot
    /// index below four where the field has four slots.
    pub open spec fn valid(self) -> bool {
        &&& self.target.valid()
        &&& match self.access {
            AccessView::ReadLock | AccessView::ClearLock => self.target is Trig && self.field.lockable(),
            AccessView::WriteLock(argument) => {
                &&& self.target is Trig
                &&& self.field.lockable()
                &&& match self.field.takes() {
                    Some(takes) => argument.fits(takes),
                    None => argument is Text,
                }
            },
            AccessView::Read => self.field.family() == self.target.family() && self.field.reads() == Some(
                Shape::Plain,
            ),
            AccessView::ReadSlot(slot) => {
                &&& self.field.family() == self.target.family()
                &&& self.field.reads() == Some(Shape::Slotted)
                &&& self.field.four_slots() ==> slot <= 3
            },
            AccessView::Write(argument) => {
                &&& self.field.family() == self.target.family()
                &&& match self.field.takes() {
                    Some(takes) => argument.fits(takes),
                    None => self.field.takes_variant() == Some(Shape::Plain) && argument is Text,
                }
            },
            AccessView::WriteSlot(slot, argument) => {
                &&& self.field.family() == self.target.family()
                &&& self.field.four_slots() ==> slot <= 3
                &&& match self.field {
                    Field::KitElement(e) => match e.takes() {
                        Some(takes) => argument.fits(takes),
                        None => e.holds_variant() && argument is Text,
                    },
                    _ => match self.field.takes() {
                        Some(takes) => takes == Takes::SlotAmount && argument is Signed,
                        None => self.field.takes_variant() == Some(Shape::Slotted) && argument is Text,
                    },
                }
            },
        }
    }
}

/// A number put into the form a field takes has that form.
pub proof fn argument_fits(takes: Takes, param: Number, name: Seq<char>)
    ensures
        argument_for(takes, param, name) matches Ok(argument) ==> argument.fits(takes),
{
}

/// An action field is read in a form the tables allow.
pub proof fn read_action_is_valid(family: Family, target: Target, tokens: Seq<ParsedView>, pos: int, name: Seq<char>)
    requires
        target.valid(),
        target.family() == family,
    ensures
        read_action(family, target, tokens, pos, name) matches Ok(request) ==> request.valid(),
{
}

/// An action field is written in a form the tables allow.
pub proof fn write_action_is_valid(family: Family, target: Target, tokens: Seq<ParsedView>, pos: int, name: Seq<char>)
    requires
        target.valid(),
        target.family() == family,
    ensures
        write_action(family, target, tokens, pos, name) matches Ok(request) ==> request.valid(),
{
    if (family == Family::Kit || family == Family::Sound) && name == "name"@ {
    } else if let Some(ParsedView::Parameter(param)) = token_at(tokens, pos) {
        if let Some(info) = action_named(family, name) {
            if let Some(takes) = info.writes {
                argument_fits(takes, param, name);
            }
        }
    }
}

/// An enum field is read in a form the tables allow.
pub proof fn read_enum_is_valid(family: Family, target: Target, name: Seq<char>, value: Option<Seq<char>>)
    requires
        target.valid(),
        target.family() == family,
    ensures
        read_enum(family, target, name, value) matches Ok(request) ==> request.valid(),
{
}

/// An enum field is written in a form the tables allow.
pub proof fn write_enum_is_valid(
    family: Family,
    target: Target,
    tokens: Seq<ParsedView>,
    pos: int,
    name: Seq<char>,
    value: Option<Seq<char>>,
)
    requires
        target.valid(),
        target.family() == family,
    ensures
        write_enum(family, target, tokens, pos, name, value) matches Ok(request) ==> request.valid(),
{
}

/// A field named at the end of a path is accessed in a form the tables
/// allow.
pub proof fn field_access_is_valid(
    family: Family,
    target: Target,
    command_type: CommandType,
    tokens: Seq<ParsedView>,
    pos: int,
)
    requires
        target.valid(),
        target.family() == family,
    ensures
        field_access(family, target, command_type, tokens, pos) matches Ok(request) ==> request.valid(),
{
    match token_at(tokens, pos) {
        Some(ParsedView::Enum(name, value)) => {
            read_enum_is_valid(family, target, name, value);
            write_enum_is_valid(family, target, tokens, pos + 1, name, value);
        },
        Some(ParsedView::Identifier(name)) => {
            read_action_is_valid(family, target, tokens, pos + 1, name);
            write_action_is_valid(family, target, tokens, pos + 1, name);
        },
        _ => {},
    }
}

/// A parameter-lock command asks for a lock on a field that can be locked.
pub proof fn lock_request_is_valid(
    target: Target,
    tokens: Seq<ParsedView>,
    pos: int,
    op: PlockOperation,
    command_type: CommandType,
)
    requires
        target.valid(),
        target is Trig,
    ensures
        plock::requested(target, tokens, pos, op, command_type) matches Ok(request) ==> request.valid(),
{
    if let Some(ParsedView::Identifier(name)) = token_at(tokens, pos) {
        if let Some(ParsedView::Parameter(param)) = token_at(tokens, pos + 1) {
            if let Some((_, takes)) = plock::lockable_action(name) {
                argument_fits(takes, param, name);
            }
        }
    }
}

/// Every request for a pattern, a track or a trig is valid.
pub proof fn pattern_request_is_valid(tokens: Seq<ParsedView>, index: Option<usize>, command_type: CommandType)
    ensures
        pattern::requested(tokens, index, command_type) matches Ok(request) ==> request.valid(),
{
    if pattern::requested(tokens, index, command_type) is Ok {
        match token_at(tokens, 1) {
            Some(ParsedView::TrackIndex(track)) => match token_at(tokens, 2) {
                Some(ParsedView::TrigIndex(trig)) => {
                    let target = Target::Trig { pattern: index, track, trig };
                    match token_at(tokens, 3) {
                        Some(ParsedView::PlockOperation(op)) => {
                            lock_request_is_valid(target, tokens, 4, op, command_type);
                        },
                        _ => {
                            field_access_is_valid(Family::Trig, target, command_type, tokens, 3);
                        },
                    }
                },
                _ => {
                    field_access_is_valid(
                        Family::Track,
                        Target::Track { pattern: index, track },
                        command_type,
                        tokens,
                        2,
                    );
                },
            },
            _ => {
                field_access_is_valid(Family::Pattern, Target::Pattern { pattern: index }, command_type, tokens, 1);
            },
        }
    }
}

/// An entry of a kit element is read or written in a form the tables
/// allow.
pub proof fn entry_request_is_valid(
    target: Target,
    element: Seq<char>,
    index: usize,
    tokens: Seq<ParsedView>,
    pos: int,
)
    requires
        target.valid(),
        target is Kit,
    ensures
        kit::read_entry(target, element, index) matches Ok(request) ==> request.valid(),
        kit::write_entry(target, element, index, tokens, pos) matches Ok(request) ==> request.valid(),
{
    if let Some(ParsedView::Parameter(param)) = token_at(tokens, pos) {
        if let Some(e) = KitElement::named(element) {
            if let Some(takes) = e.takes() {
                argument_fits(takes, param, element);
            }
        }
    }
}

/// Every request for a kit, an entry of its elements or one of its sounds
/// is valid.
pub proof fn kit_request_is_valid(tokens: Seq<ParsedView>, index: Option<usize>, command_type: CommandType)
    ensures
        kit::requested(tokens, index, command_type) matches Ok(request) ==> request.valid(),
{
    if kit::requested(tokens, index, command_type) is Ok {
        match token_at(tokens, 1) {
            Some(ParsedView::Element(element)) => match token_at(tokens, 2) {
                Some(ParsedView::SoundIndex(i)) => {
                    field_access_is_valid(
                        Family::Sound,
                        Target::KitSound { kit: index, sound: i },
                        command_type,
                        tokens,
                        3,
                    );
                    entry_request_is_valid(Target::Kit { kit: index }, element, 0, tokens, 3);
                },
                Some(ParsedView::ElementIndex(entry)) => {
                    entry_request_is_valid(Target::Kit { kit: index }, element, entry, tokens, 3);
                },
                _ => {},
            },
            _ => {
                field_access_is_valid(Family::Kit, Target::Kit { kit: index }, command_type, tokens, 1);
            },
        }
    }
}

/// Every request that dispatch gives is valid.
pub proof fn dispatched_request_is_valid(tokens: Seq<ParsedView>, command_type: CommandType)
    ensures
        dispatched(tokens, command_type) matches Ok(request) ==> request.valid(),
{
    match token_at(tokens, 0) {
        Some(ParsedView::ObjectType(selector)) => match selector {
            ObjectTypeSelector::Pattern(_) | ObjectTypeSelector::PatternWorkBuffer => {
                pattern_request_is_valid(tokens, selector.index(), command_type);
            },
            ObjectTypeSelector::Kit(_) | ObjectTypeSelector::KitWorkBuffer => {
                kit_request_is_valid(tokens, selector.index(), command_type);
            },
            ObjectTypeSelector::Sound(index) => {
                if index <= 11 {
                    field_access_is_valid(Family::Sound, Target::PoolSound { sound: index }, command_type, tokens, 1);
                }
            },
            ObjectTypeSelector::SoundWorkBuffer(index) => {
                if index <= 11 {
                    field_access_is_valid(
                        Family::Sound,
                        Target::WorkBufferSound { sound: index },
                        command_type,
                        tokens,
                        1,
                    );
                }
            },
            ObjectTypeSelector::Global(_) | ObjectTypeSelector::GlobalWorkBuffer => {
                let index = selector.index();
                if global::requested(tokens, index, command_type) is Ok {
                    field_access_is_valid(Family::Global, Target::Global { global: index }, command_type, tokens, 1);
                }
            },
            ObjectTypeSelector::Settings => {
                field_access_is_valid(Family::Settings, Target::Settings, command_type, tokens, 1);
            },
        },
        _ => {},
    }
}

/// A command that writes a field and a command that reads it, made on the
/// same object under the same name, ask for the same field of the same
/// object: what the one writes is what the other reads.
pub proof fn read_and_write_meet(
    family: Family,
    target: Target,
    name: Seq<char>,
    written: Seq<ParsedView>,
    read: Seq<ParsedView>,
    pos: int,
)
    ensures
        match (write_action(family, target, written, pos, name), read_action(family, target, read, pos, name)) {
            (Ok(w), Ok(r)) => w.target == r.target && w.field == r.field,
            _ => true,
        },
{
    reveal_strlit("name");
    if (family == Family::Kit || family == Family::Sound) && name == "name"@ {
        crate::fields::kit::KitAction::Name.named_by_its_name();
        crate::fields::sound::SoundAction::Name.named_by_its_name();
    }
}

/// A command that writes an enum and a command that reads it, made on the
/// same object under the same name, ask for the same field of the same
/// object.
pub proof fn enum_read_and_write_meet(
    family: Family,
    target: Target,
    name: Seq<char>,
    written: Seq<ParsedView>,
    pos: int,
    variant: Option<Seq<char>>,
    asked: Option<Seq<char>>,
)
    ensures
        match (write_enum(family, target, written, pos, name, variant), read_enum(family, target, name, asked)) {
            (Ok(w), Ok(r)) => w.target == r.target && w.field == r.field,
            _ => true,
        },
{
}

} // verus!
