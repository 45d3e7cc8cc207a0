//! Parameter locks: reading, setting and clearing the overrides a trig holds
//! on the fields of its sound and of the kit's effects.

use vstd::prelude::*;
use vstd::string::StringExecFns;
use crate::api::access::{
    Resolved,
    argument_for,
    make_argument,
    malformed,
    malformed_error,
    resolves_to,
    token,
    token_at,
    unknown_enum,
    unknown_identifier,
};
use crate::api::{Access, AccessView, Argument, ArgumentView, Field, Request, RequestView, Target};
use crate::error::{
    EnumError,
    GetError,
    GetErrorView,
    IdentifierError,
    RytmObjectError,
    RytmObjectErrorView,
    SetError,
    SetErrorView,
};
use crate::fields::kit::{KitAction, KitEnum};
use crate::fields::sound::{SoundAction, SoundEnum};
use crate::fields::Takes;
use crate::parse::types::{ParsedValue, ParsedView, PlockOperation, parsed_views};
use crate::types::CommandType;

verus! {

/// Whether a parameter-lock operation goes with a command: reading a lock
/// goes with a command that reads, setting and clearing one with a command
/// that writes.
pub open spec fn goes_with(op: PlockOperation, command_type: CommandType) -> bool {
    match op {
        PlockOperation::Get => command_type == CommandType::Get,
        PlockOperation::Put | PlockOperation::Clear => command_type == CommandType::Put,
    }
}

/// The sentence for an operation that does not go with the command. It
/// names the operation and the ones that would go with the command.
pub open spec fn mismatch_text(op: PlockOperation, command_type: CommandType) -> Seq<char> {
    match command_type {
        CommandType::Get => "A get command can not be followed by a "@ + op.name() + " command. Please try "@
            + PlockOperation::Get.name() + " or use a set command."@,
        CommandType::Put => "A set command can not be followed by a "@ + op.name() + " command. Please try "@
            + PlockOperation::Put.name() + " or "@ + PlockOperation::Clear.name() + " or use a get command."@,
    }
}

/// The error for an operation that does not go with the command.
pub open spec fn mismatch(op: PlockOperation, command_type: CommandType) -> RytmObjectErrorView {
    match command_type {
        CommandType::Get => RytmObjectErrorView::Get(GetErrorView::InvalidFormat(mismatch_text(op, command_type))),
        CommandType::Put => RytmObjectErrorView::Put(SetErrorView::InvalidFormat(mismatch_text(op, command_type))),
    }
}

fn mismatch_error(op: PlockOperation, command_type: CommandType) -> (r: RytmObjectError)
    ensures
        r@ == mismatch(op, command_type),
{
    match command_type {
        CommandType::Get => {
            let mut text = String::from_str("A get command can not be followed by a ");
            text.append(op.as_str());
            text.append(" command. Please try ");
            text.append(PlockOperation::Get.as_str());
            text.append(" or use a set command.");
            RytmObjectError::Get(GetError::InvalidFormat(text))
        },
        CommandType::Put => {
            let mut text = String::from_str("A set command can not be followed by a ");
            text.append(op.as_str());
            text.append(" command. Please try ");
            text.append(PlockOperation::Put.as_str());
            text.append(" or ");
            text.append(PlockOperation::Clear.as_str());
            text.append(" or use a get command.");
            RytmObjectError::Put(SetError::InvalidFormat(text))
        },
    }
}

/// The sentence for a lock that is set without a value.
pub open spec fn lock_needs_value_text() -> Seq<char> {
    "Invalid format: A parameter or enum should follow a plockset action."@
}

/// The action field a word names among those that can be locked, with what
/// it takes: first the effects of the kit are asked, then the sound.
pub open spec fn lockable_action(name: Seq<char>) -> Option<(Field, Takes)> {
    match KitAction::named(name) {
        Some(f) => match (f.lockable(), f.writes()) {
            (true, Some(takes)) => Some((Field::KitAction(f), takes)),
            _ => lockable_sound_action(name),
        },
        None => lockable_sound_action(name),
    }
}

/// The action field of a sound a word names among those that can be locked.
pub open spec fn lockable_sound_action(name: Seq<char>) -> Option<(Field, Takes)> {
    match SoundAction::named(name) {
        Some(f) => match (f.lockable(), f.writes()) {
            (true, Some(takes)) => Some((Field::SoundAction(f), takes)),
            _ => None,
        },
        None => None,
    }
}

fn lookup_sound_action(name: &str) -> (r: Option<(Field, Takes)>)
    ensures
        r == lockable_sound_action(name@),
{
    match SoundAction::from_name(name) {
        Some(f) => match (f.lockable(), f.writes()) {
            (true, Some(takes)) => Some((Field::SoundAction(f), takes)),
            _ => None,
        },
        None => None,
    }
}

/// Looks up the action field a word names among those that can be locked.
pub fn lookup_action(name: &str) -> (r: Option<(Field, Takes)>)
    ensures
        r == lockable_action(name@),
{
    match KitAction::from_name(name) {
        Some(f) => match (f.lockable(), f.writes()) {
            (true, Some(takes)) => Some((Field::KitAction(f), takes)),
            _ => lookup_sound_action(name),
        },
        None => lookup_sound_action(name),
    }
}

/// The enum field a word names among those that can be locked.
pub open spec fn lockable_enum(name: Seq<char>) -> Option<Field> {
    match KitEnum::named(name) {
        Some(f) => if f.lockable() {
            Some(Field::KitEnum(f))
        } else {
            lockable_sound_enum(name)
        },
        None => lockable_sound_enum(name),
    }
}

/// The enum field of a sound a word names among those that can be locked.
pub open spec fn lockable_sound_enum(name: Seq<char>) -> Option<Field> {
    match SoundEnum::named(name) {
        Some(f) => if f.lockable() {
            Some(Field::SoundEnum(f))
        } else {
            None
        },
        None => None,
    }
}

fn lookup_sound_enum(name: &str) -> (r: Option<Field>)
    ensures
        r == lockable_sound_enum(name@),
{
    match SoundEnum::from_name(name) {
        Some(f) => if f.lockable() {
            Some(Field::SoundEnum(f))
        } else {
            None
        },
        None => None,
    }
}

/// Looks up the enum field a word names among those that can be locked.
pub fn lookup_enum(name: &str) -> (r: Option<Field>)
    ensures
        r == lockable_enum(name@),
{
    match KitEnum::from_name(name) {
        Some(f) => if f.lockable() {
            Some(Field::KitEnum(f))
        } else {
            lookup_sound_enum(name)
        },
        None => lookup_sound_enum(name),
    }
}

/// What a parameter-lock command asks for.
///
/// The operation must go with the command. Then the token at the position
/// names the locked field, as an identifier or as an enum, and it must be
/// one of the fields that can be locked. Setting a lock on an identifier
/// needs a number after it, which is asked for before the name is looked
/// up; setting one on an enum needs the variant.
pub open spec fn requested(
    target: Target,
    tokens: Seq<ParsedView>,
    pos: int,
    op: PlockOperation,
    command_type: CommandType,
) -> Resolved {
    if !goes_with(op, command_type) {
        Err(mismatch(op, command_type))
    } else {
        match op {
            PlockOperation::Get => match token_at(tokens, pos) {
                Some(ParsedView::Identifier(name)) => match lockable_action(name) {
                    Some((field, _)) => Ok(RequestView { target, field, access: AccessView::ReadLock }),
                    None => Err(unknown_identifier(name)),
                },
                Some(ParsedView::Enum(name, _)) => match lockable_enum(name) {
                    Some(field) => Ok(RequestView { target, field, access: AccessView::ReadLock }),
                    None => Err(unknown_enum(name)),
                },
                _ => Err(malformed(command_type)),
            },
            PlockOperation::Put => match token_at(tokens, pos) {
                Some(ParsedView::Identifier(name)) => match token_at(tokens, pos + 1) {
                    Some(ParsedView::Parameter(param)) => match lockable_action(name) {
                        Some((field, takes)) => match argument_for(takes, param, name) {
                            Ok(argument) => Ok(RequestView { target, field, access: AccessView::WriteLock(argument) }),
                            Err(e) => Err(e),
                        },
                        None => Err(unknown_identifier(name)),
                    },
                    _ => Err(RytmObjectErrorView::Custom(lock_needs_value_text())),
                },
                Some(ParsedView::Enum(name, Some(variant))) => match lockable_enum(name) {
                    Some(field) => Ok(
                        RequestView { target, field, access: AccessView::WriteLock(ArgumentView::Text(variant)) },
                    ),
                    None => Err(unknown_enum(name)),
                },
                _ => Err(malformed(command_type)),
            },
            PlockOperation::Clear => match token_at(tokens, pos) {
                Some(ParsedView::Identifier(name)) => match lockable_action(name) {
                    Some((field, _)) => Ok(RequestView { target, field, access: AccessView::ClearLock }),
                    None => Err(unknown_identifier(name)),
                },
                Some(ParsedView::Enum(name, _)) => match lockable_enum(name) {
                    Some(field) => Ok(RequestView { target, field, access: AccessView::ClearLock }),
                    None => Err(unknown_enum(name)),
                },
                _ => Err(malformed(command_type)),
            },
        }
    }
}

/// Resolves the field a lock is read from or cleared on.
fn locked_field(target: Target, tokens: &Vec<ParsedValue>, pos: usize, command_type: CommandType, clear: bool) -> (r:
    Result<Request, RytmObjectError>)
    ensures
        resolves_to(
            r,
            match token_at(parsed_views(tokens@), pos as int) {
                Some(ParsedView::Identifier(name)) => match lockable_action(name) {
                    Some((field, _)) => Ok(
                        RequestView {
                            target,
                            field,
                            access: if clear {
                                AccessView::ClearLock
                            } else {
                                AccessView::ReadLock
                            },
                        },
                    ),
                    None => Err(unknown_identifier(name)),
                },
                Some(ParsedView::Enum(name, _)) => match lockable_enum(name) {
                    Some(field) => Ok(
                        RequestView {
                            target,
                            field,
                            access: if clear {
                                AccessView::ClearLock
                            } else {
                                AccessView::ReadLock
                            },
                        },
                    ),
                    None => Err(unknown_enum(name)),
                },
                _ => Err(malformed(command_type)),
            },
        ),
{
    match token(tokens, pos) {
        Some(ParsedValue::Identifier(name)) => match lookup_action(name.as_str()) {
            Some((field, _)) => Ok(
                Request {
                    target,
                    field,
                    access: if clear {
                        Access::ClearLock
                    } else {
                        Access::ReadLock
                    },
                },
            ),
            None => Err(RytmObjectError::Identifier(IdentifierError::InvalidType(name.clone()))),
        },
        Some(ParsedValue::Enum(name, _)) => match lookup_enum(name.as_str()) {
            Some(field) => Ok(
                Request {
                    target,
                    field,
                    access: if clear {
                        Access::ClearLock
                    } else {
                        Access::ReadLock
                    },
                },
            ),
            None => Err(RytmObjectError::Enum(EnumError::InvalidEnumType(name.clone()))),
        },
        _ => Err(malformed_error(command_type)),
    }
}

/// Resolves a parameter-lock command on a trig: the tokens from the position
/// on name the locked field and, for setting the lock, its value.
pub fn handle_plock_commands(
    target: Target,
    tokens: &Vec<ParsedValue>,
    pos: usize,
    op: PlockOperation,
    command_type: CommandType,
) -> (r: Result<Request, RytmObjectError>)
    ensures
        resolves_to(r, requested(target, parsed_views(tokens@), pos as int, op, command_type)),
        r matches Ok(request) ==> request.target == target,
{
    let n = tokens.len();
    let fits = match (op, command_type) {
        (PlockOperation::Get, CommandType::Get) => true,
        (PlockOperation::Put, CommandType::Put) => true,
        (PlockOperation::Clear, CommandType::Put) => true,
        _ => false,
    };
    if !fits {
        return Err(mismatch_error(op, command_type));
    }
    match op {
        PlockOperation::Get => locked_field(target, tokens, pos, command_type, false),
        PlockOperation::Clear => locked_field(target, tokens, pos, command_type, true),
        PlockOperation::Put => match token(tokens, pos) {
            Some(ParsedValue::Identifier(name)) => {
                let param = match token(tokens, pos + 1) {
                    Some(ParsedValue::Parameter(param)) => *param,
                    _ => {
                        return Err(
                            RytmObjectError::Custom(
                                "Invalid format: A parameter or enum should follow a plockset action.".to_owned(),
                            ),
                        );
                    },
                };
                match lookup_action(name.as_str()) {
                    Some((field, takes)) => match make_argument(takes, param, name.as_str()) {
                        Ok(argument) => Ok(Request { target, field, access: Access::WriteLock(argument) }),
                        Err(e) => Err(e),
                    },
                    None => Err(RytmObjectError::Identifier(IdentifierError::InvalidType(name.clone()))),
                }
            },
            Some(ParsedValue::Enum(name, Some(variant))) => match lookup_enum(name.as_str()) {
                Some(field) => Ok(
                    Request { target, field, access: Access::WriteLock(Argument::Text(variant.clone())) },
                ),
                None => Err(RytmObjectError::Enum(EnumError::InvalidEnumType(name.clone()))),
            },
            _ => Err(malformed_error(command_type)),
        },
    }
}

/// An operation that does not go with the command always fails, whatever
/// the tokens are, and the error names the operation and the ones that would
/// go with the command: reading a lock in a command that writes, and
/// setting or clearing one in a command that reads.
pub proof fn mismatched_operation_fails(
    target: Target,
    tokens: Seq<ParsedView>,
    pos: int,
    op: PlockOperation,
    command_type: CommandType,
)
    requires
        (op == PlockOperation::Get && command_type == CommandType::Put) || ((op == PlockOperation::Put || op
            == PlockOperation::Clear) && command_type == CommandType::Get),
    ensures
        requested(target, tokens, pos, op, command_type) == Err::<RequestView, RytmObjectErrorView>(
            mismatch(op, command_type),
        ),
        op == PlockOperation::Get ==> mismatch(op, command_type) == RytmObjectErrorView::Put(
            SetErrorView::InvalidFormat(
                "A set command can not be followed by a "@ + "plockget"@ + " command. Please try "@ + "plockset"@
                    + " or "@ + "plockclear"@ + " or use a get command."@,
            ),
        ),
        op != PlockOperation::Get ==> mismatch(op, command_type) == RytmObjectErrorView::Get(
            GetErrorView::InvalidFormat(
                "A get command can not be followed by a "@ + op.name() + " command. Please try "@ + "plockget"@
                    + " or use a set command."@,
            ),
        ),
{
}

} // verus!
