//! Commands on a kit, on an entry of one of its elements, or on one of its
//! sounds.

use vstd::prelude::*;
use vstd::string::StringExecFns;
use crate::api::access::{
    Resolved,
    argument_for,
    field_access,
    make_argument,
    resolve_field,
    resolves_to,
    token,
    token_at,
    unknown_identifier,
};
use crate::api::pattern::{beyond, beyond_error};
use crate::api::{Access, AccessView, Argument, ArgumentView, Family, Field, Request, RequestView, Target, within};
use crate::error::{
    GetError,
    GetErrorView,
    IdentifierError,
    RytmObjectError,
    RytmObjectErrorView,
    SetError,
    SetErrorView,
};
use crate::fields::kit::KitElement;
use crate::parse::types::{ParsedValue, ParsedView, parsed_views};
use crate::text::str_eq;
use crate::types::CommandType;

verus! {

/// The sentence for a kit's sounds named without an index.
pub open spec fn sound_needs_index_text() -> Seq<char> {
    "a kit sound must be followed by an index."@
}

/// The sentence for a kit element named without an index.
pub open spec fn element_needs_index_text() -> Seq<char> {
    "a kit element must be followed by an index."@
}

/// An error of the wrong form, of the kind that goes with the command.
pub open spec fn wrong_form(command_type: CommandType, text: Seq<char>) -> RytmObjectErrorView {
    match command_type {
        CommandType::Get => RytmObjectErrorView::Get(GetErrorView::InvalidFormat(text)),
        CommandType::Put => RytmObjectErrorView::Put(SetErrorView::InvalidFormat(text)),
    }
}

fn wrong_form_error(command_type: CommandType, text: &str) -> (r: RytmObjectError)
    ensures
        r@ == wrong_form(command_type, text@),
{
    match command_type {
        CommandType::Get => RytmObjectError::Get(GetError::InvalidFormat(text.to_owned())),
        CommandType::Put => RytmObjectError::Put(SetError::InvalidFormat(text.to_owned())),
    }
}

/// The sentence for an entry that is written without a value.
pub open spec fn entry_needs_value_text() -> Seq<char> {
    "A parameter or enum must be provided to set a kit element."@
}

/// The sentence for a numeric entry that is written without a number.
pub open spec fn entry_needs_number_text(element: Seq<char>) -> Seq<char> {
    element + " should have an integer parameter."@
}

/// The sentence for an entry that holds a variant and is written without
/// one, or with the variant of another enum.
pub open spec fn entry_needs_variant_text(element: KitElement) -> Seq<char> {
    match element {
        KitElement::TrackRetrigLength => "trackretriglen should have an enum parameter. E.g. trackretriglen:3.63"@,
        _ => element.name() + " should have an enum parameter. E.g. "@ + element.name() + ":1/1"@,
    }
}

fn entry_needs_variant_error(element: KitElement) -> (r: RytmObjectError)
    ensures
        r@ == RytmObjectErrorView::Put(SetErrorView::InvalidFormat(entry_needs_variant_text(element))),
{
    let text: String = match element {
        KitElement::TrackRetrigLength => "trackretriglen should have an enum parameter. E.g. trackretriglen:3.63".to_owned(),
        _ => {
            let mut t = String::from_str(element.as_str());
            t.append(" should have an enum parameter. E.g. ");
            t.append(element.as_str());
            t.append(":1/1");
            t
        },
    };
    RytmObjectError::Put(SetError::InvalidFormat(text))
}

/// Reading an entry of an element: the element must be one of the per-track
/// settings.
pub open spec fn read_entry(target: Target, element: Seq<char>, index: usize) -> Resolved {
    match KitElement::named(element) {
        Some(e) => if e.takes().is_some() || e.holds_variant() {
            Ok(RequestView { target, field: Field::KitElement(e), access: AccessView::ReadSlot(index) })
        } else {
            Err(unknown_identifier(element))
        },
        None => Err(unknown_identifier(element)),
    }
}

/// Writing an entry of an element: a token must follow; then the element
/// must be one of the per-track settings; a numeric entry takes a number,
/// and an entry that holds a variant takes an enum reference that repeats
/// the element's name.
pub open spec fn write_entry(target: Target, element: Seq<char>, index: usize, tokens: Seq<ParsedView>, pos: int) -> Resolved {
    match token_at(tokens, pos) {
        None => Err(RytmObjectErrorView::Put(SetErrorView::InvalidFormat(entry_needs_value_text()))),
        Some(next) => match KitElement::named(element) {
            None => Err(unknown_identifier(element)),
            Some(e) => match e.takes() {
                Some(takes) => match next {
                    ParsedView::Parameter(param) => match argument_for(takes, param, element) {
                        Ok(argument) => Ok(
                            RequestView {
                                target,
                                field: Field::KitElement(e),
                                access: AccessView::WriteSlot(index, argument),
                            },
                        ),
                        Err(err) => Err(err),
                    },
                    _ => Err(
                        RytmObjectErrorView::Put(SetErrorView::InvalidFormat(entry_needs_number_text(element))),
                    ),
                },
                None => if e.holds_variant() {
                    match next {
                        ParsedView::Enum(name, Some(variant)) => if name == element {
                            Ok(
                                RequestView {
                                    target,
                                    field: Field::KitElement(e),
                                    access: AccessView::WriteSlot(index, ArgumentView::Text(variant)),
                                },
                            )
                        } else {
                            Err(RytmObjectErrorView::Put(SetErrorView::InvalidFormat(entry_needs_variant_text(e))))
                        },
                        _ => Err(RytmObjectErrorView::Put(SetErrorView::InvalidFormat(entry_needs_variant_text(e)))),
                    }
                } else {
                    Err(unknown_identifier(element))
                },
            },
        },
    }
}

/// What a command on a kit asks for. The tokens begin with the object; the
/// index is that of the kit, or left out for the working copy.
///
/// An element leads to one of its entries, or, if it is the kit's sounds, to
/// a sound and on to a field of it. Anything else must name a field of the
/// kit itself.
pub open spec fn requested(tokens: Seq<ParsedView>, index: Option<usize>, command_type: CommandType) -> Resolved {
    if !within(index, 127) {
        Err(beyond("Kit"@, index->0, 127))
    } else {
        match token_at(tokens, 1) {
            Some(ParsedView::Element(element)) => if element == KitElement::Sound.name() {
                match token_at(tokens, 2) {
                    Some(ParsedView::SoundIndex(sound)) => if sound > 11 {
                        Err(beyond("Sound"@, sound, 11))
                    } else {
                        field_access(Family::Sound, Target::KitSound { kit: index, sound }, command_type, tokens, 3)
                    },
                    _ => Err(wrong_form(command_type, sound_needs_index_text())),
                }
            } else {
                match token_at(tokens, 2) {
                    Some(ParsedView::ElementIndex(entry)) => match command_type {
                        CommandType::Get => read_entry(Target::Kit { kit: index }, element, entry),
                        CommandType::Put => write_entry(Target::Kit { kit: index }, element, entry, tokens, 3),
                    },
                    _ => Err(wrong_form(command_type, element_needs_index_text())),
                }
            },
            _ => field_access(Family::Kit, Target::Kit { kit: index }, command_type, tokens, 1),
        }
    }
}

/// Resolves the reading of an entry of a kit element.
pub fn get_kit_element_value(target: Target, element: &str, index: usize) -> (r: Result<Request, RytmObjectError>)
    ensures
        resolves_to(r, read_entry(target, element@, index)),
{
    match KitElement::from_name(element) {
        Some(e) => {
            if e.takes().is_some() || e.holds_variant() {
                Ok(Request { target, field: Field::KitElement(e), access: Access::ReadSlot(index) })
            } else {
                Err(RytmObjectError::Identifier(IdentifierError::InvalidType(element.to_owned())))
            }
        },
        None => Err(RytmObjectError::Identifier(IdentifierError::InvalidType(element.to_owned()))),
    }
}

/// Resolves the writing of an entry of a kit element.
pub fn set_kit_element_value(target: Target, element: &str, index: usize, tokens: &Vec<ParsedValue>, pos: usize) -> (r:
    Result<Request, RytmObjectError>)
    ensures
        resolves_to(r, write_entry(target, element@, index, parsed_views(tokens@), pos as int)),
{
    let next = match token(tokens, pos) {
        Some(next) => next,
        None => {
            return Err(
                RytmObjectError::Put(
                    SetError::InvalidFormat("A parameter or enum must be provided to set a kit element.".to_owned()),
                ),
            );
        },
    };
    let e = match KitElement::from_name(element) {
        Some(e) => e,
        None => {
            return Err(RytmObjectError::Identifier(IdentifierError::InvalidType(element.to_owned())));
        },
    };
    match e.takes() {
        Some(takes) => match next {
            ParsedValue::Parameter(param) => match make_argument(takes, *param, element) {
                Ok(argument) => Ok(
                    Request { target, field: Field::KitElement(e), access: Access::WriteSlot(index, argument) },
                ),
                Err(err) => Err(err),
            },
            _ => {
                let mut text = String::from_str(element);
                text.append(" should have an integer parameter.");
                Err(RytmObjectError::Put(SetError::InvalidFormat(text)))
            },
        },
        None => {
            if e.holds_variant() {
                match next {
                    ParsedValue::Enum(name, Some(variant)) => {
                        if str_eq(name.as_str(), element) {
                            Ok(
                                Request {
                                    target,
                                    field: Field::KitElement(e),
                                    access: Access::WriteSlot(index, Argument::Text(variant.clone())),
                                },
                            )
                        } else {
                            Err(entry_needs_variant_error(e))
                        }
                    },
                    _ => Err(entry_needs_variant_error(e)),
                }
            } else {
                Err(RytmObjectError::Identifier(IdentifierError::InvalidType(element.to_owned())))
            }
        },
    }
}

/// Resolves a command on a kit.
pub fn handle(tokens: &Vec<ParsedValue>, index: Option<usize>, command_type: CommandType) -> (r: Result<
    Request,
    RytmObjectError,
>)
    ensures
        resolves_to(r, requested(parsed_views(tokens@), index, command_type)),
{
    match index {
        Some(i) => {
            if i > 127 {
                return Err(beyond_error("Kit", i, 127));
            }
        },
        None => {},
    }
    let target = Target::Kit { kit: index };
    match token(tokens, 1) {
        Some(ParsedValue::Element(element)) => {
            if str_eq(element.as_str(), KitElement::Sound.as_str()) {
                match token(tokens, 2) {
                    Some(ParsedValue::SoundIndex(i)) => {
                        let sound: usize = *i;
                        if sound > 11 {
                            return Err(beyond_error("Sound", sound, 11));
                        }
                        resolve_field(Family::Sound, Target::KitSound { kit: index, sound }, command_type, tokens, 3)
                    },
                    _ => Err(wrong_form_error(command_type, "a kit sound must be followed by an index.")),
                }
            } else {
                match token(tokens, 2) {
                    Some(ParsedValue::ElementIndex(entry)) => match command_type {
                        CommandType::Get => get_kit_element_value(target, element.as_str(), *entry),
                        CommandType::Put => set_kit_element_value(target, element.as_str(), *entry, tokens, 3),
                    },
                    _ => Err(wrong_form_error(command_type, "a kit element must be followed by an index.")),
                }
            }
        },
        _ => resolve_field(Family::Kit, target, command_type, tokens, 1),
    }
}

} // verus!
