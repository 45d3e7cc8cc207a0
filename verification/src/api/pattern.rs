//! Commands on a pattern, on one of its tracks, or on one of a track's trigs.

use vstd::prelude::*;
use vstd::string::StringExecFns;
use crate::api::access::{Resolved, field_access, resolve_field, resolves_to, token, token_at};
use crate::api::plock;
use crate::api::plock::handle_plock_commands;
use crate::api::{Family, Request, Target, within};
use crate::error::{GetError, GetErrorView, RytmObjectError, RytmObjectErrorView};
use crate::parse::types::{ParsedValue, ParsedView, parsed_views};
use crate::text::{decimal, usize_to_string};
use crate::types::CommandType;

verus! {

/// The sentence for an index beyond its collection.
pub open spec fn beyond_text(what: Seq<char>, index: usize, max: usize) -> Seq<char> {
    what + " index "@ + decimal(index as int) + " must be between 0 and "@ + decimal(max as int) + "."@
}

/// The error for an index beyond its collection.
pub open spec fn beyond(what: Seq<char>, index: usize, max: usize) -> RytmObjectErrorView {
    RytmObjectErrorView::Get(GetErrorView::InvalidRange(beyond_text(what, index, max)))
}

/// The error for an index beyond its collection.
pub fn beyond_error(what: &str, index: usize, max: usize) -> (r: RytmObjectError)
    ensures
        r@ == beyond(what@, index, max),
{
    let mut text = String::from_str(what);
    text.append(" index ");
    let number = usize_to_string(index);
    text.append(number.as_str());
    text.append(" must be between 0 and ");
    let bound = usize_to_string(max);
    text.append(bound.as_str());
    text.append(".");
    RytmObjectError::Get(GetError::InvalidRange(text))
}

/// The sentence for a pattern with nothing after it.
pub open spec fn pattern_alone_text() -> Seq<char> {
    "A pattern index should be followed by a identifier enum or track index."@
}

/// The sentence for a track with nothing after it.
pub open spec fn track_alone_text() -> Seq<char> {
    "A track index should be followed by a identifier enum or trig index."@
}

/// The sentence for a trig with nothing after it.
pub open spec fn trig_alone_text() -> Seq<char> {
    "A trig index should be followed by an identifier enum or a plock command."@
}

/// What a command on a pattern asks for. The tokens begin with the object;
/// the index is that of the pattern, or left out for the working copy.
///
/// A track index leads to the track, a trig index after it to the trig, and
/// a parameter-lock operation after that to the trig's locks. The path ends
/// in a field of the object it has reached.
pub open spec fn requested(tokens: Seq<ParsedView>, index: Option<usize>, command_type: CommandType) -> Resolved {
    if !within(index, 127) {
        Err(beyond("Pattern"@, index->0, 127))
    } else {
        match token_at(tokens, 1) {
            None => Err(RytmObjectErrorView::Get(GetErrorView::InvalidFormat(pattern_alone_text()))),
            Some(ParsedView::TrackIndex(track)) => if track > 12 {
                Err(beyond("Track"@, track, 12))
            } else {
                match token_at(tokens, 2) {
                    None => Err(RytmObjectErrorView::Get(GetErrorView::InvalidFormat(track_alone_text()))),
                    Some(ParsedView::TrigIndex(trig)) => if trig > 63 {
                        Err(beyond("Trig"@, trig, 63))
                    } else {
                        match token_at(tokens, 3) {
                            None => Err(RytmObjectErrorView::Get(GetErrorView::InvalidFormat(trig_alone_text()))),
                            Some(ParsedView::PlockOperation(op)) => plock::requested(
                                Target::Trig { pattern: index, track, trig },
                                tokens,
                                4,
                                op,
                                command_type,
                            ),
                            Some(_) => field_access(
                                Family::Trig,
                                Target::Trig { pattern: index, track, trig },
                                command_type,
                                tokens,
                                3,
                            ),
                        }
                    },
                    Some(_) => field_access(
                        Family::Track,
                        Target::Track { pattern: index, track },
                        command_type,
                        tokens,
                        2,
                    ),
                }
            },
            Some(_) => field_access(Family::Pattern, Target::Pattern { pattern: index }, command_type, tokens, 1),
        }
    }
}

/// Resolves a command on a pattern.
pub fn handle(tokens: &Vec<ParsedValue>, index: Option<usize>, command_type: CommandType) -> (r: Result<
    Request,
    RytmObjectError,
>)
    ensures
        resolves_to(r, requested(parsed_views(tokens@), index, command_type)),
{
    match index {
        Some(i) => {
            if i > 127 {
                return Err(beyond_error("Pattern", i, 127));
            }
        },
        None => {},
    }
    match token(tokens, 1) {
        None => Err(
            RytmObjectError::Get(
                GetError::InvalidFormat(
                    "A pattern index should be followed by a identifier enum or track index.".to_owned(),
                ),
            ),
        ),
        Some(ParsedValue::TrackIndex(track_index)) => {
            let track: usize = *track_index;
            if track > 12 {
                return Err(beyond_error("Track", track, 12));
            }
            match token(tokens, 2) {
                None => Err(
                    RytmObjectError::Get(
                        GetError::InvalidFormat(
                            "A track index should be followed by a identifier enum or trig index.".to_owned(),
                        ),
                    ),
                ),
                Some(ParsedValue::TrigIndex(trig_index)) => {
                    let trig: usize = *trig_index;
                    if trig > 63 {
                        return Err(beyond_error("Trig", trig, 63));
                    }
                    let target = Target::Trig { pattern: index, track, trig };
                    match token(tokens, 3) {
                        None => Err(
                            RytmObjectError::Get(
                                GetError::InvalidFormat(
                                    "A trig index should be followed by an identifier enum or a plock command.".to_owned(),
                                ),
                            ),
                        ),
                        Some(ParsedValue::PlockOperation(op)) => handle_plock_commands(
                            target,
                            tokens,
                            4,
                            *op,
                            command_type,
                        ),
                        Some(_) => resolve_field(Family::Trig, target, command_type, tokens, 3),
                    }
                },
                Some(_) => resolve_field(
                    Family::Track,
                    Target::Track { pattern: index, track },
                    command_type,
                    tokens,
                    2,
                ),
            }
        },
        Some(_) => resolve_field(Family::Pattern, Target::Pattern { pattern: index }, command_type, tokens, 1),
    }
}

} // verus!
