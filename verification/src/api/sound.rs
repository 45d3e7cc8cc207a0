//! Commands on a sound: one of the pool, one of the working copy, or one of
//! a kit.

use vstd::prelude::*;
use crate::api::access::{Resolved, field_access, resolve_field, resolves_to};
use crate::api::pattern::{beyond, beyond_error};
use crate::api::{Family, Request, Target, within};
use crate::error::RytmObjectError;
use crate::parse::types::{ParsedValue, ParsedView, parsed_views};
use crate::types::CommandType;

verus! {

/// Where a sound lives.
#[derive(Debug, Clone, Copy, PartialEq, Eq, Structural)]
pub enum SoundSource {
    /// The pool of stored sounds.
    Pool,
    /// The sounds of the working copy.
    WorkBuffer,
    /// The sounds of a kit; the kit's index is left out for the working
    /// copy of the kit.
    Kit { kit: Option<usize> },
}

impl SoundSource {
    /// The sound with the given index in this place.
    pub open spec fn target(self, index: usize) -> Target {
        match self {
            SoundSource::Pool => Target::PoolSound { sound: index },
            SoundSource::WorkBuffer => Target::WorkBufferSound { sound: index },
            SoundSource::Kit { kit } => Target::KitSound { kit, sound: index },
        }
    }

    /// The position of the token that names the field: a command on a sound
    /// begins with the object, while a command that reached the sound
    /// through its kit hands on only what follows the sound.
    pub open spec fn start(self) -> int {
        match self {
            SoundSource::Kit { .. } => 0,
            _ => 1,
        }
    }
}

/// What a command on a sound asks for: a field of the sound.
pub open spec fn requested(tokens: Seq<ParsedView>, index: usize, source: SoundSource, command_type: CommandType) -> Resolved {
    if source matches SoundSource::Kit { kit } && !within(kit, 127) {
        Err(beyond("Kit"@, source->kit->0, 127))
    } else if index > 11 {
        Err(beyond("Sound"@, index, 11))
    } else {
        field_access(Family::Sound, source.target(index), command_type, tokens, source.start())
    }
}

/// Resolves a command on a sound.
pub fn handle(tokens: &Vec<ParsedValue>, index: usize, source: SoundSource, command_type: CommandType) -> (r: Result<
    Request,
    RytmObjectError,
>)
    ensures
        resolves_to(r, requested(parsed_views(tokens@), index, source, command_type)),
{
    match source {
        SoundSource::Kit { kit: Some(k) } => {
            if k > 127 {
                return Err(beyond_error("Kit", k, 127));
            }
        },
        _ => {},
    }
    if index > 11 {
        return Err(beyond_error("Sound", index, 11));
    }
    let (target, start): (Target, usize) = match source {
        SoundSource::Pool => (Target::PoolSound { sound: index }, 1),
        SoundSource::WorkBuffer => (Target::WorkBufferSound { sound: index }, 1),
        SoundSource::Kit { kit } => (Target::KitSound { kit, sound: index }, 0),
    };
    resolve_field(Family::Sound, target, command_type, tokens, start)
}

} // verus!
