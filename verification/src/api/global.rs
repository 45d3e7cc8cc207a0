//! Commands on a global slot.

use vstd::prelude::*;
use crate::api::access::{Resolved, field_access, resolve_field, resolves_to};
use crate::api::pattern::{beyond, beyond_error};
use crate::api::{Family, Request, Target, within};
use crate::error::RytmObjectError;
use crate::parse::types::{ParsedValue, ParsedView, parsed_views};
use crate::types::CommandType;

verus! {

/// What a command on a global slot asks for: a field of the slot. The index
/// is that of the slot, or left out for the working copy.
pub open spec fn requested(tokens: Seq<ParsedView>, index: Option<usize>, command_type: CommandType) -> Resolved {
    if !within(index, 3) {
        Err(beyond("Global"@, index->0, 3))
    } else {
        field_access(Family::Global, Target::Global { global: index }, command_type, tokens, 1)
    }
}

/// Resolves a command on a global slot.
pub fn handle(tokens: &Vec<ParsedValue>, index: Option<usize>, command_type: CommandType) -> (r: Result<
    Request,
    RytmObjectError,
>)
    ensures
        resolves_to(r, requested(parsed_views(tokens@), index, command_type)),
{
    match index {
        Some(i) => {
            if i > 3 {
                return Err(beyond_error("Global", i, 3));
            }
        },
        None => {},
    }
    resolve_field(Family::Global, Target::Global { global: index }, command_type, tokens, 1)
}

} // verus!
