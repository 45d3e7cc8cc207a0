//! Commands on the settings.

use vstd::prelude::*;
use crate::api::access::{Resolved, field_access, resolve_field, resolves_to};
use crate::api::{Family, Request, Target};
use crate::error::RytmObjectError;
use crate::parse::types::{ParsedValue, ParsedView, parsed_views};
use crate::types::CommandType;

verus! {

/// What a command on the settings asks for: one of their fields.
pub open spec fn requested(tokens: Seq<ParsedView>, command_type: CommandType) -> Resolved {
    field_access(Family::Settings, Target::Settings, command_type, tokens, 1)
}

/// Resolves a command on the settings.
pub fn handle(tokens: &Vec<ParsedValue>, command_type: CommandType) -> (r: Result<Request, RytmObjectError>)
    ensures
        resolves_to(r, requested(parsed_views(tokens@), command_type)),
{
    resolve_field(Family::Settings, Target::Settings, command_type, tokens, 1)
}

} // verus!
