//! The incident commands and the shapes that they exchange.

pub mod create_update;
pub mod delete;
pub mod get;
pub mod list;
pub mod list_alerts;
pub mod list_bookmarks;
pub mod list_entities;
pub mod run_playbook;
pub mod types;

use crate::azure::common::{invalid_attribute, invalid_attribute_text, CommandError};
use crate::azure::sentinel::{names_workspace, workspace_of, MalformedTarget, Target};
use crate::text::segments;
use vstd::prelude::*;
use vstd::string::*;

verus! {

/// The workspace that the attribute `target` names, or the error that says
/// that it names none.
pub fn read_target(target: &str) -> (r: Result<Target, CommandError>)
    ensures
        r is Ok <==> names_workspace(segments(target@, '/')),
        r matches Ok(workspace) ==> workspace@ == workspace_of(segments(target@, '/')),
        r matches Err(e) ==> e.text() == invalid_attribute_text("target"@, MalformedTarget::text()),
{
    match Target::parse(target) {
        Ok(workspace) => Ok(workspace),
        Err(e) => Err(invalid_attribute("target", e.message())),
    }
}

} // verus!
