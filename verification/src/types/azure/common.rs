//! Shapes that every Azure surface shares.

use vstd::prelude::*;

verus! {

/// The kind of identity that created or last changed a resource.
#[derive(Debug, Clone, Copy, PartialEq, Eq, Structural)]
pub enum CreatedByType {
    User,
    Application,
    ManagedIdentity,
    Key,
}

/// When and by whom a resource was created and last changed.
#[derive(Debug, Clone)]
pub struct SystemData {
    pub created_at: Option<String>,
    pub created_by: Option<String>,
    pub created_by_type: Option<CreatedByType>,
    pub last_modified_at: Option<String>,
    pub last_modified_by: Option<String>,
    pub last_modified_by_type: Option<CreatedByType>,
}

/// One page of a list: its items, and the link to the next page where there
/// is one.
#[derive(Debug, Clone)]
pub struct ListResponse<T> {
    pub value: Vec<T>,
    pub next_link: Option<String>,
}

} // verus!
