//! Targets of Log Analytics queries: a workspace, or any Azure resource.

pub mod query;

use crate::text::{
    contains_str, count_char, count_of, join3, occurs_in, strip_leading, trim, trim_leading,
    trimmed,
};
use vstd::prelude::*;
use vstd::std_specs::convert::TryFromSpecImpl;
use vstd::string::*;

verus! {

/// The base URL of the Log Analytics API.
pub const BASE_URL: &'static str = "https://api.loganalytics.azure.com";

/// The version of the API.
pub const API_VERSION: &'static str = "v1";

pub open spec fn query_root() -> Seq<char> {
    "https://api.loganalytics.azure.com/v1/"@
}

/// Why a text names no target of a query.
#[derive(Debug, Clone, Copy, PartialEq, Eq, Structural)]
pub enum TargetError {
    /// The workspace identifier is empty.
    EmptyWorkspaceId,
    /// The workspace identifier has not the form of a GUID.
    NotAGuid,
    /// The resource path names no subscription.
    NotAResourcePath,
}

impl TargetError {
    /// What the error says.
    pub open spec fn text(self) -> Seq<char> {
        match self {
            TargetError::EmptyWorkspaceId => "Workspace ID cannot be empty"@,
            TargetError::NotAGuid =>
                "Workspace ID must be a valid GUID (e.g., 'xxxxxxxx-xxxx-xxxx-xxxx-xxxxxxxxxxxx')"@,
            TargetError::NotAResourcePath =>
                "Resource path must be a valid Azure resource ID starting with /subscriptions/"@,
        }
    }

    /// What the error says.
    pub fn message(&self) -> (text: String)
        ensures
            text@ == self.text(),
    {
        match self {
            TargetError::EmptyWorkspaceId => String::from_str("Workspace ID cannot be empty"),
            TargetError::NotAGuid => String::from_str(
                "Workspace ID must be a valid GUID (e.g., 'xxxxxxxx-xxxx-xxxx-xxxx-xxxxxxxxxxxx')",
            ),
            TargetError::NotAResourcePath => String::from_str(
                "Resource path must be a valid Azure resource ID starting with /subscriptions/",
            ),
        }
    }
}

/// The workspace that a workspace-scoped query runs against.
#[derive(Debug, Clone, PartialEq, Eq, Hash)]
pub struct Target {
    workspace_id: String,
}

impl View for Target {
    type V = Seq<char>;

    /// The identifier of the workspace.
    closed spec fn view(&self) -> Seq<char> {
        self.workspace_id@
    }
}

/// The number of bytes of a text in UTF-8.
pub open spec fn byte_len(text: Seq<char>) -> nat {
    vstd::utf8::encode_utf8(text).len()
}

/// A text has the form of a GUID as far as this library looks: 36 bytes, four
/// of them hyphens.
pub open spec fn guid_like(text: Seq<char>) -> bool {
    byte_len(text) == 36 && count_of(text, '-') == 4
}

/// What a text names as a workspace: the text without the white space around
/// it, where that is not empty and has the form of a GUID.
pub open spec fn workspace_named(text: Seq<char>) -> Result<Seq<char>, TargetError> {
    let id = trimmed(text);
    if id.len() == 0 {
        Err(TargetError::EmptyWorkspaceId)
    } else if !guid_like(id) {
        Err(TargetError::NotAGuid)
    } else {
        Ok(id)
    }
}

impl Target {
    /// The URL at which queries against the workspace are made.
    pub open spec fn url_of(&self) -> Seq<char> {
        query_root() + "workspaces/"@ + self@ + "/query"@
    }

    /// What a text names as a workspace.
    pub open spec fn try_from_spec_of(text: Seq<char>) -> Result<Seq<char>, TargetError> {
        workspace_named(text)
    }

    pub fn new(workspace_id: String) -> (target: Self)
        ensures
            target@ == workspace_id@,
    {
        Self { workspace_id }
    }

    pub fn workspace_id(&self) -> (id: &str)
        ensures
            id@ == self@,
    {
        self.workspace_id.as_str()
    }

    /// The URL at which queries against the workspace are made.
    pub fn query_url(&self) -> (url: String)
        ensures
            url@ == self.url_of(),
    {
        join3("https://api.loganalytics.azure.com/v1/", "workspaces/", self.workspace_id.as_str()).concat(
            "/query",
        )
    }
}

impl TryFrom<&str> for Target {
    type Error = TargetError;

    /// The workspace that a text names.
    fn try_from(value: &str) -> (r: Result<Target, TargetError>)
        ensures
            match workspace_named(value@) {
                Ok(id) => r matches Ok(target) && target@ == id,
                Err(e) => r matches Err(told) && told == e,
            },
    {
        let id = trim(value);
        if id.is_empty() {
            return Err(TargetError::EmptyWorkspaceId);
        }
        if id.as_bytes().len() != 36 || count_char(id, '-') != 4 {
            return Err(TargetError::NotAGuid);
        }
        Ok(Target::new(String::from_str(id)))
    }
}

impl TryFromSpecImpl<&str> for Target {
    open spec fn obeys_try_from_spec() -> bool {
        false
    }

    open spec fn try_from_spec(value: &str) -> Result<Target, TargetError> {
        arbitrary()
    }
}

/// The resource that a resource-scoped query runs against.
#[derive(Debug, Clone, PartialEq, Eq, Hash)]
pub struct ResourceTarget {
    resource_path: String,
}

impl View for ResourceTarget {
    type V = Seq<char>;

    /// The path of the resource.
    closed spec fn view(&self) -> Seq<char> {
        self.resource_path@
    }
}

pub open spec fn subscriptions_marker() -> Seq<char> {
    "/subscriptions/"@
}

/// What a path names as a resource: itself, where it holds `/subscriptions/`.
pub open spec fn resource_named(path: Seq<char>) -> Result<Seq<char>, TargetError> {
    if occurs_in(path, subscriptions_marker()) {
        Ok(path)
    } else {
        Err(TargetError::NotAResourcePath)
    }
}

impl ResourceTarget {
    /// The URL at which queries against the resource are made: the path goes
    /// in without the slashes that it begins with.
    pub open spec fn url_of(&self) -> Seq<char> {
        query_root() + strip_leading(self@, '/') + "/query"@
    }

    /// What a path names as a resource.
    pub open spec fn try_from_spec_of(path: Seq<char>) -> Result<Seq<char>, TargetError> {
        resource_named(path)
    }

    pub fn new(resource_path: String) -> (target: Self)
        ensures
            target@ == resource_path@,
    {
        Self { resource_path }
    }

    pub fn resource_path(&self) -> (path: &str)
        ensures
            path@ == self@,
    {
        self.resource_path.as_str()
    }

    /// The URL at which queries against the resource are made: the path goes
    /// in without the slashes that it begins with.
    pub fn query_url(&self) -> (url: String)
        ensures
            url@ == self.url_of(),
    {
        join3(
            "https://api.loganalytics.azure.com/v1/",
            trim_leading(self.resource_path.as_str(), '/'),
            "/query",
        )
    }
}

impl TryFrom<&str> for ResourceTarget {
    type Error = TargetError;

    /// The resource that a path names: the path as it stands, where it holds
    /// `/subscriptions/`.
    fn try_from(value: &str) -> (r: Result<ResourceTarget, TargetError>)
        ensures
            match resource_named(value@) {
                Ok(path) => r matches Ok(target) && target@ == path,
                Err(e) => r matches Err(told) && told == e,
            },
    {
        if !contains_str(value, "/subscriptions/") {
            return Err(TargetError::NotAResourcePath);
        }
        Ok(ResourceTarget::new(String::from_str(value)))
    }
}

impl TryFromSpecImpl<&str> for ResourceTarget {
    open spec fn obeys_try_from_spec() -> bool {
        false
    }

    open spec fn try_from_spec(value: &str) -> Result<ResourceTarget, TargetError> {
        arbitrary()
    }
}

} // verus!
