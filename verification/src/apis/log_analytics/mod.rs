//! The Log Analytics surface: a workspace under `api.loganalytics.io`, with
//! the version in the path.

pub mod metadata;
pub mod query;

use crate::apis::ApiScope;
use crate::text::{join3, strip_leading, trim_leading};
use vstd::prelude::*;
use vstd::string::*;

verus! {

pub open spec fn workspaces_root() -> Seq<char> {
    "https://api.loganalytics.io/v1/workspaces/"@
}

/// The Log Analytics surface of one workspace, for one tenant.
pub struct LogAnalyticsWorkspace<'a> {
    tenant_id: &'a str,
    workspace_id: &'a str,
}

impl ApiScope for LogAnalyticsWorkspace<'_> {
    closed spec fn tenant(&self) -> Seq<char> {
        self.tenant_id@
    }

    /// The root of the workspaces, the workspace, and the path without the
    /// slashes that it begins with.
    open spec fn url_of(&self, suffix: Seq<char>) -> Seq<char> {
        workspaces_root() + self.workspace() + "/"@ + strip_leading(suffix, '/')
    }

    fn tenant_id(&self) -> (tenant: &str) {
        self.tenant_id
    }

    fn url(&self, suffix: &str) -> (url: String) {
        join3("https://api.loganalytics.io/v1/workspaces/", self.workspace_id, "/").concat(
            trim_leading(suffix, '/'),
        )
    }
}

impl<'a> LogAnalyticsWorkspace<'a> {
    pub closed spec fn workspace(&self) -> Seq<char> {
        self.workspace_id@
    }

    pub fn new(tenant_id: &'a str, workspace_id: &'a str) -> (scope: Self)
        ensures
            scope.tenant() == tenant_id@,
            scope.workspace() == workspace_id@,
    {
        Self { tenant_id, workspace_id }
    }

    pub fn metadata(&self) -> (group: metadata::Metadata<'_>)
        ensures
            *group.scope == *self,
    {
        metadata::Metadata { scope: self }
    }

    pub fn query(&self) -> (group: query::Query<'_>)
        ensures
            *group.scope == *self,
    {
        query::Query { scope: self }
    }
}

} // verus!
