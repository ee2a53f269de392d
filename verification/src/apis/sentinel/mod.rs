//! The Sentinel surface: a workspace under `management.azure.com`, with one
//! version for every path.

pub mod incidents;
pub mod watchlist_items;
pub mod watchlists;

use crate::apis::ApiScope;
use crate::apis::resource_manager::management_host;
use crate::text::{join3, strip_leading, trim_leading};
use vstd::prelude::*;
use vstd::string::*;

verus! {

pub open spec fn sentinel_version() -> Seq<char> {
    "2025-09-01"@
}

/// The path of the Sentinel provider of a workspace.
pub open spec fn base_path_of(
    subscription_id: Seq<char>,
    resource_group: Seq<char>,
    workspace_name: Seq<char>,
) -> Seq<char> {
    "subscriptions/"@ + subscription_id + "/resourceGroups/"@ + resource_group
        + "/providers/Microsoft.OperationalInsights/workspaces/"@ + workspace_name
        + "/providers/Microsoft.SecurityInsights"@
}

/// The Sentinel surface of one workspace, for one tenant.
pub struct SentinelWorkspace<'a> {
    tenant_id: &'a str,
    subscription_id: &'a str,
    resource_group: &'a str,
    workspace_name: &'a str,
}

impl ApiScope for SentinelWorkspace<'_> {
    closed spec fn tenant(&self) -> Seq<char> {
        self.tenant_id@
    }

    /// The host, the path of the workspace's Sentinel provider, the path
    /// without the slashes that it begins with, and the version.
    open spec fn url_of(&self, suffix: Seq<char>) -> Seq<char> {
        management_host() + self.base() + "/"@ + strip_leading(suffix, '/') + "?api-version="@
            + sentinel_version()
    }

    fn tenant_id(&self) -> (tenant: &str) {
        self.tenant_id
    }

    fn url(&self, suffix: &str) -> (url: String) {
        let base = self.base_path();
        join3("https://management.azure.com/", base.as_str(), "/").concat(
            trim_leading(suffix, '/'),
        ).concat("?api-version=").concat("2025-09-01")
    }
}

impl<'a> SentinelWorkspace<'a> {
    /// The path of the workspace's Sentinel provider.
    pub closed spec fn base(&self) -> Seq<char> {
        base_path_of(self.subscription_id@, self.resource_group@, self.workspace_name@)
    }

    pub fn new(
        tenant_id: &'a str,
        subscription_id: &'a str,
        resource_group: &'a str,
        workspace_name: &'a str,
    ) -> (scope: Self)
        ensures
            scope.tenant() == tenant_id@,
            scope.base() == base_path_of(subscription_id@, resource_group@, workspace_name@),
    {
        Self { tenant_id, subscription_id, resource_group, workspace_name }
    }

    /// The path of the workspace's Sentinel provider.
    pub fn base_path(&self) -> (path: String)
        ensures
            path@ == self.base(),
    {
        join3("subscriptions/", self.subscription_id, "/resourceGroups/").concat(
            self.resource_group,
        ).concat("/providers/Microsoft.OperationalInsights/workspaces/").concat(
            self.workspace_name,
        ).concat("/providers/Microsoft.SecurityInsights")
    }

    pub fn incidents(&self) -> (group: incidents::Incidents<'_>)
        ensures
            *group.scope == *self,
    {
        incidents::Incidents { scope: self }
    }

    pub fn watchlists(&self) -> (group: watchlists::Watchlists<'_>)
        ensures
            *group.scope == *self,
    {
        watchlists::Watchlists { scope: self }
    }

    pub fn watchlist_items(&self) -> (group: watchlist_items::WatchlistItems<'_>)
        ensures
            *group.scope == *self,
    {
        watchlist_items::WatchlistItems { scope: self }
    }
}

} // verus!
