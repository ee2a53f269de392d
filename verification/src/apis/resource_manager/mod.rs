//! The Resource Manager surface: `management.azure.com`, with the version in
//! the query of each path.

pub mod resource_groups;
pub mod subscriptions;
pub mod workspaces;

use crate::apis::ApiScope;
use crate::text::{join2, strip_leading, trim_leading};
use vstd::prelude::*;
use vstd::string::*;

verus! {

pub open spec fn management_host() -> Seq<char> {
    "https://management.azure.com/"@
}

/// The Resource Manager surface for one tenant.
pub struct ResourceManager<'a> {
    tenant_id: &'a str,
}

impl ApiScope for ResourceManager<'_> {
    closed spec fn tenant(&self) -> Seq<char> {
        self.tenant_id@
    }

    /// The host, then the path without the slashes that it begins with.
    open spec fn url_of(&self, suffix: Seq<char>) -> Seq<char> {
        management_host() + strip_leading(suffix, '/')
    }

    fn tenant_id(&self) -> (tenant: &str) {
        self.tenant_id
    }

    fn url(&self, suffix: &str) -> (url: String) {
        join2("https://management.azure.com/", trim_leading(suffix, '/'))
    }
}

impl<'a> ResourceManager<'a> {
    pub fn new(tenant_id: &'a str) -> (scope: Self)
        ensures
            scope.tenant() == tenant_id@,
    {
        Self { tenant_id }
    }

    pub fn subscriptions(&self) -> (group: subscriptions::Subscriptions<'_>)
        ensures
            *group.scope == *self,
    {
        subscriptions::Subscriptions { scope: self }
    }

    pub fn resource_groups(&self) -> (group: resource_groups::ResourceGroups<'_>)
        ensures
            *group.scope == *self,
    {
        resource_groups::ResourceGroups { scope: self }
    }

    pub fn workspaces(&self) -> (group: workspaces::Workspaces<'_>)
        ensures
            *group.scope == *self,
    {
        workspaces::Workspaces { scope: self }
    }
}

} // verus!
