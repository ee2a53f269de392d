//! The resource groups of a subscription.

use crate::apis::{list_resources, listing_of, ListRun, Reply};
use crate::apis::resource_manager::ResourceManager;
use crate::text::join3;
use crate::types::azure::common::ListResponse;
use crate::types::azure::resource_manager::raw::ResourceGroupResponse;
use crate::types::azure::resource_manager::ResourceGroupInfo;
use vstd::prelude::*;
use vstd::string::*;

verus! {

pub open spec fn resource_groups_path(subscription_id: Seq<char>) -> Seq<char> {
    "subscriptions/"@ + subscription_id + "/resourcegroups?api-version=2024-11-01"@
}

pub open spec fn resource_group_shape() -> Seq<char> {
    "ResourceGroupResponse"@
}

/// The path of the resource groups of a subscription.
pub fn resource_groups_path_for(subscription_id: &str) -> (path: String)
    ensures
        path@ == resource_groups_path(subscription_id@),
{
    join3("subscriptions/", subscription_id, "/resourcegroups?api-version=2024-11-01")
}

pub struct ResourceGroups<'a> {
    pub scope: &'a ResourceManager<'a>,
}

impl ResourceGroups<'_> {
    /// All resource groups of a subscription, from the replies to the
    /// requests of the list.
    pub fn list(
        &self,
        subscription_id: &str,
        replies: Vec<Reply<ListResponse<ResourceGroupResponse>>>,
    ) -> (run: ListRun<ResourceGroupInfo>)
        ensures
            listing_of(
                *self.scope,
                resource_groups_path(subscription_id@),
                resource_group_shape(),
                replies@,
                run,
            ),
    {
        let path = resource_groups_path_for(subscription_id);
        list_resources(self.scope, path.as_str(), "ResourceGroupResponse", replies)
    }
}

} // verus!
