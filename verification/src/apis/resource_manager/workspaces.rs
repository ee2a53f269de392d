//! The Log Analytics workspaces of a subscription or of a resource group.

use crate::apis::{
    fetched, get_resource, list_resources, listing_of, request_of, ApiError, ListRun, Reply,
    Request,
};
use crate::apis::resource_manager::ResourceManager;
use crate::http::Method;
use crate::text::join3;
use crate::types::azure::common::ListResponse;
use crate::types::azure::resource_manager::raw::WorkspaceResponse;
use crate::types::azure::resource_manager::Workspace;
use vstd::prelude::*;
use vstd::string::*;

verus! {

pub open spec fn workspaces_version() -> Seq<char> {
    "?api-version=2023-09-01"@
}

pub open spec fn workspaces_path(subscription_id: Seq<char>) -> Seq<char> {
    "subscriptions/"@ + subscription_id + "/providers/Microsoft.OperationalInsights/workspaces"@
        + workspaces_version()
}

pub open spec fn group_workspaces_path(subscription_id: Seq<char>, resource_group: Seq<char>) -> Seq<
    char,
> {
    "subscriptions/"@ + subscription_id + "/resourcegroups/"@ + resource_group
        + "/providers/Microsoft.OperationalInsights/workspaces"@ + workspaces_version()
}

pub open spec fn workspace_path(
    subscription_id: Seq<char>,
    resource_group: Seq<char>,
    workspace_name: Seq<char>,
) -> Seq<char> {
    "subscriptions/"@ + subscription_id + "/resourcegroups/"@ + resource_group
        + "/providers/Microsoft.OperationalInsights/workspaces/"@ + workspace_name
        + workspaces_version()
}

pub open spec fn workspace_shape() -> Seq<char> {
    "WorkspaceResponse"@
}

/// The path of the workspaces of a subscription.
pub fn workspaces_path_for(subscription_id: &str) -> (path: String)
    ensures
        path@ == workspaces_path(subscription_id@),
{
    join3(
        "subscriptions/",
        subscription_id,
        "/providers/Microsoft.OperationalInsights/workspaces",
    ).concat("?api-version=2023-09-01")
}

/// The path of the workspaces of a resource group.
pub fn group_workspaces_path_for(subscription_id: &str, resource_group: &str) -> (path: String)
    ensures
        path@ == group_workspaces_path(subscription_id@, resource_group@),
{
    join3("subscriptions/", subscription_id, "/resourcegroups/").concat(resource_group).concat(
        "/providers/Microsoft.OperationalInsights/workspaces",
    ).concat("?api-version=2023-09-01")
}

/// The path of one workspace.
pub fn workspace_path_for(subscription_id: &str, resource_group: &str, workspace_name: &str) -> (path:
    String)
    ensures
        path@ == workspace_path(subscription_id@, resource_group@, workspace_name@),
{
    join3("subscriptions/", subscription_id, "/resourcegroups/").concat(resource_group).concat(
        "/providers/Microsoft.OperationalInsights/workspaces/",
    ).concat(workspace_name).concat("?api-version=2023-09-01")
}

pub struct Workspaces<'a> {
    pub scope: &'a ResourceManager<'a>,
}

impl Workspaces<'_> {
    /// All workspaces of a subscription, from the replies to the requests of
    /// the list.
    pub fn list(&self, subscription_id: &str, replies: Vec<Reply<ListResponse<WorkspaceResponse>>>) -> (run:
        ListRun<Workspace>)
        ensures
            listing_of(
                *self.scope,
                workspaces_path(subscription_id@),
                workspace_shape(),
                replies@,
                run,
            ),
    {
        let path = workspaces_path_for(subscription_id);
        list_resources(self.scope, path.as_str(), "WorkspaceResponse", replies)
    }

    /// All workspaces of a resource group, from the replies to the requests
    /// of the list.
    pub fn list_by_resource_group(
        &self,
        subscription_id: &str,
        resource_group: &str,
        replies: Vec<Reply<ListResponse<WorkspaceResponse>>>,
    ) -> (run: ListRun<Workspace>)
        ensures
            listing_of(
                *self.scope,
                group_workspaces_path(subscription_id@, resource_group@),
                workspace_shape(),
                replies@,
                run,
            ),
    {
        let path = group_workspaces_path_for(subscription_id, resource_group);
        list_resources(self.scope, path.as_str(), "WorkspaceResponse", replies)
    }

    /// One workspace by its name.
    pub fn get<F: FnOnce(Request) -> Reply<WorkspaceResponse>>(
        &self,
        subscription_id: &str,
        resource_group: &str,
        workspace_name: &str,
        send: F,
    ) -> (r: Result<Workspace, ApiError>)
        requires
            forall|request: Request| call_requires(send, (request,)),
        ensures
            fetched(
                request_of(
                    *self.scope,
                    Method::Get,
                    workspace_path(subscription_id@, resource_group@, workspace_name@),
                ),
                workspace_shape(),
                r,
                send,
            ),
    {
        let path = workspace_path_for(subscription_id, resource_group, workspace_name);
        get_resource(self.scope, path.as_str(), "WorkspaceResponse", send)
    }
}

} // verus!
