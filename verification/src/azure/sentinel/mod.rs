//! The Sentinel workspace that the incident commands work on.

pub mod incidents;

use crate::text::{join3, segments, split_nonempty, str_eq};
use vstd::prelude::*;
use vstd::std_specs::convert::TryFromSpecImpl;
use vstd::string::*;

verus! {

/// A text is no path of a workspace.
#[derive(Debug, Clone, Copy, PartialEq, Eq, Structural)]
pub struct MalformedTarget;

impl MalformedTarget {
    /// What the error says.
    pub open spec fn text() -> Seq<char> {
        "Target must be in the format /subscriptions/{subscriptionId}/resourceGroups/{resourceGroupName}/providers/Microsoft.OperationalInsights/workspaces/{workspaceName}/"@
    }

    /// What the error says.
    pub fn message(&self) -> (text: String)
        ensures
            text@ == MalformedTarget::text(),
    {
        String::from_str(
            "Target must be in the format /subscriptions/{subscriptionId}/resourceGroups/{resourceGroupName}/providers/Microsoft.OperationalInsights/workspaces/{workspaceName}/",
        )
    }
}

/// A workspace: its subscription, its resource group and its name.
#[derive(Debug, Clone, PartialEq, Eq, Hash)]
pub struct Target {
    subscription_id: String,
    resource_group: String,
    workspace_name: String,
}

/// A [`Target`] as a plain value.
pub struct TargetView {
    pub subscription_id: Seq<char>,
    pub resource_group: Seq<char>,
    pub workspace_name: Seq<char>,
}

impl View for Target {
    type V = TargetView;

    closed spec fn view(&self) -> TargetView {
        TargetView {
            subscription_id: self.subscription_id@,
            resource_group: self.resource_group@,
            workspace_name: self.workspace_name@,
        }
    }
}

/// The segments of a path are those of a workspace: at least eight, with the
/// fixed words in their places. What follows the name of the workspace is not
/// looked at.
pub open spec fn names_workspace(parts: Seq<Seq<char>>) -> bool {
    &&& parts.len() >= 8
    &&& parts[0] == "subscriptions"@
    &&& parts[2] == "resourceGroups"@
    &&& parts[4] == "providers"@
    &&& parts[5] == "Microsoft.OperationalInsights"@
    &&& parts[6] == "workspaces"@
}

/// The workspace that the segments of a path name.
pub open spec fn workspace_of(parts: Seq<Seq<char>>) -> TargetView {
    TargetView { subscription_id: parts[1], resource_group: parts[3], workspace_name: parts[7] }
}

pub open spec fn api_version_query() -> Seq<char> {
    "?api-version=2025-09-01"@
}

/// The URL of the Sentinel provider of a workspace.
pub open spec fn provider_url_of(target: TargetView) -> Seq<char> {
    "https://management.azure.com/subscriptions/"@ + target.subscription_id + "/resourceGroups/"@
        + target.resource_group + "/providers/Microsoft.OperationalInsights/workspaces/"@
        + target.workspace_name + "/providers/Microsoft.SecurityInsights"@
}

/// The URL of a kind of resource of a workspace's Sentinel provider: the
/// provider, the kind in the plural and, where one resource is meant, its
/// identifier; then the version.
pub open spec fn resource_url_of(target: TargetView, kind: Seq<char>, id: Option<Seq<char>>) -> Seq<
    char,
> {
    match id {
        Some(id) => provider_url_of(target) + "/"@ + kind + "s"@ + "/"@ + id + api_version_query(),
        None => provider_url_of(target) + "/"@ + kind + "s"@ + api_version_query(),
    }
}

/// The URL of what hangs below an incident.
pub open spec fn incident_sub_resource_url_of(
    target: TargetView,
    incident_id: Seq<char>,
    sub_resource: Seq<char>,
) -> Seq<char> {
    provider_url_of(target) + "/incidents/"@ + incident_id + "/"@ + sub_resource
        + api_version_query()
}

impl Target {
    /// Reads a workspace from its path,
    /// `/subscriptions/{subscriptionId}/resourceGroups/{resourceGroupName}/providers/Microsoft.OperationalInsights/workspaces/{workspaceName}/`.
    /// The path is cut at its slashes, and empty segments are passed over.
    pub fn parse(s: &str) -> (r: Result<Target, MalformedTarget>)
        ensures
            r is Ok <==> names_workspace(segments(s@, '/')),
            r matches Ok(target) ==> target@ == workspace_of(segments(s@, '/')),
    {
        let parts = split_nonempty(s, '/');
        if parts.len() < 8 {
            return Err(MalformedTarget);
        }
        if !str_eq(parts[0].as_str(), "subscriptions") || !str_eq(
            parts[2].as_str(),
            "resourceGroups",
        ) || !str_eq(parts[4].as_str(), "providers") || !str_eq(
            parts[5].as_str(),
            "Microsoft.OperationalInsights",
        ) || !str_eq(parts[6].as_str(), "workspaces") {
            return Err(MalformedTarget);
        }
        Ok(
            Target {
                subscription_id: parts[1].clone(),
                resource_group: parts[3].clone(),
                workspace_name: parts[7].clone(),
            },
        )
    }

    /// The URL of a kind of resource of the workspace's Sentinel provider, or
    /// of one resource of that kind.
    pub fn resource_url(&self, kind: &str, id: Option<&str>) -> (url: String)
        ensures
            url@ == resource_url_of(self@, kind@, crate::azure::output::name_view(id)),
    {
        let base = self.provider_url();
        let all = base.concat("/").concat(kind).concat("s");
        match id {
            Some(id) => all.concat("/").concat(id).concat("?api-version=2025-09-01"),
            None => all.concat("?api-version=2025-09-01"),
        }
    }

    /// The URL of what hangs below an incident: its alerts, its bookmarks,
    /// its entities, or the running of a playbook.
    pub fn incident_sub_resource_url(&self, incident_id: &str, sub_resource: &str) -> (url: String)
        ensures
            url@ == incident_sub_resource_url_of(self@, incident_id@, sub_resource@),
    {
        let base = self.provider_url();
        base.concat("/incidents/").concat(incident_id).concat("/").concat(sub_resource).concat(
            "?api-version=2025-09-01",
        )
    }

    /// The URL of the workspace's Sentinel provider.
    pub fn provider_url(&self) -> (url: String)
        ensures
            url@ == provider_url_of(self@),
    {
        join3(
            "https://management.azure.com/subscriptions/",
            self.subscription_id.as_str(),
            "/resourceGroups/",
        ).concat(self.resource_group.as_str()).concat(
            "/providers/Microsoft.OperationalInsights/workspaces/",
        ).concat(self.workspace_name.as_str()).concat("/providers/Microsoft.SecurityInsights")
    }

    pub fn subscription_id(&self) -> (id: &str)
        ensures
            id@ == self@.subscription_id,
    {
        self.subscription_id.as_str()
    }

    pub fn resource_group(&self) -> (name: &str)
        ensures
            name@ == self@.resource_group,
    {
        self.resource_group.as_str()
    }

    pub fn workspace_name(&self) -> (name: &str)
        ensures
            name@ == self@.workspace_name,
    {
        self.workspace_name.as_str()
    }
}

impl TryFrom<&str> for Target {
    type Error = MalformedTarget;

    /// As [`Target::parse`].
    fn try_from(value: &str) -> (r: Result<Target, MalformedTarget>)
        ensures
            r is Ok <==> names_workspace(segments(value@, '/')),
            r matches Ok(target) ==> target@ == workspace_of(segments(value@, '/')),
    {
        Target::parse(value)
    }
}

impl TryFromSpecImpl<&str> for Target {
    open spec fn obeys_try_from_spec() -> bool {
        false
    }

    open spec fn try_from_spec(value: &str) -> Result<Target, MalformedTarget> {
        arbitrary()
    }
}

/// The operation groups of the Sentinel REST API.
#[derive(Debug, Clone, Copy, PartialEq, Eq, Structural)]
pub enum OperationGroups {
    /// Actions of alert rules.
    Actions,
    AlertRuleTemplates,
    AlertRules,
    AutomationRules,
    Bookmarks,
    /// Installing and removing packages.
    ContentPackage,
    ContentPackages,
    ContentTemplate,
    ContentTemplates,
    DataConnectorDefinitions,
    DataConnectors,
    /// Playbooks on entities.
    Entities,
    IncidentComments,
    IncidentRelations,
    IncidentTasks,
    /// Incidents with their alerts, bookmarks, entities and playbooks.
    Incidents,
    Metadata,
    Operations,
    ProductPackage,
    ProductPackages,
    ProductTemplate,
    ProductTemplates,
    SecurityMlAnalyticsSettings,
    SentinelOnboardingStates,
    SourceControl,
    SourceControls,
    ThreatIntelligenceIndicator,
    ThreatIntelligenceIndicatorMetrics,
    ThreatIntelligenceIndicators,
    WatchlistItems,
    Watchlists,
}

/// The workspaces that are known.
#[derive(Debug, Clone, Copy, PartialEq, Eq, Structural)]
pub struct Workspaces {}

} // verus!
