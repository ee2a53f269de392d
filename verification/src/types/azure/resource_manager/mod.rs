//! Shapes of the Resource Manager API: subscriptions, resource groups and
//! workspaces, as the service sends them (`raw`) and flattened for use.

pub mod raw;

use std::collections::HashMap;
use vstd::prelude::*;
use vstd::std_specs::convert::FromSpecImpl;

verus! {

#[derive(Debug, Clone, Copy, PartialEq, Eq, Structural)]
pub enum SubscriptionState {
    Enabled,
    Warned,
    PastDue,
    Disabled,
    Deleted,
}

#[derive(Debug, Clone, Copy, PartialEq, Eq, Structural)]
pub enum ProvisioningState {
    Creating,
    Succeeded,
    Failed,
    Canceled,
    Deleting,
    ProvisioningAccount,
    Updating,
}

#[derive(Debug, Clone, Copy, PartialEq, Eq, Structural)]
pub enum SkuName {
    Free,
    Standard,
    Premium,
    PerNode,
    PerGB2018,
    Standalone,
    CapacityReservation,
    LACluster,
}

#[derive(Debug, Clone, Copy, PartialEq, Eq, Structural)]
pub enum PublicNetworkAccess {
    Enabled,
    Disabled,
}

#[derive(Debug, Clone, Copy, PartialEq, Eq, Structural)]
pub enum DataIngestionStatus {
    RespectQuota,
    ForceOn,
    ForceOff,
    OverQuota,
    SubscriptionSuspended,
    ApproachingQuota,
}

#[derive(Debug, Clone, Copy, PartialEq, Eq, Structural)]
pub enum SpendingLimit {
    On,
    Off,
    CurrentPeriodOff,
}

#[derive(Debug, Clone)]
pub struct Subscription {
    pub id: String,
    pub subscription_id: String,
    pub tenant_id: Option<String>,
    pub display_name: Option<String>,
    pub state: Option<SubscriptionState>,
    pub managed_by_tenants: Vec<String>,
}

#[derive(Debug, Clone)]
pub struct ResourceGroupInfo {
    pub id: String,
    pub name: String,
    pub location: String,
    pub provisioning_state: Option<String>,
    pub managed_by: Option<String>,
    pub tags: HashMap<String, String>,
}

#[derive(Debug, Clone)]
pub struct Workspace {
    pub id: String,
    pub name: String,
    pub location: String,
    pub customer_id: Option<String>,
    pub provisioning_state: Option<ProvisioningState>,
    pub sku_name: Option<SkuName>,
    pub retention_in_days: Option<i32>,
    /// The bits of the number, as `f64::to_bits` gives them.
    pub daily_quota_gb: Option<u64>,
    pub public_network_access_for_ingestion: Option<PublicNetworkAccess>,
    pub public_network_access_for_query: Option<PublicNetworkAccess>,
    pub tags: HashMap<String, String>,
}
/// The characters of a text, none where there is no text.
pub open spec fn text_or_empty(text: Option<String>) -> Seq<char> {
    match text {
        Some(t) => t@,
        None => Seq::empty(),
    }
}

/// The text, or the empty text where there is none.
pub fn string_or_empty(text: Option<String>) -> (r: String)
    ensures
        r@ == text_or_empty(text),
        text matches Some(t) ==> r == t,
{
    match text {
        Some(t) => t,
        None => String::new(),
    }
}

/// The items of a list, none where there is no list.
pub open spec fn items_or_empty<T>(items: Option<Vec<T>>) -> Seq<T> {
    match items {
        Some(v) => v@,
        None => Seq::empty(),
    }
}

/// The list, or the empty list where there is none.
pub fn vec_or_empty<T>(items: Option<Vec<T>>) -> (r: Vec<T>)
    ensures
        r@ == items_or_empty(items),
        items matches Some(v) ==> r == v,
{
    match items {
        Some(v) => v,
        None => Vec::new(),
    }
}

/// The entries of a map of tags, none where there is no map.
pub open spec fn tags_or_empty(tags: Option<HashMap<String, String>>) -> Map<String, String> {
    match tags {
        Some(t) => t@,
        None => Map::empty(),
    }
}

/// The map of tags, or the empty map where there is none.
pub fn map_or_empty(tags: Option<HashMap<String, String>>) -> (r: HashMap<String, String>)
    ensures
        r@ == tags_or_empty(tags),
        tags matches Some(t) ==> r == t,
{
    match tags {
        Some(t) => t,
        None => HashMap::new(),
    }
}

/// The tenants that are named, in their order.
pub open spec fn named_tenants(tenants: Seq<raw::ManagedByTenant>) -> Seq<String>
    decreases tenants.len(),
{
    if tenants.len() == 0 {
        Seq::empty()
    } else {
        let before = named_tenants(tenants.drop_last());
        match tenants.last().tenant_id {
            Some(id) => before.push(id),
            None => before,
        }
    }
}

/// The tenants that are named, in their order.
pub fn collect_tenants(tenants: Vec<raw::ManagedByTenant>) -> (r: Vec<String>)
    ensures
        r@ == named_tenants(tenants@),
{
    broadcast use vstd::std_specs::vec::axiom_spec_into_iter;

    let ghost all = tenants@;
    let mut r: Vec<String> = Vec::new();
    for tenant in it: tenants.into_iter()
        invariant
            it.seq() == all,
            r@ == named_tenants(all.take(it.index())),
    {
        proof {
            let upto = all.take(it.index() + 1);
            assert(upto.drop_last() =~= all.take(it.index()));
        }
        match tenant.tenant_id {
            Some(id) => {
                r.push(id);
            },
            None => {},
        }
    }
    assert(all.take(all.len() as int) =~= all);
    r
}

impl From<raw::SubscriptionResponse> for Subscription {
    /// Flattens a subscription: what is missing becomes empty, and of the
    /// managing tenants those that are named stay.
    fn from(r: raw::SubscriptionResponse) -> (s: Subscription)
        ensures
            s.id@ == text_or_empty(r.id),
            s.subscription_id@ == text_or_empty(r.subscription_id),
            s.tenant_id == r.tenant_id,
            s.display_name == r.display_name,
            s.state == r.state,
            s.managed_by_tenants@ == named_tenants(items_or_empty(r.managed_by_tenants)),
    {
        Subscription {
            id: string_or_empty(r.id),
            subscription_id: string_or_empty(r.subscription_id),
            tenant_id: r.tenant_id,
            display_name: r.display_name,
            state: r.state,
            managed_by_tenants: collect_tenants(vec_or_empty(r.managed_by_tenants)),
        }
    }
}

impl FromSpecImpl<raw::SubscriptionResponse> for Subscription {
    open spec fn obeys_from_spec() -> bool {
        false
    }

    open spec fn from_spec(r: raw::SubscriptionResponse) -> Subscription {
        arbitrary()
    }
}

/// The provisioning state that the properties of a resource group name.
pub open spec fn group_state(properties: Option<raw::ResourceGroupProperties>) -> Option<String> {
    match properties {
        Some(p) => p.provisioning_state,
        None => None,
    }
}

impl From<raw::ResourceGroupResponse> for ResourceGroupInfo {
    /// Flattens a resource group: what is missing becomes empty.
    fn from(r: raw::ResourceGroupResponse) -> (g: ResourceGroupInfo)
        ensures
            g.id@ == text_or_empty(r.id),
            g.name@ == text_or_empty(r.name),
            g.location@ == text_or_empty(r.location),
            g.provisioning_state == group_state(r.properties),
            g.managed_by == r.managed_by,
            g.tags@ == tags_or_empty(r.tags),
    {
        ResourceGroupInfo {
            id: string_or_empty(r.id),
            name: string_or_empty(r.name),
            location: string_or_empty(r.location),
            provisioning_state: match r.properties {
                Some(p) => p.provisioning_state,
                None => None,
            },
            managed_by: r.managed_by,
            tags: map_or_empty(r.tags),
        }
    }
}

impl FromSpecImpl<raw::ResourceGroupResponse> for ResourceGroupInfo {
    open spec fn obeys_from_spec() -> bool {
        false
    }

    open spec fn from_spec(r: raw::ResourceGroupResponse) -> ResourceGroupInfo {
        arbitrary()
    }
}

/// What the flattened workspace takes from the properties of the workspace.
pub struct WorkspaceDetails {
    pub customer_id: Option<String>,
    pub provisioning_state: Option<ProvisioningState>,
    pub sku_name: Option<SkuName>,
    pub retention_in_days: Option<i32>,
    pub daily_quota_gb: Option<u64>,
    pub public_network_access_for_ingestion: Option<PublicNetworkAccess>,
    pub public_network_access_for_query: Option<PublicNetworkAccess>,
}

/// What the flattened workspace takes from the properties of the workspace:
/// nothing where there are none; else each property, the name of the SKU and
/// the daily quota of the cap.
pub open spec fn workspace_details(properties: Option<raw::WorkspaceProperties>) -> WorkspaceDetails {
    match properties {
        None => WorkspaceDetails {
            customer_id: None,
            provisioning_state: None,
            sku_name: None,
            retention_in_days: None,
            daily_quota_gb: None,
            public_network_access_for_ingestion: None,
            public_network_access_for_query: None,
        },
        Some(p) => WorkspaceDetails {
            customer_id: p.customer_id,
            provisioning_state: p.provisioning_state,
            sku_name: match p.sku {
                Some(sku) => Some(sku.name),
                None => None,
            },
            retention_in_days: p.retention_in_days,
            daily_quota_gb: match p.workspace_capping {
                Some(cap) => Some(cap.daily_quota_gb),
                None => None,
            },
            public_network_access_for_ingestion: p.public_network_access_for_ingestion,
            public_network_access_for_query: p.public_network_access_for_query,
        },
    }
}

fn details_of(properties: Option<raw::WorkspaceProperties>) -> (d: WorkspaceDetails)
    ensures
        d == workspace_details(properties),
{
    match properties {
        None => WorkspaceDetails {
            customer_id: None,
            provisioning_state: None,
            sku_name: None,
            retention_in_days: None,
            daily_quota_gb: None,
            public_network_access_for_ingestion: None,
            public_network_access_for_query: None,
        },
        Some(p) => WorkspaceDetails {
            customer_id: p.customer_id,
            provisioning_state: p.provisioning_state,
            sku_name: match p.sku {
                Some(sku) => Some(sku.name),
                None => None,
            },
            retention_in_days: p.retention_in_days,
            daily_quota_gb: match p.workspace_capping {
                Some(cap) => Some(cap.daily_quota_gb),
                None => None,
            },
            public_network_access_for_ingestion: p.public_network_access_for_ingestion,
            public_network_access_for_query: p.public_network_access_for_query,
        },
    }
}

impl From<raw::WorkspaceResponse> for Workspace {
    /// Flattens a workspace: what is missing becomes empty.
    fn from(r: raw::WorkspaceResponse) -> (w: Workspace)
        ensures
            w.id@ == text_or_empty(r.id),
            w.name@ == text_or_empty(r.name),
            w.location@ == text_or_empty(r.location),
            w.tags@ == tags_or_empty(r.tags),
            w.customer_id == workspace_details(r.properties).customer_id,
            w.provisioning_state == workspace_details(r.properties).provisioning_state,
            w.sku_name == workspace_details(r.properties).sku_name,
            w.retention_in_days == workspace_details(r.properties).retention_in_days,
            w.daily_quota_gb == workspace_details(r.properties).daily_quota_gb,
            w.public_network_access_for_ingestion == workspace_details(
                r.properties,
            ).public_network_access_for_ingestion,
            w.public_network_access_for_query == workspace_details(
                r.properties,
            ).public_network_access_for_query,
    {
        let d = details_of(r.properties);
        Workspace {
            id: string_or_empty(r.id),
            name: string_or_empty(r.name),
            location: string_or_empty(r.location),
            customer_id: d.customer_id,
            provisioning_state: d.provisioning_state,
            sku_name: d.sku_name,
            retention_in_days: d.retention_in_days,
            daily_quota_gb: d.daily_quota_gb,
            public_network_access_for_ingestion: d.public_network_access_for_ingestion,
            public_network_access_for_query: d.public_network_access_for_query,
            tags: map_or_empty(r.tags),
        }
    }
}

impl FromSpecImpl<raw::WorkspaceResponse> for Workspace {
    open spec fn obeys_from_spec() -> bool {
        false
    }

    open spec fn from_spec(r: raw::WorkspaceResponse) -> Workspace {
        arbitrary()
    }
}

} // verus!
