//! The shapes of the Resource Manager API as the service sends them.

use crate::types::azure::common::SystemData;
use crate::types::azure::resource_manager::{
    DataIngestionStatus, ProvisioningState, PublicNetworkAccess, SkuName, SpendingLimit,
    SubscriptionState,
};
use std::collections::HashMap;
use vstd::prelude::*;

verus! {

#[derive(Debug, Clone)]
pub struct SubscriptionResponse {
    pub id: Option<String>,
    pub subscription_id: Option<String>,
    pub tenant_id: Option<String>,
    pub display_name: Option<String>,
    pub state: Option<SubscriptionState>,
    pub subscription_policies: Option<SubscriptionPolicies>,
    pub authorization_source: Option<String>,
    pub managed_by_tenants: Option<Vec<ManagedByTenant>>,
    pub tags: Option<HashMap<String, String>>,
}

#[derive(Debug, Clone)]
pub struct SubscriptionPolicies {
    pub location_placement_id: Option<String>,
    pub quota_id: Option<String>,
    pub spending_limit: Option<SpendingLimit>,
}

#[derive(Debug, Clone)]
pub struct ManagedByTenant {
    pub tenant_id: Option<String>,
}

#[derive(Debug, Clone)]
pub struct ResourceGroupResponse {
    pub id: Option<String>,
    pub name: Option<String>,
    pub resource_type: Option<String>,
    pub location: Option<String>,
    pub managed_by: Option<String>,
    pub tags: Option<HashMap<String, String>>,
    pub properties: Option<ResourceGroupProperties>,
}

#[derive(Debug, Clone)]
pub struct ResourceGroupProperties {
    pub provisioning_state: Option<String>,
}

#[derive(Debug, Clone)]
pub struct WorkspaceResponse {
    pub id: Option<String>,
    pub name: Option<String>,
    pub resource_type: Option<String>,
    pub location: Option<String>,
    pub etag: Option<String>,
    pub tags: Option<HashMap<String, String>>,
    pub properties: Option<WorkspaceProperties>,
    pub system_data: Option<SystemData>,
}

#[derive(Debug, Clone)]
pub struct WorkspaceProperties {
    pub customer_id: Option<String>,
    pub provisioning_state: Option<ProvisioningState>,
    pub sku: Option<WorkspaceSku>,
    pub retention_in_days: Option<i32>,
    pub workspace_capping: Option<WorkspaceCapping>,
    pub created_date: Option<String>,
    pub modified_date: Option<String>,
    pub public_network_access_for_ingestion: Option<PublicNetworkAccess>,
    pub public_network_access_for_query: Option<PublicNetworkAccess>,
    pub force_cmk_for_query: Option<bool>,
    pub default_data_collection_rule_resource_id: Option<String>,
    pub features: Option<WorkspaceFeatures>,
}

#[derive(Debug, Clone)]
pub struct WorkspaceSku {
    pub name: SkuName,
    pub capacity_reservation_level: Option<i32>,
    pub last_sku_update: Option<String>,
}

#[derive(Debug, Clone)]
pub struct WorkspaceCapping {
    /// The bits of the number, as `f64::to_bits` gives them.
    pub daily_quota_gb: u64,
    pub quota_next_reset_time: Option<String>,
    pub data_ingestion_status: Option<DataIngestionStatus>,
}

#[derive(Debug, Clone)]
pub struct WorkspaceFeatures {
    pub cluster_resource_id: Option<String>,
    pub disable_local_auth: Option<bool>,
    pub enable_data_export: Option<bool>,
    pub enable_log_access_using_only_resource_permissions: Option<bool>,
    pub immediate_purge_data_on30_days: Option<bool>,
    pub unified_sentinel_billing_only: Option<bool>,
}
} // verus!
