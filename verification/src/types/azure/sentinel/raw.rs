//! The shapes of the Sentinel API as the service sends them.

use crate::types::azure::common::SystemData;
use crate::types::azure::sentinel::{
    AttackTactic, Classification, ClassificationReason, IncidentStatus, LabelType, OwnerType,
    Severity, SourceType, WatchlistProvisioningState,
};
use crate::types::json::JsonValue;
use vstd::prelude::*;

verus! {

#[derive(Debug, Clone)]
pub struct IncidentResponse {
    pub id: String,
    pub name: String,
    pub resource_type: Option<String>,
    pub etag: Option<String>,
    pub properties: IncidentProperties,
    pub system_data: Option<SystemData>,
}

#[derive(Debug, Clone)]
pub struct IncidentProperties {
    pub title: String,
    pub severity: Severity,
    pub status: IncidentStatus,
    pub description: Option<String>,
    pub incident_number: Option<i32>,
    pub incident_url: Option<String>,
    pub created_time_utc: Option<String>,
    pub last_modified_time_utc: Option<String>,
    pub first_activity_time_utc: Option<String>,
    pub last_activity_time_utc: Option<String>,
    pub classification: Option<Classification>,
    pub classification_comment: Option<String>,
    pub classification_reason: Option<ClassificationReason>,
    pub owner: Option<IncidentOwnerInfo>,
    pub labels: Option<Vec<IncidentLabelInfo>>,
    pub provider_name: Option<String>,
    pub provider_incident_id: Option<String>,
    pub related_analytic_rule_ids: Option<Vec<String>>,
    pub additional_data: Option<IncidentAdditionalData>,
}

#[derive(Debug, Clone)]
pub struct IncidentOwnerInfo {
    pub object_id: Option<u128>,
    pub email: Option<String>,
    pub user_principal_name: Option<String>,
    pub assigned_to: Option<String>,
    pub owner_type: Option<OwnerType>,
}

#[derive(Debug, Clone)]
pub struct IncidentLabelInfo {
    pub label_name: String,
    pub label_type: Option<LabelType>,
}

#[derive(Debug, Clone)]
pub struct IncidentAdditionalData {
    pub alerts_count: Option<i32>,
    pub bookmarks_count: Option<i32>,
    pub comments_count: Option<i32>,
    pub alert_product_names: Option<Vec<String>>,
    pub tactics: Option<Vec<AttackTactic>>,
    pub provider_incident_url: Option<String>,
}

#[derive(Debug, Clone)]
pub struct WatchlistResponse {
    pub id: String,
    pub name: String,
    pub resource_type: Option<String>,
    pub etag: Option<String>,
    pub properties: WatchlistProperties,
    pub system_data: Option<SystemData>,
}

#[derive(Debug, Clone)]
pub struct WatchlistProperties {
    pub watchlist_id: Option<String>,
    pub display_name: Option<String>,
    pub provider: Option<String>,
    pub source: Option<String>,
    pub source_type: Option<SourceType>,
    pub description: Option<String>,
    pub watchlist_type: Option<String>,
    pub watchlist_alias: Option<String>,
    pub items_search_key: Option<String>,
    pub is_deleted: Option<bool>,
    pub labels: Option<Vec<String>>,
    pub default_duration: Option<String>,
    pub tenant_id: Option<String>,
    pub content_type: Option<String>,
    pub number_of_lines_to_skip: Option<i32>,
    pub raw_content: Option<String>,
    pub upload_status: Option<String>,
    pub provisioning_state: Option<WatchlistProvisioningState>,
    pub created: Option<String>,
    pub updated: Option<String>,
    pub created_by: Option<WatchlistUserInfoRaw>,
    pub updated_by: Option<WatchlistUserInfoRaw>,
}

#[derive(Debug, Clone)]
pub struct WatchlistUserInfoRaw {
    pub object_id: Option<u128>,
    pub email: Option<String>,
    pub name: Option<String>,
}

#[derive(Debug, Clone)]
pub struct WatchlistItemResponse {
    pub id: String,
    pub name: String,
    pub resource_type: Option<String>,
    pub etag: Option<String>,
    pub properties: WatchlistItemProperties,
    pub system_data: Option<SystemData>,
}

#[derive(Debug, Clone)]
pub struct WatchlistItemProperties {
    pub watchlist_item_id: Option<String>,
    pub watchlist_item_type: Option<String>,
    pub tenant_id: Option<String>,
    pub is_deleted: Option<bool>,
    pub created: Option<String>,
    pub updated: Option<String>,
    pub created_by: Option<WatchlistUserInfoRaw>,
    pub updated_by: Option<WatchlistUserInfoRaw>,
    pub items_key_value: Option<JsonValue>,
    pub entity_mapping: Option<JsonValue>,
}

#[derive(Debug, Clone)]
pub struct AlertListResponse {
    pub value: Vec<SecurityAlert>,
}

#[derive(Debug, Clone)]
pub struct SecurityAlert {
    pub id: Option<String>,
    pub name: Option<String>,
    pub resource_type: Option<String>,
    pub kind: Option<String>,
    pub properties: Option<SecurityAlertProperties>,
}

#[derive(Debug, Clone)]
pub struct SecurityAlertProperties {
    pub system_alert_id: Option<String>,
    pub alert_display_name: Option<String>,
    pub alert_type: Option<String>,
    pub alert_link: Option<String>,
    pub description: Option<String>,
    pub compromised_entity: Option<String>,
    pub vendor_name: Option<String>,
    pub product_name: Option<String>,
    pub severity: Option<Severity>,
    pub status: Option<String>,
    pub tactics: Option<Vec<AttackTactic>>,
    pub start_time_utc: Option<String>,
    pub end_time_utc: Option<String>,
    pub time_generated: Option<String>,
    pub friendly_name: Option<String>,
}

#[derive(Debug, Clone)]
pub struct EntityListResponse {
    pub entities: Vec<Entity>,
    pub metadata: Option<Vec<EntityMetadata>>,
}

#[derive(Debug, Clone)]
pub struct Entity {
    pub id: Option<String>,
    pub name: Option<String>,
    pub resource_type: Option<String>,
    pub kind: Option<String>,
    pub properties: Option<JsonValue>,
}

#[derive(Debug, Clone)]
pub struct EntityMetadata {
    pub entity_kind: Option<String>,
    pub count: Option<i32>,
}
} // verus!
