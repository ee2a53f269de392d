//! Shapes of the Sentinel API: incidents, watchlists and watchlist items, as
//! the service sends them (`raw`) and flattened for use.

pub mod raw;

use crate::types::azure::resource_manager::{items_or_empty, vec_or_empty};
use crate::types::json::JsonValue;
use vstd::prelude::*;
use vstd::std_specs::convert::FromSpecImpl;
use vstd::string::*;

verus! {

#[derive(Debug, Clone, Copy, PartialEq, Eq, Structural)]
pub enum Severity {
    High,
    Medium,
    Low,
    Informational,
}

#[derive(Debug, Clone, Copy, PartialEq, Eq, Structural)]
pub enum IncidentStatus {
    New,
    Active,
    Closed,
}

#[derive(Debug, Clone, Copy, PartialEq, Eq, Structural)]
pub enum Classification {
    Undetermined,
    TruePositive,
    BenignPositive,
    FalsePositive,
}

#[derive(Debug, Clone, Copy, PartialEq, Eq, Structural)]
pub enum ClassificationReason {
    SuspiciousActivity,
    SuspiciousButExpected,
    IncorrectAlertLogic,
    InaccurateData,
}

#[derive(Debug, Clone, Copy, PartialEq, Eq, Structural)]
pub enum OwnerType {
    Unknown,
    User,
    Group,
}

#[derive(Debug, Clone, Copy, PartialEq, Eq, Structural)]
pub enum LabelType {
    User,
    AutoAssigned,
}

#[derive(Debug, Clone, Copy, PartialEq, Eq, Structural)]
pub enum AttackTactic {
    Reconnaissance,
    ResourceDevelopment,
    InitialAccess,
    Execution,
    Persistence,
    PrivilegeEscalation,
    DefenseEvasion,
    CredentialAccess,
    Discovery,
    LateralMovement,
    Collection,
    Exfiltration,
    CommandAndControl,
    Impact,
    PreAttack,
    ImpairProcessControl,
    InhibitResponseFunction,
}

#[derive(Debug, Clone)]
pub struct Incident {
    pub id: String,
    pub name: String,
    pub etag: Option<String>,
    pub title: String,
    pub description: Option<String>,
    pub severity: Severity,
    pub status: IncidentStatus,
    pub incident_number: Option<i32>,
    pub incident_url: Option<String>,
    pub created_time_utc: Option<String>,
    pub last_modified_time_utc: Option<String>,
    pub first_activity_time_utc: Option<String>,
    pub last_activity_time_utc: Option<String>,
    pub classification: Option<Classification>,
    pub classification_comment: Option<String>,
    pub classification_reason: Option<ClassificationReason>,
    pub owner: Option<IncidentOwner>,
    pub labels: Vec<IncidentLabel>,
    pub provider_name: Option<String>,
    pub provider_incident_id: Option<String>,
    pub related_analytic_rule_ids: Vec<String>,
    pub alerts_count: Option<i32>,
    pub bookmarks_count: Option<i32>,
    pub comments_count: Option<i32>,
    pub alert_product_names: Vec<String>,
    pub tactics: Vec<AttackTactic>,
}

#[derive(Debug, Clone)]
pub struct IncidentOwner {
    pub object_id: Option<u128>,
    pub email: Option<String>,
    pub user_principal_name: Option<String>,
    pub assigned_to: Option<String>,
    pub owner_type: Option<OwnerType>,
}

#[derive(Debug, Clone)]
pub struct IncidentLabel {
    pub label_name: String,
    pub label_type: Option<LabelType>,
}

#[derive(Debug, Clone, Copy, PartialEq, Eq, Structural)]
pub enum SourceType {
    Local,
    AzureStorage,
}

#[derive(Debug, Clone, Copy, PartialEq, Eq, Structural)]
pub enum WatchlistProvisioningState {
    New,
    InProgress,
    Uploading,
    Deleting,
    Succeeded,
    Failed,
    Canceled,
}

#[derive(Debug, Clone)]
pub struct Watchlist {
    pub id: String,
    pub name: String,
    pub etag: Option<String>,
    pub watchlist_id: Option<String>,
    pub display_name: Option<String>,
    pub provider: Option<String>,
    pub source: Option<String>,
    pub source_type: Option<SourceType>,
    pub description: Option<String>,
    pub watchlist_type: Option<String>,
    pub watchlist_alias: Option<String>,
    pub items_search_key: Option<String>,
    pub is_deleted: Option<bool>,
    pub labels: Vec<String>,
    pub default_duration: Option<String>,
    pub tenant_id: Option<String>,
    pub content_type: Option<String>,
    pub number_of_lines_to_skip: Option<i32>,
    pub upload_status: Option<String>,
    pub provisioning_state: Option<WatchlistProvisioningState>,
    pub created: Option<String>,
    pub updated: Option<String>,
    pub created_by: Option<WatchlistUserInfo>,
    pub updated_by: Option<WatchlistUserInfo>,
}

#[derive(Debug, Clone)]
pub struct WatchlistUserInfo {
    pub object_id: Option<u128>,
    pub email: Option<String>,
    pub name: Option<String>,
}

#[derive(Debug, Clone)]
pub struct CreateWatchlist {
    pub etag: Option<String>,
    pub properties: CreateWatchlistProperties,
}

#[derive(Debug, Clone)]
pub struct CreateWatchlistProperties {
    pub display_name: String,
    pub items_search_key: String,
    pub provider: String,
    pub source: Option<String>,
    pub source_type: Option<SourceType>,
    pub description: Option<String>,
    pub watchlist_type: Option<String>,
    pub content_type: Option<String>,
    pub raw_content: Option<String>,
    pub number_of_lines_to_skip: Option<i32>,
    pub labels: Option<Vec<String>>,
    pub default_duration: Option<String>,
}

#[derive(Debug, Clone)]
pub struct WatchlistItem {
    pub id: String,
    pub name: String,
    pub etag: Option<String>,
    pub watchlist_item_id: Option<String>,
    pub watchlist_item_type: Option<String>,
    pub tenant_id: Option<String>,
    pub is_deleted: Option<bool>,
    pub created: Option<String>,
    pub updated: Option<String>,
    pub created_by: Option<WatchlistUserInfo>,
    pub updated_by: Option<WatchlistUserInfo>,
    pub items_key_value: JsonValue,
    pub entity_mapping: Option<JsonValue>,
}

#[derive(Debug, Clone)]
pub struct CreateWatchlistItem {
    pub etag: Option<String>,
    pub properties: CreateWatchlistItemProperties,
}

#[derive(Debug, Clone)]
pub struct CreateWatchlistItemProperties {
    pub items_key_value: JsonValue,
    pub entity_mapping: Option<JsonValue>,
    pub watchlist_item_id: Option<String>,
    pub watchlist_item_type: Option<String>,
}

#[derive(Debug, Clone)]
pub struct CreateIncident {
    pub etag: Option<String>,
    pub properties: CreateIncidentProperties,
}

#[derive(Debug, Clone)]
pub struct CreateIncidentProperties {
    pub title: String,
    pub severity: Severity,
    pub status: IncidentStatus,
    pub description: Option<String>,
    pub first_activity_time_utc: Option<String>,
    pub last_activity_time_utc: Option<String>,
    pub owner: Option<raw::IncidentOwnerInfo>,
    pub classification: Option<Classification>,
    pub classification_comment: Option<String>,
    pub classification_reason: Option<ClassificationReason>,
    pub labels: Option<Vec<raw::IncidentLabelInfo>>,
}
/// The owner of an incident, flattened.
pub open spec fn owner_of(owner: Option<raw::IncidentOwnerInfo>) -> Option<IncidentOwner> {
    match owner {
        Some(o) => Some(
            IncidentOwner {
                object_id: o.object_id,
                email: o.email,
                user_principal_name: o.user_principal_name,
                assigned_to: o.assigned_to,
                owner_type: o.owner_type,
            },
        ),
        None => None,
    }
}

/// A label of an incident, flattened.
pub open spec fn label_of(label: raw::IncidentLabelInfo) -> IncidentLabel {
    IncidentLabel { label_name: label.label_name, label_type: label.label_type }
}

/// The labels of an incident, flattened, in their order.
pub open spec fn labels_of(labels: Seq<raw::IncidentLabelInfo>) -> Seq<IncidentLabel> {
    labels.map_values(|label: raw::IncidentLabelInfo| label_of(label))
}

/// The user behind a watchlist or one of its items, flattened.
pub open spec fn user_of(user: Option<raw::WatchlistUserInfoRaw>) -> Option<WatchlistUserInfo> {
    match user {
        Some(u) => Some(WatchlistUserInfo { object_id: u.object_id, email: u.email, name: u.name }),
        None => None,
    }
}

fn flatten_owner(owner: Option<raw::IncidentOwnerInfo>) -> (r: Option<IncidentOwner>)
    ensures
        r == owner_of(owner),
{
    match owner {
        Some(o) => Some(
            IncidentOwner {
                object_id: o.object_id,
                email: o.email,
                user_principal_name: o.user_principal_name,
                assigned_to: o.assigned_to,
                owner_type: o.owner_type,
            },
        ),
        None => None,
    }
}

fn flatten_labels(labels: Vec<raw::IncidentLabelInfo>) -> (r: Vec<IncidentLabel>)
    ensures
        r@ == labels_of(labels@),
{
    broadcast use vstd::std_specs::vec::axiom_spec_into_iter;

    let ghost all = labels@;
    let mut r: Vec<IncidentLabel> = Vec::new();
    for label in it: labels.into_iter()
        invariant
            it.seq() == all,
            r@ == labels_of(all.take(it.index())),
    {
        r.push(IncidentLabel { label_name: label.label_name, label_type: label.label_type });
    }
    r
}

fn flatten_user(user: Option<raw::WatchlistUserInfoRaw>) -> (r: Option<WatchlistUserInfo>)
    ensures
        r == user_of(user),
{
    match user {
        Some(u) => Some(WatchlistUserInfo { object_id: u.object_id, email: u.email, name: u.name }),
        None => None,
    }
}

/// The counts and lists that an incident carries beside its properties.
pub open spec fn no_additional_data() -> raw::IncidentAdditionalData {
    raw::IncidentAdditionalData {
        alerts_count: None,
        bookmarks_count: None,
        comments_count: None,
        alert_product_names: None,
        tactics: None,
        provider_incident_url: None,
    }
}

/// The additional data of an incident, all of it missing where there is none.
pub open spec fn additional_or_none(data: Option<raw::IncidentAdditionalData>) -> raw::IncidentAdditionalData {
    match data {
        Some(d) => d,
        None => no_additional_data(),
    }
}

impl From<raw::IncidentResponse> for Incident {
    /// Flattens an incident: the properties and the additional data move up
    /// beside the identifiers, and a list that is missing becomes empty.
    fn from(r: raw::IncidentResponse) -> (i: Incident)
        ensures
            i.id == r.id,
            i.name == r.name,
            i.etag == r.etag,
            i.title == r.properties.title,
            i.description == r.properties.description,
            i.severity == r.properties.severity,
            i.status == r.properties.status,
            i.incident_number == r.properties.incident_number,
            i.incident_url == r.properties.incident_url,
            i.created_time_utc == r.properties.created_time_utc,
            i.last_modified_time_utc == r.properties.last_modified_time_utc,
            i.first_activity_time_utc == r.properties.first_activity_time_utc,
            i.last_activity_time_utc == r.properties.last_activity_time_utc,
            i.classification == r.properties.classification,
            i.classification_comment == r.properties.classification_comment,
            i.classification_reason == r.properties.classification_reason,
            i.owner == owner_of(r.properties.owner),
            i.labels@ == labels_of(items_or_empty(r.properties.labels)),
            i.provider_name == r.properties.provider_name,
            i.provider_incident_id == r.properties.provider_incident_id,
            i.related_analytic_rule_ids@ == items_or_empty(r.properties.related_analytic_rule_ids),
            i.alerts_count == additional_or_none(r.properties.additional_data).alerts_count,
            i.bookmarks_count == additional_or_none(r.properties.additional_data).bookmarks_count,
            i.comments_count == additional_or_none(r.properties.additional_data).comments_count,
            i.alert_product_names@ == items_or_empty(
                additional_or_none(r.properties.additional_data).alert_product_names,
            ),
            i.tactics@ == items_or_empty(additional_or_none(r.properties.additional_data).tactics),
    {
        let p = r.properties;
        let ad = match p.additional_data {
            Some(d) => d,
            None => raw::IncidentAdditionalData {
                alerts_count: None,
                bookmarks_count: None,
                comments_count: None,
                alert_product_names: None,
                tactics: None,
                provider_incident_url: None,
            },
        };
        Incident {
            id: r.id,
            name: r.name,
            etag: r.etag,
            title: p.title,
            description: p.description,
            severity: p.severity,
            status: p.status,
            incident_number: p.incident_number,
            incident_url: p.incident_url,
            created_time_utc: p.created_time_utc,
            last_modified_time_utc: p.last_modified_time_utc,
            first_activity_time_utc: p.first_activity_time_utc,
            last_activity_time_utc: p.last_activity_time_utc,
            classification: p.classification,
            classification_comment: p.classification_comment,
            classification_reason: p.classification_reason,
            owner: flatten_owner(p.owner),
            labels: flatten_labels(vec_or_empty(p.labels)),
            provider_name: p.provider_name,
            provider_incident_id: p.provider_incident_id,
            related_analytic_rule_ids: vec_or_empty(p.related_analytic_rule_ids),
            alerts_count: ad.alerts_count,
            bookmarks_count: ad.bookmarks_count,
            comments_count: ad.comments_count,
            alert_product_names: vec_or_empty(ad.alert_product_names),
            tactics: vec_or_empty(ad.tactics),
        }
    }
}

impl FromSpecImpl<raw::IncidentResponse> for Incident {
    open spec fn obeys_from_spec() -> bool {
        false
    }

    open spec fn from_spec(r: raw::IncidentResponse) -> Incident {
        arbitrary()
    }
}

impl From<raw::WatchlistResponse> for Watchlist {
    /// Flattens a watchlist: the properties move up beside the identifiers,
    /// and labels that are missing become an empty list.
    fn from(r: raw::WatchlistResponse) -> (w: Watchlist)
        ensures
            w.id == r.id,
            w.name == r.name,
            w.etag == r.etag,
            w.watchlist_id == r.properties.watchlist_id,
            w.display_name == r.properties.display_name,
            w.provider == r.properties.provider,
            w.source == r.properties.source,
            w.source_type == r.properties.source_type,
            w.description == r.properties.description,
            w.watchlist_type == r.properties.watchlist_type,
            w.watchlist_alias == r.properties.watchlist_alias,
            w.items_search_key == r.properties.items_search_key,
            w.is_deleted == r.properties.is_deleted,
            w.labels@ == items_or_empty(r.properties.labels),
            w.default_duration == r.properties.default_duration,
            w.tenant_id == r.properties.tenant_id,
            w.content_type == r.properties.content_type,
            w.number_of_lines_to_skip == r.properties.number_of_lines_to_skip,
            w.upload_status == r.properties.upload_status,
            w.provisioning_state == r.properties.provisioning_state,
            w.created == r.properties.created,
            w.updated == r.properties.updated,
            w.created_by == user_of(r.properties.created_by),
            w.updated_by == user_of(r.properties.updated_by),
    {
        let p = r.properties;
        Watchlist {
            id: r.id,
            name: r.name,
            etag: r.etag,
            watchlist_id: p.watchlist_id,
            display_name: p.display_name,
            provider: p.provider,
            source: p.source,
            source_type: p.source_type,
            description: p.description,
            watchlist_type: p.watchlist_type,
            watchlist_alias: p.watchlist_alias,
            items_search_key: p.items_search_key,
            is_deleted: p.is_deleted,
            labels: vec_or_empty(p.labels),
            default_duration: p.default_duration,
            tenant_id: p.tenant_id,
            content_type: p.content_type,
            number_of_lines_to_skip: p.number_of_lines_to_skip,
            upload_status: p.upload_status,
            provisioning_state: p.provisioning_state,
            created: p.created,
            updated: p.updated,
            created_by: flatten_user(p.created_by),
            updated_by: flatten_user(p.updated_by),
        }
    }
}

impl FromSpecImpl<raw::WatchlistResponse> for Watchlist {
    open spec fn obeys_from_spec() -> bool {
        false
    }

    open spec fn from_spec(r: raw::WatchlistResponse) -> Watchlist {
        arbitrary()
    }
}

/// The JSON text of an object without members.
pub open spec fn empty_object() -> Seq<char> {
    "{}"@
}

/// The key-value content of a watchlist item: as it came or, where there is
/// none, an object without members.
pub open spec fn key_value_of(content: Option<JsonValue>, r: JsonValue) -> bool {
    match content {
        Some(value) => r == value,
        None => r matches JsonValue::Object(text) && text@ == empty_object(),
    }
}

impl From<raw::WatchlistItemResponse> for WatchlistItem {
    /// Flattens a watchlist item: the properties move up beside the
    /// identifiers, and a key-value content that is missing becomes an object
    /// without members.
    fn from(r: raw::WatchlistItemResponse) -> (w: WatchlistItem)
        ensures
            w.id == r.id,
            w.name == r.name,
            w.etag == r.etag,
            w.watchlist_item_id == r.properties.watchlist_item_id,
            w.watchlist_item_type == r.properties.watchlist_item_type,
            w.tenant_id == r.properties.tenant_id,
            w.is_deleted == r.properties.is_deleted,
            w.created == r.properties.created,
            w.updated == r.properties.updated,
            w.created_by == user_of(r.properties.created_by),
            w.updated_by == user_of(r.properties.updated_by),
            key_value_of(r.properties.items_key_value, w.items_key_value),
            w.entity_mapping == r.properties.entity_mapping,
    {
        let p = r.properties;
        WatchlistItem {
            id: r.id,
            name: r.name,
            etag: r.etag,
            watchlist_item_id: p.watchlist_item_id,
            watchlist_item_type: p.watchlist_item_type,
            tenant_id: p.tenant_id,
            is_deleted: p.is_deleted,
            created: p.created,
            updated: p.updated,
            created_by: flatten_user(p.created_by),
            updated_by: flatten_user(p.updated_by),
            items_key_value: match p.items_key_value {
                Some(value) => value,
                None => JsonValue::Object(String::from_str("{}")),
            },
            entity_mapping: p.entity_mapping,
        }
    }
}

impl FromSpecImpl<raw::WatchlistItemResponse> for WatchlistItem {
    open spec fn obeys_from_spec() -> bool {
        false
    }

    open spec fn from_spec(r: raw::WatchlistItemResponse) -> WatchlistItem {
        arbitrary()
    }
}

} // verus!
