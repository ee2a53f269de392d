//! The shapes of the Sentinel incidents API, and the names of its values.

use crate::text::{join3, str_eq};
use crate::types::json::JsonValue;
use std::collections::HashMap;
use vstd::prelude::*;
use vstd::string::*;

verus! {

/// The severity of the incident.
#[derive(Debug, Clone, Copy, PartialEq, Eq, Structural)]
pub enum IncidentSeverity {
    High,
    Medium,
    Low,
    Informational,
}

/// The status of the incident.
#[derive(Debug, Clone, Copy, PartialEq, Eq, Structural)]
pub enum IncidentStatus {
    New,
    Active,
    Closed,
}

/// The reason the incident was closed.
#[derive(Debug, Clone, Copy, PartialEq, Eq, Structural)]
pub enum IncidentClassification {
    Undetermined,
    TruePositive,
    BenignPositive,
    FalsePositive,
}

/// The classification reason the incident was closed with.
#[derive(Debug, Clone, Copy, PartialEq, Eq, Structural)]
pub enum IncidentClassificationReason {
    SuspiciousActivity,
    SuspiciousButExpected,
    IncorrectAlertLogic,
    InaccurateData,
}

/// The type of the incident label.
#[derive(Debug, Clone, Copy, PartialEq, Eq, Structural)]
pub enum IncidentLabelType {
    User,
    AutoAssigned,
}

/// The type of the owner.
#[derive(Debug, Clone, Copy, PartialEq, Eq, Structural)]
pub enum OwnerType {
    Unknown,
    User,
    Group,
}

/// The type of identity that created/modified the resource.
#[derive(Debug, Clone, Copy, PartialEq, Eq, Structural)]
pub enum CreatedByType {
    User,
    Application,
    ManagedIdentity,
    Key,
}

/// MITRE ATT&CK tactics.
#[derive(Debug, Clone, Copy, PartialEq, Eq, Structural)]
pub enum AttackTactic {
    Reconnaissance,
    ResourceDevelopment,
    InitialAccess,
    Execution,
    Persistence,
    PrivilegeEscalation,
    DefenseEvasion,
    CredentialAccess,
    Discovery,
    LateralMovement,
    Collection,
    Exfiltration,
    CommandAndControl,
    Impact,
    PreAttack,
    ImpairProcessControl,
    InhibitResponseFunction,
}

/// The severity of the alert.
#[derive(Debug, Clone, Copy, PartialEq, Eq, Structural)]
pub enum AlertSeverity {
    High,
    Medium,
    Low,
    Informational,
}

/// The status of the alert.
#[derive(Debug, Clone, Copy, PartialEq, Eq, Structural)]
pub enum AlertStatus {
    Unknown,
    New,
    Resolved,
    Dismissed,
    InProgress,
}

/// The confidence level of the alert.
#[derive(Debug, Clone, Copy, PartialEq, Eq, Structural)]
pub enum ConfidenceLevel {
    Unknown,
    Low,
    High,
}

/// The confidence score calculation status.
#[derive(Debug, Clone, Copy, PartialEq, Eq, Structural)]
pub enum ConfidenceScoreStatus {
    NotApplicable,
    InProcess,
    NotFinal,
    Final,
}

/// Kill chain intent.
#[derive(Debug, Clone, Copy, PartialEq, Eq, Structural)]
pub enum KillChainIntent {
    Unknown,
    Probing,
    Exploitation,
    Persistence,
    PrivilegeEscalation,
    DefenseEvasion,
    CredentialAccess,
    Discovery,
    LateralMovement,
    Execution,
    Collection,
    Exfiltration,
    CommandAndControl,
    Impact,
}

/// The kind of entity.
#[derive(Debug, Clone, Copy, PartialEq, Eq, Structural)]
pub enum EntityKind {
    Account,
    Host,
    File,
    AzureResource,
    CloudApplication,
    DnsResolution,
    FileHash,
    Ip,
    Malware,
    Process,
    RegistryKey,
    RegistryValue,
    SecurityGroup,
    Url,
    IoTDevice,
    SecurityAlert,
    Bookmark,
    Mailbox,
    MailCluster,
    MailMessage,
    SubmissionMail,
}

/// The elevation token of a process.
#[derive(Debug, Clone, Copy, PartialEq, Eq, Structural)]
pub enum ElevationToken {
    Default,
    Full,
    Limited,
}

/// The hash algorithm type.
#[derive(Debug, Clone, Copy, PartialEq, Eq, Structural)]
pub enum FileHashAlgorithm {
    Unknown,
    MD5,
    SHA1,
    SHA256,
    SHA256AC,
}

/// The operating system family.
#[derive(Debug, Clone, Copy, PartialEq, Eq, Structural)]
pub enum OSFamily {
    Linux,
    Windows,
    Android,
    IOS,
    Unknown,
}

/// Windows registry hive.
#[derive(Debug, Clone, Copy, PartialEq, Eq, Structural)]
pub enum RegistryHive {
    HkeyLocalMachine,
    HkeyClassesRoot,
    HkeyCurrentConfig,
    HkeyUsers,
    HkeyCurrentUserLocalSettings,
    HkeyPerformanceData,
    HkeyPerformanceNlstext,
    HkeyPerformanceText,
    HkeyA,
    HkeyCurrentUser,
}

/// Windows registry value kind.
#[derive(Debug, Clone, Copy, PartialEq, Eq, Structural)]
pub enum RegistryValueKind {
    /// No kind; the service writes it `None`.
    Absent,
    Unknown,
    String,
    ExpandString,
    Binary,
    DWord,
    MultiString,
    QWord,
}

/// Antispam mail direction.
#[derive(Debug, Clone, Copy, PartialEq, Eq, Structural)]
pub enum AntispamMailDirection {
    Unknown,
    Inbound,
    Outbound,
    Intraorg,
}

/// Mail delivery action.
#[derive(Debug, Clone, Copy, PartialEq, Eq, Structural)]
pub enum DeliveryAction {
    Unknown,
    DeliveredAsSpam,
    Delivered,
    Blocked,
    Replaced,
}

/// Mail delivery location.
#[derive(Debug, Clone, Copy, PartialEq, Eq, Structural)]
pub enum DeliveryLocation {
    Unknown,
    Inbox,
    JunkFolder,
    DeletedFolder,
    Quarantine,
    External,
    Failed,
    Dropped,
    Forwarded,
}

/// Represents an incident in Azure Security Insights.
#[derive(Debug, Clone)]
pub struct Incident {
    pub id: Option<String>,
    pub name: Option<String>,
    pub resource_type: Option<String>,
    pub etag: Option<String>,
    pub system_data: Option<SystemData>,
    pub properties: Option<IncidentProperties>,
}

/// Incident properties.
#[derive(Debug, Clone)]
pub struct IncidentProperties {
    pub title: String,
    pub severity: IncidentSeverity,
    pub status: IncidentStatus,
    pub description: Option<String>,
    pub created_time_utc: Option<String>,
    pub last_modified_time_utc: Option<String>,
    pub first_activity_time_utc: Option<String>,
    pub last_activity_time_utc: Option<String>,
    pub incident_number: Option<i32>,
    pub incident_url: Option<String>,
    pub provider_name: Option<String>,
    pub provider_incident_id: Option<String>,
    pub classification: Option<IncidentClassification>,
    pub classification_comment: Option<String>,
    pub classification_reason: Option<IncidentClassificationReason>,
    pub owner: Option<IncidentOwnerInfo>,
    pub labels: Option<Vec<IncidentLabel>>,
    pub related_analytic_rule_ids: Option<Vec<String>>,
    pub additional_data: Option<IncidentAdditionalData>,
}

/// Information on the user an incident is assigned to.
#[derive(Debug, Clone)]
pub struct IncidentOwnerInfo {
    pub object_id: Option<String>,
    pub email: Option<String>,
    pub user_principal_name: Option<String>,
    pub assigned_to: Option<String>,
    pub owner_type: Option<OwnerType>,
}

/// Represents an incident label.
#[derive(Debug, Clone)]
pub struct IncidentLabel {
    pub label_name: Option<String>,
    pub label_type: Option<IncidentLabelType>,
}

/// Incident additional data property bag.
#[derive(Debug, Clone)]
pub struct IncidentAdditionalData {
    pub alerts_count: Option<i32>,
    pub bookmarks_count: Option<i32>,
    pub comments_count: Option<i32>,
    pub alert_product_names: Option<Vec<String>>,
    pub tactics: Option<Vec<AttackTactic>>,
    pub provider_incident_url: Option<String>,
}

/// List of incidents.
#[derive(Debug, Clone)]
pub struct IncidentList {
    pub next_link: Option<String>,
    pub value: Option<Vec<Incident>>,
}

/// List of incident alerts.
#[derive(Debug, Clone)]
pub struct IncidentAlertList {
    pub value: Vec<SecurityAlert>,
}

/// Security alert entity.
#[derive(Debug, Clone)]
pub struct SecurityAlert {
    pub id: String,
    pub name: String,
    pub resource_type: String,
    pub kind: String,
    pub properties: Option<SecurityAlertProperties>,
    pub system_data: Option<SystemData>,
}

/// Security alert properties.
#[derive(Debug, Clone)]
pub struct SecurityAlertProperties {
    pub system_alert_id: Option<String>,
    pub alert_display_name: Option<String>,
    pub alert_link: Option<String>,
    pub alert_type: Option<String>,
    pub compromised_entity: Option<String>,
    pub confidence_level: Option<ConfidenceLevel>,
    pub confidence_reasons: Option<Vec<ConfidenceReasons>>,
    /// The bits of the number, as `f64::to_bits` gives them.
    pub confidence_score: Option<u64>,
    pub confidence_score_status: Option<ConfidenceScoreStatus>,
    pub description: Option<String>,
    pub end_time_utc: Option<String>,
    pub friendly_name: Option<String>,
    pub intent: Option<KillChainIntent>,
    pub processing_end_time: Option<String>,
    pub product_component_name: Option<String>,
    pub product_name: Option<String>,
    pub product_version: Option<String>,
    pub provider_alert_id: Option<String>,
    pub remediation_steps: Option<Vec<String>>,
    pub resource_identifiers: Option<Vec<JsonValue>>,
    pub severity: Option<AlertSeverity>,
    pub start_time_utc: Option<String>,
    pub status: Option<AlertStatus>,
    pub tactics: Option<Vec<AttackTactic>>,
    pub time_generated: Option<String>,
    pub vendor_name: Option<String>,
    pub additional_data: Option<HashMap<String, JsonValue>>,
}

/// Confidence reasons for an alert.
#[derive(Debug, Clone)]
pub struct ConfidenceReasons {
    pub reason: Option<String>,
    pub reason_type: Option<String>,
}

/// List of incident bookmarks.
#[derive(Debug, Clone)]
pub struct IncidentBookmarkList {
    pub value: Vec<HuntingBookmark>,
}

/// Hunting bookmark entity.
#[derive(Debug, Clone)]
pub struct HuntingBookmark {
    pub id: String,
    pub name: String,
    pub resource_type: String,
    pub kind: String,
    pub properties: Option<HuntingBookmarkProperties>,
    pub system_data: Option<SystemData>,
}

/// Hunting bookmark properties.
#[derive(Debug, Clone)]
pub struct HuntingBookmarkProperties {
    pub display_name: Option<String>,
    pub created: Option<String>,
    pub created_by: Option<UserInfo>,
    pub updated: Option<String>,
    pub updated_by: Option<UserInfo>,
    pub event_time: Option<String>,
    pub labels: Option<Vec<String>>,
    pub notes: Option<String>,
    pub query: Option<String>,
    pub query_result: Option<String>,
    pub incident_info: Option<IncidentInfo>,
    pub friendly_name: Option<String>,
    pub additional_data: Option<HashMap<String, JsonValue>>,
}

/// User information.
#[derive(Debug, Clone)]
pub struct UserInfo {
    pub email: Option<String>,
    pub name: Option<String>,
    pub object_id: Option<String>,
}

/// Incident information for a bookmark.
#[derive(Debug, Clone)]
pub struct IncidentInfo {
    pub incident_id: Option<String>,
    pub relation_name: Option<String>,
    pub severity: Option<IncidentSeverity>,
    pub title: Option<String>,
}

/// Response for list entities operation.
#[derive(Debug, Clone)]
pub struct IncidentEntitiesResponse {
    pub entities: Option<Vec<Entity>>,
    pub metadata: Option<Vec<IncidentEntitiesResultsMetadata>>,
}

/// Metadata for entity results.
#[derive(Debug, Clone)]
pub struct IncidentEntitiesResultsMetadata {
    pub count: Option<i32>,
    pub entity_kind: Option<EntityKind>,
}

/// Base entity structure (polymorphic based on kind).
#[derive(Debug, Clone)]
pub enum Entity {
    Account(AccountEntity),
    Host(HostEntity),
    File(FileEntity),
    FileHash(FileHashEntity),
    AzureResource(AzureResourceEntity),
    CloudApplication(CloudApplicationEntity),
    DnsResolution(DnsEntity),
    Ip(IpEntity),
    Malware(MalwareEntity),
    Process(ProcessEntity),
    RegistryKey(RegistryKeyEntity),
    RegistryValue(RegistryValueEntity),
    SecurityGroup(SecurityGroupEntity),
    Url(UrlEntity),
    IoTDevice(IoTDeviceEntity),
    SecurityAlert(SecurityAlertEntity),
    Bookmark(BookmarkEntity),
    Mailbox(MailboxEntity),
    MailCluster(MailClusterEntity),
    MailMessage(MailMessageEntity),
    SubmissionMail(SubmissionMailEntity),
}

/// Account entity.
#[derive(Debug, Clone)]
pub struct AccountEntity {
    pub id: Option<String>,
    pub name: Option<String>,
    pub resource_type: Option<String>,
    pub properties: Option<AccountEntityProperties>,
    pub system_data: Option<SystemData>,
}

#[derive(Debug, Clone)]
pub struct AccountEntityProperties {
    pub aad_tenant_id: Option<String>,
    pub aad_user_id: Option<String>,
    pub account_name: Option<String>,
    pub display_name: Option<String>,
    pub dns_domain: Option<String>,
    pub friendly_name: Option<String>,
    pub host_entity_id: Option<String>,
    pub is_domain_joined: Option<bool>,
    pub nt_domain: Option<String>,
    pub object_guid: Option<String>,
    pub puid: Option<String>,
    pub sid: Option<String>,
    pub upn_suffix: Option<String>,
    pub additional_data: Option<HashMap<String, JsonValue>>,
}

/// Host entity.
#[derive(Debug, Clone)]
pub struct HostEntity {
    pub id: Option<String>,
    pub name: Option<String>,
    pub resource_type: Option<String>,
    pub properties: Option<HostEntityProperties>,
    pub system_data: Option<SystemData>,
}

#[derive(Debug, Clone)]
pub struct HostEntityProperties {
    pub azure_id: Option<String>,
    pub dns_domain: Option<String>,
    pub friendly_name: Option<String>,
    pub host_name: Option<String>,
    pub is_domain_joined: Option<bool>,
    pub net_bios_name: Option<String>,
    pub nt_domain: Option<String>,
    pub oms_agent_id: Option<String>,
    pub os_family: Option<OSFamily>,
    pub os_version: Option<String>,
    pub additional_data: Option<HashMap<String, JsonValue>>,
}

/// File entity.
#[derive(Debug, Clone)]
pub struct FileEntity {
    pub id: Option<String>,
    pub name: Option<String>,
    pub resource_type: Option<String>,
    pub properties: Option<FileEntityProperties>,
    pub system_data: Option<SystemData>,
}

#[derive(Debug, Clone)]
pub struct FileEntityProperties {
    pub directory: Option<String>,
    pub file_hash_entity_ids: Option<Vec<String>>,
    pub file_name: Option<String>,
    pub friendly_name: Option<String>,
    pub host_entity_id: Option<String>,
    pub additional_data: Option<HashMap<String, JsonValue>>,
}

/// File hash entity.
#[derive(Debug, Clone)]
pub struct FileHashEntity {
    pub id: Option<String>,
    pub name: Option<String>,
    pub resource_type: Option<String>,
    pub properties: Option<FileHashEntityProperties>,
    pub system_data: Option<SystemData>,
}

#[derive(Debug, Clone)]
pub struct FileHashEntityProperties {
    pub algorithm: Option<FileHashAlgorithm>,
    pub friendly_name: Option<String>,
    pub hash_value: Option<String>,
    pub additional_data: Option<HashMap<String, JsonValue>>,
}

/// Azure resource entity.
#[derive(Debug, Clone)]
pub struct AzureResourceEntity {
    pub id: Option<String>,
    pub name: Option<String>,
    pub resource_type: Option<String>,
    pub properties: Option<AzureResourceEntityProperties>,
    pub system_data: Option<SystemData>,
}

#[derive(Debug, Clone)]
pub struct AzureResourceEntityProperties {
    pub friendly_name: Option<String>,
    pub resource_id: Option<String>,
    pub subscription_id: Option<String>,
    pub additional_data: Option<HashMap<String, JsonValue>>,
}

/// Cloud application entity.
#[derive(Debug, Clone)]
pub struct CloudApplicationEntity {
    pub id: Option<String>,
    pub name: Option<String>,
    pub resource_type: Option<String>,
    pub properties: Option<CloudApplicationEntityProperties>,
    pub system_data: Option<SystemData>,
}

#[derive(Debug, Clone)]
pub struct CloudApplicationEntityProperties {
    pub app_id: Option<i32>,
    pub app_name: Option<String>,
    pub friendly_name: Option<String>,
    pub instance_name: Option<String>,
    pub additional_data: Option<HashMap<String, JsonValue>>,
}

/// DNS entity.
#[derive(Debug, Clone)]
pub struct DnsEntity {
    pub id: Option<String>,
    pub name: Option<String>,
    pub resource_type: Option<String>,
    pub properties: Option<DnsEntityProperties>,
    pub system_data: Option<SystemData>,
}

#[derive(Debug, Clone)]
pub struct DnsEntityProperties {
    pub dns_server_ip_entity_id: Option<String>,
    pub domain_name: Option<String>,
    pub friendly_name: Option<String>,
    pub host_ip_address_entity_id: Option<String>,
    pub ip_address_entity_ids: Option<Vec<String>>,
    pub additional_data: Option<HashMap<String, JsonValue>>,
}

/// IP entity.
#[derive(Debug, Clone)]
pub struct IpEntity {
    pub id: Option<String>,
    pub name: Option<String>,
    pub resource_type: Option<String>,
    pub properties: Option<IpEntityProperties>,
    pub system_data: Option<SystemData>,
}

#[derive(Debug, Clone)]
pub struct IpEntityProperties {
    pub address: Option<String>,
    pub friendly_name: Option<String>,
    pub location: Option<GeoLocation>,
    pub threat_intelligence: Option<Vec<ThreatIntelligence>>,
    pub additional_data: Option<HashMap<String, JsonValue>>,
}

/// Geographic location.
#[derive(Debug, Clone)]
pub struct GeoLocation {
    pub asn: Option<i32>,
    pub city: Option<String>,
    pub country_code: Option<String>,
    pub country_name: Option<String>,
    /// The bits of the number, as `f64::to_bits` gives them.
    pub latitude: Option<u64>,
    /// The bits of the number, as `f64::to_bits` gives them.
    pub longitude: Option<u64>,
    pub state: Option<String>,
}

/// Threat intelligence information.
#[derive(Debug, Clone)]
pub struct ThreatIntelligence {
    /// The bits of the number, as `f64::to_bits` gives them.
    pub confidence: Option<u64>,
    pub provider_name: Option<String>,
    pub report_link: Option<String>,
    pub threat_description: Option<String>,
    pub threat_name: Option<String>,
    pub threat_type: Option<String>,
}

/// Malware entity.
#[derive(Debug, Clone)]
pub struct MalwareEntity {
    pub id: Option<String>,
    pub name: Option<String>,
    pub resource_type: Option<String>,
    pub properties: Option<MalwareEntityProperties>,
    pub system_data: Option<SystemData>,
}

#[derive(Debug, Clone)]
pub struct MalwareEntityProperties {
    pub category: Option<String>,
    pub file_entity_ids: Option<Vec<String>>,
    pub friendly_name: Option<String>,
    pub malware_name: Option<String>,
    pub process_entity_ids: Option<Vec<String>>,
    pub additional_data: Option<HashMap<String, JsonValue>>,
}

/// Process entity.
#[derive(Debug, Clone)]
pub struct ProcessEntity {
    pub id: Option<String>,
    pub name: Option<String>,
    pub resource_type: Option<String>,
    pub properties: Option<ProcessEntityProperties>,
    pub system_data: Option<SystemData>,
}

#[derive(Debug, Clone)]
pub struct ProcessEntityProperties {
    pub account_entity_id: Option<String>,
    pub command_line: Option<String>,
    pub creation_time_utc: Option<String>,
    pub elevation_token: Option<ElevationToken>,
    pub friendly_name: Option<String>,
    pub host_entity_id: Option<String>,
    pub host_logon_session_entity_id: Option<String>,
    pub image_file_entity_id: Option<String>,
    pub parent_process_entity_id: Option<String>,
    pub process_id: Option<String>,
    pub additional_data: Option<HashMap<String, JsonValue>>,
}

/// Registry key entity.
#[derive(Debug, Clone)]
pub struct RegistryKeyEntity {
    pub id: Option<String>,
    pub name: Option<String>,
    pub resource_type: Option<String>,
    pub properties: Option<RegistryKeyEntityProperties>,
    pub system_data: Option<SystemData>,
}

#[derive(Debug, Clone)]
pub struct RegistryKeyEntityProperties {
    pub friendly_name: Option<String>,
    pub hive: Option<RegistryHive>,
    pub key: Option<String>,
    pub additional_data: Option<HashMap<String, JsonValue>>,
}

/// Registry value entity.
#[derive(Debug, Clone)]
pub struct RegistryValueEntity {
    pub id: Option<String>,
    pub name: Option<String>,
    pub resource_type: Option<String>,
    pub properties: Option<RegistryValueEntityProperties>,
    pub system_data: Option<SystemData>,
}

#[derive(Debug, Clone)]
pub struct RegistryValueEntityProperties {
    pub friendly_name: Option<String>,
    pub key_entity_id: Option<String>,
    pub value_data: Option<String>,
    pub value_name: Option<String>,
    pub value_type: Option<RegistryValueKind>,
    pub additional_data: Option<HashMap<String, JsonValue>>,
}

/// Security group entity.
#[derive(Debug, Clone)]
pub struct SecurityGroupEntity {
    pub id: Option<String>,
    pub name: Option<String>,
    pub resource_type: Option<String>,
    pub properties: Option<SecurityGroupEntityProperties>,
    pub system_data: Option<SystemData>,
}

#[derive(Debug, Clone)]
pub struct SecurityGroupEntityProperties {
    pub distinguished_name: Option<String>,
    pub friendly_name: Option<String>,
    pub object_guid: Option<String>,
    pub sid: Option<String>,
    pub additional_data: Option<HashMap<String, JsonValue>>,
}

/// URL entity.
#[derive(Debug, Clone)]
pub struct UrlEntity {
    pub id: Option<String>,
    pub name: Option<String>,
    pub resource_type: Option<String>,
    pub properties: Option<UrlEntityProperties>,
    pub system_data: Option<SystemData>,
}

#[derive(Debug, Clone)]
pub struct UrlEntityProperties {
    pub friendly_name: Option<String>,
    pub url: Option<String>,
    pub additional_data: Option<HashMap<String, JsonValue>>,
}

/// IoT device entity.
#[derive(Debug, Clone)]
pub struct IoTDeviceEntity {
    pub id: Option<String>,
    pub name: Option<String>,
    pub resource_type: Option<String>,
    pub properties: Option<IoTDeviceEntityProperties>,
    pub system_data: Option<SystemData>,
}

#[derive(Debug, Clone)]
pub struct IoTDeviceEntityProperties {
    pub device_id: Option<String>,
    pub device_name: Option<String>,
    pub device_type: Option<String>,
    pub edge_id: Option<String>,
    pub firmware_version: Option<String>,
    pub friendly_name: Option<String>,
    pub host_entity_id: Option<String>,
    pub iot_hub_entity_id: Option<String>,
    pub iot_security_agent_id: Option<String>,
    pub ip_address_entity_id: Option<String>,
    pub mac_address: Option<String>,
    pub model: Option<String>,
    pub operating_system: Option<String>,
    pub protocols: Option<Vec<String>>,
    pub serial_number: Option<String>,
    pub source: Option<String>,
    pub threat_intelligence: Option<Vec<ThreatIntelligence>>,
    pub vendor: Option<String>,
    pub additional_data: Option<HashMap<String, JsonValue>>,
}

/// Security alert entity (for entity list response).
#[derive(Debug, Clone)]
pub struct SecurityAlertEntity {
    pub id: Option<String>,
    pub name: Option<String>,
    pub resource_type: Option<String>,
    pub properties: Option<SecurityAlertProperties>,
    pub system_data: Option<SystemData>,
}

/// Bookmark entity (for entity list response).
#[derive(Debug, Clone)]
pub struct BookmarkEntity {
    pub id: Option<String>,
    pub name: Option<String>,
    pub resource_type: Option<String>,
    pub properties: Option<HuntingBookmarkProperties>,
    pub system_data: Option<SystemData>,
}

/// Mailbox entity.
#[derive(Debug, Clone)]
pub struct MailboxEntity {
    pub id: Option<String>,
    pub name: Option<String>,
    pub resource_type: Option<String>,
    pub properties: Option<MailboxEntityProperties>,
    pub system_data: Option<SystemData>,
}

#[derive(Debug, Clone)]
pub struct MailboxEntityProperties {
    pub display_name: Option<String>,
    pub external_directory_object_id: Option<String>,
    pub friendly_name: Option<String>,
    pub mailbox_primary_address: Option<String>,
    pub upn: Option<String>,
    pub additional_data: Option<HashMap<String, JsonValue>>,
}

/// Mail cluster entity.
#[derive(Debug, Clone)]
pub struct MailClusterEntity {
    pub id: Option<String>,
    pub name: Option<String>,
    pub resource_type: Option<String>,
    pub properties: Option<MailClusterEntityProperties>,
    pub system_data: Option<SystemData>,
}

#[derive(Debug, Clone)]
pub struct MailClusterEntityProperties {
    pub cluster_group: Option<String>,
    pub cluster_query_end_time: Option<String>,
    pub cluster_query_start_time: Option<String>,
    pub cluster_source_identifier: Option<String>,
    pub cluster_source_type: Option<String>,
    pub count_by_delivery_status: Option<HashMap<String, JsonValue>>,
    pub count_by_protection_status: Option<HashMap<String, JsonValue>>,
    pub count_by_threat_type: Option<HashMap<String, JsonValue>>,
    pub friendly_name: Option<String>,
    pub is_volume_anomaly: Option<bool>,
    pub mail_count: Option<i32>,
    pub network_message_ids: Option<Vec<String>>,
    pub query: Option<String>,
    pub query_time: Option<String>,
    pub source: Option<String>,
    pub threats: Option<Vec<String>>,
    pub additional_data: Option<HashMap<String, JsonValue>>,
}

/// Mail message entity.
#[derive(Debug, Clone)]
pub struct MailMessageEntity {
    pub id: Option<String>,
    pub name: Option<String>,
    pub resource_type: Option<String>,
    pub properties: Option<MailMessageEntityProperties>,
    pub system_data: Option<SystemData>,
}

#[derive(Debug, Clone)]
pub struct MailMessageEntityProperties {
    pub antispam_direction: Option<AntispamMailDirection>,
    pub body_fingerprint_bin1: Option<i32>,
    pub body_fingerprint_bin2: Option<i32>,
    pub body_fingerprint_bin3: Option<i32>,
    pub body_fingerprint_bin4: Option<i32>,
    pub body_fingerprint_bin5: Option<i32>,
    pub delivery_action: Option<DeliveryAction>,
    pub delivery_location: Option<DeliveryLocation>,
    pub file_entity_ids: Option<Vec<String>>,
    pub friendly_name: Option<String>,
    pub internet_message_id: Option<String>,
    pub language: Option<String>,
    pub network_message_id: Option<String>,
    pub p1_sender: Option<String>,
    pub p1_sender_display_name: Option<String>,
    pub p1_sender_domain: Option<String>,
    pub p2_sender: Option<String>,
    pub p2_sender_display_name: Option<String>,
    pub p2_sender_domain: Option<String>,
    pub receive_date: Option<String>,
    pub recipient: Option<String>,
    pub sender_ip: Option<String>,
    pub subject: Option<String>,
    pub threat_detection_methods: Option<Vec<String>>,
    pub threats: Option<Vec<String>>,
    pub urls: Option<Vec<String>>,
    pub additional_data: Option<HashMap<String, JsonValue>>,
}

/// Submission mail entity.
#[derive(Debug, Clone)]
pub struct SubmissionMailEntity {
    pub id: Option<String>,
    pub name: Option<String>,
    pub resource_type: Option<String>,
    pub properties: Option<SubmissionMailEntityProperties>,
    pub system_data: Option<SystemData>,
}

#[derive(Debug, Clone)]
pub struct SubmissionMailEntityProperties {
    pub friendly_name: Option<String>,
    pub network_message_id: Option<String>,
    pub recipient: Option<String>,
    pub report_type: Option<String>,
    pub sender: Option<String>,
    pub sender_ip: Option<String>,
    pub subject: Option<String>,
    pub submission_date: Option<String>,
    pub submission_id: Option<String>,
    pub submitter: Option<String>,
    pub timestamp: Option<String>,
    pub additional_data: Option<HashMap<String, JsonValue>>,
}

/// Request body for triggering a playbook on an incident.
#[derive(Debug, Clone)]
pub struct ManualTriggerRequestBody {
    pub logic_apps_resource_id: Option<String>,
    pub tenant_id: Option<String>,
}

/// Metadata pertaining to creation and last modification of the resource.
#[derive(Debug, Clone)]
pub struct SystemData {
    pub created_at: Option<String>,
    pub created_by: Option<String>,
    pub created_by_type: Option<CreatedByType>,
    pub last_modified_at: Option<String>,
    pub last_modified_by: Option<String>,
    pub last_modified_by_type: Option<CreatedByType>,
}

/// Error response structure.
#[derive(Debug, Clone)]
pub struct CloudError {
    pub error: Option<CloudErrorBody>,
}

/// Error details.
#[derive(Debug, Clone)]
pub struct CloudErrorBody {
    pub code: Option<String>,
    pub message: Option<String>,
}
impl IncidentSeverity {
    /// The name of the severity, as the service writes it.
    pub open spec fn name_of(self) -> Seq<char> {
        match self {
            IncidentSeverity::High => "High"@,
            IncidentSeverity::Medium => "Medium"@,
            IncidentSeverity::Low => "Low"@,
            IncidentSeverity::Informational => "Informational"@,
        }
    }

    /// The name of the severity, as the service writes it.
    pub fn name(&self) -> (name: &'static str)
        ensures
            name@ == self.name_of(),
    {
        match self {
            IncidentSeverity::High => "High",
            IncidentSeverity::Medium => "Medium",
            IncidentSeverity::Low => "Low",
            IncidentSeverity::Informational => "Informational",
        }
    }
}

impl IncidentStatus {
    /// The name of the status, as the service writes it.
    pub open spec fn name_of(self) -> Seq<char> {
        match self {
            IncidentStatus::New => "New"@,
            IncidentStatus::Active => "Active"@,
            IncidentStatus::Closed => "Closed"@,
        }
    }

    /// The name of the status, as the service writes it.
    pub fn name(&self) -> (name: &'static str)
        ensures
            name@ == self.name_of(),
    {
        match self {
            IncidentStatus::New => "New",
            IncidentStatus::Active => "Active",
            IncidentStatus::Closed => "Closed",
        }
    }
}

impl IncidentClassification {
    /// The name of the classification, as the service writes it.
    pub open spec fn name_of(self) -> Seq<char> {
        match self {
            IncidentClassification::Undetermined => "Undetermined"@,
            IncidentClassification::TruePositive => "TruePositive"@,
            IncidentClassification::BenignPositive => "BenignPositive"@,
            IncidentClassification::FalsePositive => "FalsePositive"@,
        }
    }

    /// The name of the classification, as the service writes it.
    pub fn name(&self) -> (name: &'static str)
        ensures
            name@ == self.name_of(),
    {
        match self {
            IncidentClassification::Undetermined => "Undetermined",
            IncidentClassification::TruePositive => "TruePositive",
            IncidentClassification::BenignPositive => "BenignPositive",
            IncidentClassification::FalsePositive => "FalsePositive",
        }
    }
}

impl IncidentClassificationReason {
    /// The name of the classification reason, as the service writes it.
    pub open spec fn name_of(self) -> Seq<char> {
        match self {
            IncidentClassificationReason::SuspiciousActivity => "SuspiciousActivity"@,
            IncidentClassificationReason::SuspiciousButExpected => "SuspiciousButExpected"@,
            IncidentClassificationReason::IncorrectAlertLogic => "IncorrectAlertLogic"@,
            IncidentClassificationReason::InaccurateData => "InaccurateData"@,
        }
    }

    /// The name of the classification reason, as the service writes it.
    pub fn name(&self) -> (name: &'static str)
        ensures
            name@ == self.name_of(),
    {
        match self {
            IncidentClassificationReason::SuspiciousActivity => "SuspiciousActivity",
            IncidentClassificationReason::SuspiciousButExpected => "SuspiciousButExpected",
            IncidentClassificationReason::IncorrectAlertLogic => "IncorrectAlertLogic",
            IncidentClassificationReason::InaccurateData => "InaccurateData",
        }
    }
}

impl AlertSeverity {
    /// The name of the severity, as the service writes it.
    pub open spec fn name_of(self) -> Seq<char> {
        match self {
            AlertSeverity::High => "High"@,
            AlertSeverity::Medium => "Medium"@,
            AlertSeverity::Low => "Low"@,
            AlertSeverity::Informational => "Informational"@,
        }
    }

    /// The name of the severity, as the service writes it.
    pub fn name(&self) -> (name: &'static str)
        ensures
            name@ == self.name_of(),
    {
        match self {
            AlertSeverity::High => "High",
            AlertSeverity::Medium => "Medium",
            AlertSeverity::Low => "Low",
            AlertSeverity::Informational => "Informational",
        }
    }
}

impl AlertStatus {
    /// The name of the status, as the service writes it.
    pub open spec fn name_of(self) -> Seq<char> {
        match self {
            AlertStatus::Unknown => "Unknown"@,
            AlertStatus::New => "New"@,
            AlertStatus::Resolved => "Resolved"@,
            AlertStatus::Dismissed => "Dismissed"@,
            AlertStatus::InProgress => "InProgress"@,
        }
    }

    /// The name of the status, as the service writes it.
    pub fn name(&self) -> (name: &'static str)
        ensures
            name@ == self.name_of(),
    {
        match self {
            AlertStatus::Unknown => "Unknown",
            AlertStatus::New => "New",
            AlertStatus::Resolved => "Resolved",
            AlertStatus::Dismissed => "Dismissed",
            AlertStatus::InProgress => "InProgress",
        }
    }
}

impl ConfidenceLevel {
    /// The name of the confidence level, as the service writes it.
    pub open spec fn name_of(self) -> Seq<char> {
        match self {
            ConfidenceLevel::Unknown => "Unknown"@,
            ConfidenceLevel::Low => "Low"@,
            ConfidenceLevel::High => "High"@,
        }
    }

    /// The name of the confidence level, as the service writes it.
    pub fn name(&self) -> (name: &'static str)
        ensures
            name@ == self.name_of(),
    {
        match self {
            ConfidenceLevel::Unknown => "Unknown",
            ConfidenceLevel::Low => "Low",
            ConfidenceLevel::High => "High",
        }
    }
}

impl KillChainIntent {
    /// The name of the intent, as the service writes it.
    pub open spec fn name_of(self) -> Seq<char> {
        match self {
            KillChainIntent::Unknown => "Unknown"@,
            KillChainIntent::Probing => "Probing"@,
            KillChainIntent::Exploitation => "Exploitation"@,
            KillChainIntent::Persistence => "Persistence"@,
            KillChainIntent::PrivilegeEscalation => "PrivilegeEscalation"@,
            KillChainIntent::DefenseEvasion => "DefenseEvasion"@,
            KillChainIntent::CredentialAccess => "CredentialAccess"@,
            KillChainIntent::Discovery => "Discovery"@,
            KillChainIntent::LateralMovement => "LateralMovement"@,
            KillChainIntent::Execution => "Execution"@,
            KillChainIntent::Collection => "Collection"@,
            KillChainIntent::Exfiltration => "Exfiltration"@,
            KillChainIntent::CommandAndControl => "CommandAndControl"@,
            KillChainIntent::Impact => "Impact"@,
        }
    }

    /// The name of the intent, as the service writes it.
    pub fn name(&self) -> (name: &'static str)
        ensures
            name@ == self.name_of(),
    {
        match self {
            KillChainIntent::Unknown => "Unknown",
            KillChainIntent::Probing => "Probing",
            KillChainIntent::Exploitation => "Exploitation",
            KillChainIntent::Persistence => "Persistence",
            KillChainIntent::PrivilegeEscalation => "PrivilegeEscalation",
            KillChainIntent::DefenseEvasion => "DefenseEvasion",
            KillChainIntent::CredentialAccess => "CredentialAccess",
            KillChainIntent::Discovery => "Discovery",
            KillChainIntent::LateralMovement => "LateralMovement",
            KillChainIntent::Execution => "Execution",
            KillChainIntent::Collection => "Collection",
            KillChainIntent::Exfiltration => "Exfiltration",
            KillChainIntent::CommandAndControl => "CommandAndControl",
            KillChainIntent::Impact => "Impact",
        }
    }
}

impl EntityKind {
    /// The name of the kind, as the service writes it.
    pub open spec fn name_of(self) -> Seq<char> {
        match self {
            EntityKind::Account => "Account"@,
            EntityKind::Host => "Host"@,
            EntityKind::File => "File"@,
            EntityKind::AzureResource => "AzureResource"@,
            EntityKind::CloudApplication => "CloudApplication"@,
            EntityKind::DnsResolution => "DnsResolution"@,
            EntityKind::FileHash => "FileHash"@,
            EntityKind::Ip => "Ip"@,
            EntityKind::Malware => "Malware"@,
            EntityKind::Process => "Process"@,
            EntityKind::RegistryKey => "RegistryKey"@,
            EntityKind::RegistryValue => "RegistryValue"@,
            EntityKind::SecurityGroup => "SecurityGroup"@,
            EntityKind::Url => "Url"@,
            EntityKind::IoTDevice => "IoTDevice"@,
            EntityKind::SecurityAlert => "SecurityAlert"@,
            EntityKind::Bookmark => "Bookmark"@,
            EntityKind::Mailbox => "Mailbox"@,
            EntityKind::MailCluster => "MailCluster"@,
            EntityKind::MailMessage => "MailMessage"@,
            EntityKind::SubmissionMail => "SubmissionMail"@,
        }
    }

    /// The name of the kind, as the service writes it.
    pub fn name(&self) -> (name: &'static str)
        ensures
            name@ == self.name_of(),
    {
        match self {
            EntityKind::Account => "Account",
            EntityKind::Host => "Host",
            EntityKind::File => "File",
            EntityKind::AzureResource => "AzureResource",
            EntityKind::CloudApplication => "CloudApplication",
            EntityKind::DnsResolution => "DnsResolution",
            EntityKind::FileHash => "FileHash",
            EntityKind::Ip => "Ip",
            EntityKind::Malware => "Malware",
            EntityKind::Process => "Process",
            EntityKind::RegistryKey => "RegistryKey",
            EntityKind::RegistryValue => "RegistryValue",
            EntityKind::SecurityGroup => "SecurityGroup",
            EntityKind::Url => "Url",
            EntityKind::IoTDevice => "IoTDevice",
            EntityKind::SecurityAlert => "SecurityAlert",
            EntityKind::Bookmark => "Bookmark",
            EntityKind::Mailbox => "Mailbox",
            EntityKind::MailCluster => "MailCluster",
            EntityKind::MailMessage => "MailMessage",
            EntityKind::SubmissionMail => "SubmissionMail",
        }
    }
}

/// The kinds of value that the commands read by name.
#[derive(Debug, Clone, Copy, PartialEq, Eq, Structural)]
pub enum NameKind {
    Severity,
    Status,
    Classification,
    ClassificationReason,
}

impl NameKind {
    /// How the message for a wrong name begins.
    pub open spec fn opening(self) -> Seq<char> {
        match self {
            NameKind::Severity => "Invalid severity '"@,
            NameKind::Status => "Invalid status '"@,
            NameKind::Classification => "Invalid classification '"@,
            NameKind::ClassificationReason => "Invalid classification reason '"@,
        }
    }

    /// How the message for a wrong name goes on after the name: the names
    /// that there are.
    pub open spec fn choices(self) -> Seq<char> {
        match self {
            NameKind::Severity => "'. Must be: High, Medium, Low, or Informational"@,
            NameKind::Status => "'. Must be: New, Active, or Closed"@,
            NameKind::Classification =>
                "'. Must be: Undetermined, TruePositive, BenignPositive, or FalsePositive"@,
            NameKind::ClassificationReason =>
                "'. Must be: SuspiciousActivity, SuspiciousButExpected, IncorrectAlertLogic, or InaccurateData"@,
        }
    }
}

/// A text that names no value of its kind.
#[derive(Debug, Clone, PartialEq, Eq)]
pub struct InvalidName {
    pub kind: NameKind,
    pub given: String,
}

impl InvalidName {
    /// What the error says: the kind, the text that was given, and the names
    /// that there are.
    pub fn message(&self) -> (text: String)
        ensures
            text@ == self.kind.opening() + self.given@ + self.kind.choices(),
    {
        match self.kind {
            NameKind::Severity => join3(
                "Invalid severity '",
                self.given.as_str(),
                "'. Must be: High, Medium, Low, or Informational",
            ),
            NameKind::Status => join3(
                "Invalid status '",
                self.given.as_str(),
                "'. Must be: New, Active, or Closed",
            ),
            NameKind::Classification => join3(
                "Invalid classification '",
                self.given.as_str(),
                "'. Must be: Undetermined, TruePositive, BenignPositive, or FalsePositive",
            ),
            NameKind::ClassificationReason => join3(
                "Invalid classification reason '",
                self.given.as_str(),
                "'. Must be: SuspiciousActivity, SuspiciousButExpected, IncorrectAlertLogic, or InaccurateData",
            ),
        }
    }
}

/// The severity that a name names.
pub open spec fn severity_named(s: Seq<char>) -> Option<IncidentSeverity> {
    if s == "High"@ {
        Some(IncidentSeverity::High)
    }     else if s == "Medium"@ {
        Some(IncidentSeverity::Medium)
    }     else if s == "Low"@ {
        Some(IncidentSeverity::Low)
    }     else if s == "Informational"@ {
        Some(IncidentSeverity::Informational)
    } else {
        None
    }
}

/// Reads the name of a severity.
pub fn parse_incident_severity(s: &str) -> (r: Result<IncidentSeverity, InvalidName>)
    ensures
        match severity_named(s@) {
            Some(value) => r == Ok::<IncidentSeverity, InvalidName>(value),
            None => r matches Err(e) && e.kind == NameKind::Severity && e.given@ == s@,
        },
{
    if str_eq(s, "High") {
        Ok(IncidentSeverity::High)
    }     else if str_eq(s, "Medium") {
        Ok(IncidentSeverity::Medium)
    }     else if str_eq(s, "Low") {
        Ok(IncidentSeverity::Low)
    }     else if str_eq(s, "Informational") {
        Ok(IncidentSeverity::Informational)
    } else {
        Err(InvalidName { kind: NameKind::Severity, given: String::from_str(s) })
    }
}

/// The status that a name names.
pub open spec fn status_named(s: Seq<char>) -> Option<IncidentStatus> {
    if s == "New"@ {
        Some(IncidentStatus::New)
    }     else if s == "Active"@ {
        Some(IncidentStatus::Active)
    }     else if s == "Closed"@ {
        Some(IncidentStatus::Closed)
    } else {
        None
    }
}

/// Reads the name of a status.
pub fn parse_incident_status(s: &str) -> (r: Result<IncidentStatus, InvalidName>)
    ensures
        match status_named(s@) {
            Some(value) => r == Ok::<IncidentStatus, InvalidName>(value),
            None => r matches Err(e) && e.kind == NameKind::Status && e.given@ == s@,
        },
{
    if str_eq(s, "New") {
        Ok(IncidentStatus::New)
    }     else if str_eq(s, "Active") {
        Ok(IncidentStatus::Active)
    }     else if str_eq(s, "Closed") {
        Ok(IncidentStatus::Closed)
    } else {
        Err(InvalidName { kind: NameKind::Status, given: String::from_str(s) })
    }
}

/// The classification that a name names.
pub open spec fn classification_named(s: Seq<char>) -> Option<IncidentClassification> {
    if s == "Undetermined"@ {
        Some(IncidentClassification::Undetermined)
    }     else if s == "TruePositive"@ {
        Some(IncidentClassification::TruePositive)
    }     else if s == "BenignPositive"@ {
        Some(IncidentClassification::BenignPositive)
    }     else if s == "FalsePositive"@ {
        Some(IncidentClassification::FalsePositive)
    } else {
        None
    }
}

/// Reads the name of a classification.
pub fn parse_incident_classification(s: &str) -> (r: Result<IncidentClassification, InvalidName>)
    ensures
        match classification_named(s@) {
            Some(value) => r == Ok::<IncidentClassification, InvalidName>(value),
            None => r matches Err(e) && e.kind == NameKind::Classification && e.given@ == s@,
        },
{
    if str_eq(s, "Undetermined") {
        Ok(IncidentClassification::Undetermined)
    }     else if str_eq(s, "TruePositive") {
        Ok(IncidentClassification::TruePositive)
    }     else if str_eq(s, "BenignPositive") {
        Ok(IncidentClassification::BenignPositive)
    }     else if str_eq(s, "FalsePositive") {
        Ok(IncidentClassification::FalsePositive)
    } else {
        Err(InvalidName { kind: NameKind::Classification, given: String::from_str(s) })
    }
}

/// The classification reason that a name names.
pub open spec fn classification_reason_named(s: Seq<char>) -> Option<IncidentClassificationReason> {
    if s == "SuspiciousActivity"@ {
        Some(IncidentClassificationReason::SuspiciousActivity)
    }     else if s == "SuspiciousButExpected"@ {
        Some(IncidentClassificationReason::SuspiciousButExpected)
    }     else if s == "IncorrectAlertLogic"@ {
        Some(IncidentClassificationReason::IncorrectAlertLogic)
    }     else if s == "InaccurateData"@ {
        Some(IncidentClassificationReason::InaccurateData)
    } else {
        None
    }
}

/// Reads the name of a classification reason.
pub fn parse_incident_classification_reason(s: &str) -> (r: Result<IncidentClassificationReason, InvalidName>)
    ensures
        match classification_reason_named(s@) {
            Some(value) => r == Ok::<IncidentClassificationReason, InvalidName>(value),
            None => r matches Err(e) && e.kind == NameKind::ClassificationReason && e.given@ == s@,
        },
{
    if str_eq(s, "SuspiciousActivity") {
        Ok(IncidentClassificationReason::SuspiciousActivity)
    }     else if str_eq(s, "SuspiciousButExpected") {
        Ok(IncidentClassificationReason::SuspiciousButExpected)
    }     else if str_eq(s, "IncorrectAlertLogic") {
        Ok(IncidentClassificationReason::IncorrectAlertLogic)
    }     else if str_eq(s, "InaccurateData") {
        Ok(IncidentClassificationReason::InaccurateData)
    } else {
        Err(InvalidName { kind: NameKind::ClassificationReason, given: String::from_str(s) })
    }
}

/// Every severity is read back from its name.
pub proof fn lemma_severity_round_trip(value: IncidentSeverity)
    ensures
        severity_named(value.name_of()) == Some(value),
{
    reveal_strlit("High");
    assert("High"@.len() == 4 && "High"@[0] == 'H');
    reveal_strlit("Medium");
    assert("Medium"@.len() == 6 && "Medium"@[0] == 'M');
    reveal_strlit("Low");
    assert("Low"@.len() == 3 && "Low"@[0] == 'L');
    reveal_strlit("Informational");
}

/// Every status is read back from its name.
pub proof fn lemma_status_round_trip(value: IncidentStatus)
    ensures
        status_named(value.name_of()) == Some(value),
{
    reveal_strlit("New");
    assert("New"@.len() == 3 && "New"@[0] == 'N');
    reveal_strlit("Active");
    assert("Active"@.len() == 6 && "Active"@[0] == 'A');
    reveal_strlit("Closed");
}

/// Every classification is read back from its name.
pub proof fn lemma_classification_round_trip(value: IncidentClassification)
    ensures
        classification_named(value.name_of()) == Some(value),
{
    reveal_strlit("Undetermined");
    assert("Undetermined"@.len() == 12 && "Undetermined"@[0] == 'U');
    reveal_strlit("TruePositive");
    assert("TruePositive"@.len() == 12 && "TruePositive"@[0] == 'T');
    reveal_strlit("BenignPositive");
    assert("BenignPositive"@.len() == 14 && "BenignPositive"@[0] == 'B');
    reveal_strlit("FalsePositive");
}

/// Every classification reason is read back from its name.
pub proof fn lemma_classification_reason_round_trip(value: IncidentClassificationReason)
    ensures
        classification_reason_named(value.name_of()) == Some(value),
{
    reveal_strlit("SuspiciousActivity");
    assert("SuspiciousActivity"@.len() == 18 && "SuspiciousActivity"@[0] == 'S');
    reveal_strlit("SuspiciousButExpected");
    assert("SuspiciousButExpected"@.len() == 21 && "SuspiciousButExpected"@[0] == 'S');
    reveal_strlit("IncorrectAlertLogic");
    assert("IncorrectAlertLogic"@.len() == 19 && "IncorrectAlertLogic"@[0] == 'I');
    reveal_strlit("InaccurateData");
}

} // verus!
