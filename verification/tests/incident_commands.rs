use panopticon_m365::auth::SessionStore;
use panopticon_m365::azure::common::{
    CommandError, CommandReply, ManagementCall, NoBody, StatusReply, TokenAudience,
};
use panopticon_m365::azure::output::{Field, FieldValue, Row};
use panopticon_m365::azure::sentinel::incidents::create_update::{
    CreateIncidentAttributes, CreateIncidentCommand, IncidentBody,
};
use panopticon_m365::azure::sentinel::incidents::delete::DeleteIncidentCommand;
use panopticon_m365::azure::sentinel::incidents::get::GetIncidentCommand;
use panopticon_m365::azure::sentinel::incidents::list::ListIncidentsCommand;
use panopticon_m365::azure::sentinel::incidents::list_alerts::{report_alert, ListIncidentAlertsCommand};
use panopticon_m365::azure::sentinel::incidents::list_bookmarks::{
    report_bookmark, ListIncidentBookmarksCommand,
};
use panopticon_m365::azure::sentinel::incidents::list_entities::{
    summarize, ListIncidentEntitiesCommand,
};
use panopticon_m365::azure::sentinel::incidents::read_target;
use panopticon_m365::azure::sentinel::incidents::run_playbook::RunPlaybookCommand;
use panopticon_m365::azure::sentinel::incidents::types::{
    AccountEntity, AccountEntityProperties, AlertSeverity, AlertStatus, ConfidenceLevel, Entity,
    EntityKind, HostEntity, HuntingBookmark, HuntingBookmarkProperties, Incident,
    IncidentAdditionalData, IncidentAlertList, IncidentClassification,
    IncidentClassificationReason, IncidentEntitiesResponse, IncidentInfo, IncidentList,
    IncidentOwnerInfo, IncidentProperties, IncidentSeverity, IncidentStatus, KillChainIntent,
    ManualTriggerRequestBody, SecurityAlert, SecurityAlertProperties, UserInfo,
};
use panopticon_m365::client::auth::{ExchangeOutcome, Session, Token};
use panopticon_m365::cache::TokenError;
use panopticon_m365::error::AuthError;
use panopticon_m365::http::Method;
use panopticon_m365::oauth::{DeviceCodeOutcome, DeviceFlow, SignInOutcome};
use std::cell::{Cell, RefCell};

const TARGET: &str =
    "/subscriptions/sub/resourceGroups/rg/providers/Microsoft.OperationalInsights/workspaces/ws/";
const PROVIDER: &str = "https://management.azure.com/subscriptions/sub/resourceGroups/rg/providers/Microsoft.OperationalInsights/workspaces/ws/providers/Microsoft.SecurityInsights";
const MALFORMED: &str = "Invalid target: Target must be in the format /subscriptions/{subscriptionId}/resourceGroups/{resourceGroupName}/providers/Microsoft.OperationalInsights/workspaces/{workspaceName}/";

fn sign_in(flow: DeviceFlow) -> Result<Session, AuthError> {
    flow.on_device_code(DeviceCodeOutcome::Issued {
        verification_uri: "u".to_string(),
        user_code: "c".to_string(),
    })?
    .complete(
        SignInOutcome::Granted(Token {
            access_token: "tok".to_string(),
            refresh_token: None,
            expires_in: Some(3600),
            token_type: "bearer".to_string(),
        }),
        0,
    )
}

fn store() -> Option<SessionStore> {
    Some(SessionStore::default())
}

fn text(name: &str, value: &str) -> Field {
    Field { name: name.to_string(), value: FieldValue::Text(value.to_string()) }
}

fn number(name: &str, value: i64) -> Field {
    Field { name: name.to_string(), value: FieldValue::Integer(value) }
}

fn answered<T>(value: T) -> CommandReply<T> {
    CommandReply::Answered {
        status: 200,
        status_text: "200 OK".to_string(),
        body: "{}".to_string(),
        decoded: Some(value),
    }
}

fn refused<T>(status: u16, status_text: &str, body: &str) -> CommandReply<T> {
    CommandReply::Answered {
        status,
        status_text: status_text.to_string(),
        body: body.to_string(),
        decoded: None,
    }
}

fn properties() -> IncidentProperties {
    IncidentProperties {
        title: "Suspicious sign-in".to_string(),
        severity: IncidentSeverity::High,
        status: IncidentStatus::Active,
        description: Some("desc".to_string()),
        created_time_utc: Some("2024-01-01T00:00:00Z".to_string()),
        last_modified_time_utc: None,
        first_activity_time_utc: None,
        last_activity_time_utc: Some("2024-01-02T00:00:00Z".to_string()),
        incident_number: Some(17),
        incident_url: Some("https://portal/17".to_string()),
        provider_name: Some("Azure Sentinel".to_string()),
        provider_incident_id: Some("p-17".to_string()),
        classification: Some(IncidentClassification::TruePositive),
        classification_comment: None,
        classification_reason: Some(IncidentClassificationReason::SuspiciousActivity),
        owner: Some(IncidentOwnerInfo {
            object_id: Some("o-1".to_string()),
            email: None,
            user_principal_name: Some("user@contoso".to_string()),
            assigned_to: Some("User".to_string()),
            owner_type: None,
        }),
        labels: None,
        related_analytic_rule_ids: None,
        additional_data: Some(IncidentAdditionalData {
            alerts_count: Some(2),
            bookmarks_count: None,
            comments_count: Some(0),
            alert_product_names: None,
            tactics: None,
            provider_incident_url: None,
        }),
    }
}

fn incident(name: &str, with_properties: bool) -> Incident {
    Incident {
        id: Some(format!("/incidents/{name}")),
        name: Some(name.to_string()),
        resource_type: None,
        etag: None,
        system_data: None,
        properties: if with_properties { Some(properties()) } else { None },
    }
}

#[test]
fn the_target_attribute_is_read_or_refused() {
    let target = read_target(TARGET).unwrap();
    assert_eq!(target.subscription_id(), "sub");
    assert_eq!(read_target("/subscriptions/only").unwrap_err().message(), MALFORMED);
    let e = GetIncidentCommand::from_attributes("a".into(), "t".into(), "x", "i".into()).unwrap_err();
    assert_eq!(e.message(), MALFORMED);
    assert!(DeleteIncidentCommand::from_attributes("a".into(), "t".into(), "", "i".into()).is_err());
    assert!(ListIncidentAlertsCommand::from_attributes("a".into(), "t".into(), "", "i".into()).is_err());
    assert!(
        ListIncidentBookmarksCommand::from_attributes("a".into(), "t".into(), "", "i".into()).is_err()
    );
    assert!(
        ListIncidentEntitiesCommand::from_attributes("a".into(), "t".into(), "", "i".into()).is_err()
    );
    assert!(RunPlaybookCommand::from_attributes(
        "a".into(),
        "t".into(),
        "",
        "i".into(),
        "l".into(),
        None
    )
    .is_err());
    assert!(ListIncidentsCommand::from_attributes("a".into(), "t".into(), "", None, None, None).is_err());
}

#[test]
fn an_incident_is_got_and_reported() {
    let command = GetIncidentCommand::from_attributes("app".into(), "t".into(), TARGET, "i-1".into()).unwrap();
    assert_eq!(command.target.workspace_name(), "ws");
    let seen = Cell::new(None);
    let fields = command
        .execute(
            true,
            &mut store(),
            0,
            sign_in,
            |_| ExchangeOutcome::Rejected,
            |call: ManagementCall<NoBody>| {
                seen.set(Some((call.method, call.url, call.authorization, call.json, call.body)));
                answered(incident("i-1", true))
            },
        )
        .unwrap();
    assert_eq!(
        seen.take(),
        Some((
            Method::Get,
            format!("{PROVIDER}/incidents/i-1?api-version=2025-09-01"),
            "Bearer tok".to_string(),
            false,
            None
        ))
    );
    assert_eq!(
        fields,
        vec![
            text("id", "/incidents/i-1"),
            text("name", "i-1"),
            text("title", "Suspicious sign-in"),
            text("severity", "High"),
            text("status", "Active"),
            number("incident_number", 17),
            text("incident_url", "https://portal/17"),
            text("created_time_utc", "2024-01-01T00:00:00Z"),
            text("description", "desc"),
            text("last_activity_time_utc", "2024-01-02T00:00:00Z"),
            text("classification", "TruePositive"),
            text("classification_reason", "SuspiciousActivity"),
            text("owner_object_id", "o-1"),
            text("owner_assigned_to", "User"),
            text("owner_user_principal_name", "user@contoso"),
            number("alerts_count", 2),
            number("comments_count", 0),
            text("provider_name", "Azure Sentinel"),
            text("provider_incident_id", "p-17"),
        ]
    );
    assert_eq!(
        GetIncidentCommand::report(&incident("i-2", false)),
        vec![text("id", "/incidents/i-2"), text("name", "i-2")]
    );
}

#[test]
fn a_get_that_fails_says_how() {
    let command = GetIncidentCommand::from_attributes("app".into(), "t".into(), TARGET, "i-1".into()).unwrap();
    let e = command
        .execute(true, &mut store(), 0, sign_in, |_| ExchangeOutcome::Rejected, |_| {
            refused::<Incident>(404, "404 Not Found", "gone")
        })
        .unwrap_err();
    assert_eq!(e.message(), "Failed to get incident: 404 Not Found - gone");
    let e = command
        .execute(true, &mut store(), 0, sign_in, |_| ExchangeOutcome::Rejected, |_| {
            CommandReply::<Incident>::Failed
        })
        .unwrap_err();
    assert_eq!(e, CommandError::Transport);
    let e = command
        .execute(true, &mut store(), 0, sign_in, |_| ExchangeOutcome::Rejected, |_| {
            refused::<Incident>(200, "200 OK", "[]")
        })
        .unwrap_err();
    assert_eq!(e, CommandError::Decode);
    let e = command
        .execute(
            true,
            &mut store(),
            0,
            |_| Err(AuthError::DeviceFlowExpired),
            |_| ExchangeOutcome::Rejected,
            |_| answered(incident("i-1", true)),
        )
        .unwrap_err();
    assert_eq!(
        e,
        CommandError::TokenUnavailable(
            TokenAudience::AzureManagement,
            TokenError::Auth(AuthError::DeviceFlowExpired)
        )
    );
    let e = command
        .execute(false, &mut store(), 0, sign_in, |_| ExchangeOutcome::Rejected, |_| {
            answered(incident("i-1", true))
        })
        .unwrap_err();
    assert_eq!(e, CommandError::HttpClientMissing);
}

fn attributes() -> CreateIncidentAttributes {
    CreateIncidentAttributes {
        client_id: "app".to_string(),
        tenant_id: "t".to_string(),
        target: TARGET.to_string(),
        incident_id: "i-1".to_string(),
        title: "Title".to_string(),
        severity: "Medium".to_string(),
        status: "Closed".to_string(),
        etag: Some("etag-1".to_string()),
        description: None,
        classification: Some("BenignPositive".to_string()),
        classification_comment: Some("ok".to_string()),
        classification_reason: Some("SuspiciousButExpected".to_string()),
        first_activity_time_utc: None,
        last_activity_time_utc: None,
        owner_object_id: Some("o-9".to_string()),
    }
}

#[test]
fn an_incident_is_created_from_its_attributes() {
    let command = CreateIncidentCommand::from_attributes(attributes()).unwrap();
    assert_eq!(command.severity, IncidentSeverity::Medium);
    assert_eq!(command.status, IncidentStatus::Closed);
    assert_eq!(command.classification, Some(IncidentClassification::BenignPositive));
    assert_eq!(
        command.classification_reason,
        Some(IncidentClassificationReason::SuspiciousButExpected)
    );
    let body = command.build_request_body();
    assert_eq!(body.etag.as_deref(), Some("etag-1"));
    assert_eq!(body.properties.title, "Title");
    assert_eq!(body.properties.severity, IncidentSeverity::Medium);
    assert_eq!(body.properties.status, IncidentStatus::Closed);
    assert_eq!(body.properties.description, None);
    assert_eq!(body.properties.classification_comment.as_deref(), Some("ok"));
    assert_eq!(body.properties.owner.unwrap().object_id, "o-9");

    let seen = RefCell::new(None);
    let fields = command
        .execute(
            true,
            &mut store(),
            0,
            sign_in,
            |_| ExchangeOutcome::Rejected,
            |call: ManagementCall<IncidentBody>| {
                let title = call.body.as_ref().map(|b| b.properties.title.clone());
                *seen.borrow_mut() = Some((call.method, call.url.clone(), call.json, title));
                answered(incident("i-1", true))
            },
        )
        .unwrap();
    assert_eq!(
        seen.into_inner(),
        Some((
            Method::Put,
            format!("{PROVIDER}/incidents/i-1?api-version=2025-09-01"),
            true,
            Some("Title".to_string())
        ))
    );
    assert_eq!(
        fields,
        vec![
            text("incident_id", "i-1"),
            number("incident_number", 17),
            text("incident_url", "https://portal/17")
        ]
    );
    let e = command
        .execute(true, &mut store(), 0, sign_in, |_| ExchangeOutcome::Rejected, |_| {
            refused::<Incident>(409, "409 Conflict", "etag")
        })
        .unwrap_err();
    assert_eq!(e.message(), "Failed to create/update incident: 409 Conflict - etag");
}

#[test]
fn the_first_attribute_that_cannot_be_read_is_told() {
    let mut a = attributes();
    a.target = "nowhere".to_string();
    a.severity = "x".to_string();
    assert_eq!(CreateIncidentCommand::from_attributes(a).unwrap_err().message(), MALFORMED);
    let mut a = attributes();
    a.severity = "Severe".to_string();
    a.status = "x".to_string();
    assert_eq!(
        CreateIncidentCommand::from_attributes(a).unwrap_err().message(),
        "Invalid severity 'Severe'. Must be: High, Medium, Low, or Informational"
    );
    let mut a = attributes();
    a.status = "Open".to_string();
    a.classification = Some("x".to_string());
    assert_eq!(
        CreateIncidentCommand::from_attributes(a).unwrap_err().message(),
        "Invalid status 'Open'. Must be: New, Active, or Closed"
    );
    let mut a = attributes();
    a.classification = Some("Benign".to_string());
    a.classification_reason = Some("x".to_string());
    assert_eq!(
        CreateIncidentCommand::from_attributes(a).unwrap_err().message(),
        "Invalid classification 'Benign'. Must be: Undetermined, TruePositive, BenignPositive, or FalsePositive"
    );
    let mut a = attributes();
    a.classification_reason = Some("Because".to_string());
    assert_eq!(
        CreateIncidentCommand::from_attributes(a).unwrap_err().message(),
        "Invalid classification reason 'Because'. Must be: SuspiciousActivity, SuspiciousButExpected, IncorrectAlertLogic, or InaccurateData"
    );
    let mut a = attributes();
    a.classification = None;
    a.classification_reason = None;
    let command = CreateIncidentCommand::from_attributes(a).unwrap();
    assert_eq!(command.classification, None);
    assert_eq!(command.classification_reason, None);
}

#[test]
fn an_incident_is_deleted() {
    let command =
        DeleteIncidentCommand::from_attributes("app".into(), "t".into(), TARGET, "i-1".into()).unwrap();
    let seen = Cell::new(None);
    let fields = command
        .execute(
            true,
            &mut store(),
            0,
            sign_in,
            |_| ExchangeOutcome::Rejected,
            |call: ManagementCall<NoBody>| {
                seen.set(Some((call.method, call.url, call.json)));
                StatusReply::Answered {
                    status: 204,
                    status_text: "204 No Content".to_string(),
                    body: String::new(),
                }
            },
        )
        .unwrap();
    assert_eq!(fields, vec![Field { name: "deleted".to_string(), value: FieldValue::Bool(true) }]);
    assert_eq!(
        seen.take(),
        Some((Method::Delete, format!("{PROVIDER}/incidents/i-1?api-version=2025-09-01"), false))
    );
    let e = command
        .execute(true, &mut store(), 0, sign_in, |_| ExchangeOutcome::Rejected, |_| {
            StatusReply::Answered {
                status: 404,
                status_text: "404 Not Found".to_string(),
                body: "none".to_string(),
            }
        })
        .unwrap_err();
    assert_eq!(e.message(), "Failed to delete incident: 404 Not Found - none");
    let e = command
        .execute(true, &mut store(), 0, sign_in, |_| ExchangeOutcome::Rejected, |_| StatusReply::Failed)
        .unwrap_err();
    assert_eq!(e, CommandError::Transport);
}

#[test]
fn a_playbook_is_run() {
    let command = RunPlaybookCommand::from_attributes(
        "app".into(),
        "t".into(),
        TARGET,
        "i-1".into(),
        "/logic/app".into(),
        Some("pt".into()),
    )
    .unwrap();
    let body = command.request_body();
    assert_eq!(body.logic_apps_resource_id.as_deref(), Some("/logic/app"));
    assert_eq!(body.tenant_id.as_deref(), Some("pt"));
    let seen = RefCell::new(None);
    let fields = command
        .execute(
            true,
            &mut store(),
            0,
            sign_in,
            |_| ExchangeOutcome::Rejected,
            |call: ManagementCall<ManualTriggerRequestBody>| {
                let app = call.body.as_ref().and_then(|b| b.logic_apps_resource_id.clone());
                *seen.borrow_mut() = Some((call.method, call.url.clone(), call.json, app));
                StatusReply::Answered {
                    status: 204,
                    status_text: "204".to_string(),
                    body: String::new(),
                }
            },
        )
        .unwrap();
    assert_eq!(fields, vec![Field { name: "triggered".to_string(), value: FieldValue::Bool(true) }]);
    assert_eq!(
        seen.into_inner(),
        Some((
            Method::Post,
            format!("{PROVIDER}/incidents/i-1/runPlaybook?api-version=2025-09-01"),
            true,
            Some("/logic/app".to_string())
        ))
    );
    let e = command
        .execute(true, &mut store(), 0, sign_in, |_| ExchangeOutcome::Rejected, |_| {
            StatusReply::Answered { status: 400, status_text: "400".to_string(), body: "b".to_string() }
        })
        .unwrap_err();
    assert_eq!(e.message(), "Failed to run playbook: 400 - b");
}

#[test]
fn the_first_url_of_a_list_carries_what_is_given() {
    let plain = ListIncidentsCommand::from_attributes("a".into(), "t".into(), TARGET, None, None, None).unwrap();
    assert_eq!(plain.first_url(), format!("{PROVIDER}/incidents?api-version=2025-09-01"));
    let all = ListIncidentsCommand::from_attributes(
        "a".into(),
        "t".into(),
        TARGET,
        Some("properties/severity eq 'High'".into()),
        Some("properties/createdTimeUtc desc".into()),
        Some(25),
    )
    .unwrap();
    assert_eq!(
        all.first_url(),
        format!(
            "{PROVIDER}/incidents?api-version=2025-09-01&$filter=properties/severity eq 'High'&$orderby=properties/createdTimeUtc desc&$top=25"
        )
    );
    for top in [0i64, 7, 10, 99, 100, 1234567890, -1, -42, i64::MAX, i64::MIN] {
        let c = ListIncidentsCommand::from_attributes("a".into(), "t".into(), TARGET, None, None, Some(top))
            .unwrap();
        assert_eq!(c.first_url(), format!("{PROVIDER}/incidents?api-version=2025-09-01&$top={top}"));
    }
}

fn incident_page(names: &[&str], next: Option<&str>) -> CommandReply<IncidentList> {
    answered(IncidentList {
        next_link: next.map(|n| n.to_string()),
        value: Some(names.iter().map(|n| incident(n, false)).collect()),
    })
}

#[test]
fn incidents_are_listed_over_their_pages() {
    let command =
        ListIncidentsCommand::from_attributes("a".into(), "t".into(), TARGET, None, None, Some(2)).unwrap();
    let report = command.execute(
        true,
        &mut store(),
        0,
        sign_in,
        |_| ExchangeOutcome::Rejected,
        vec![
            incident_page(&["a", "b"], Some("https://next/2")),
            answered(IncidentList { next_link: Some("https://next/3".to_string()), value: None }),
            incident_page(&["c"], None),
            incident_page(&["never"], None),
        ],
    );
    assert_eq!(report.error, None);
    let indexes: Vec<Option<usize>> = report.rows.iter().map(|r| r.index).collect();
    assert_eq!(indexes, vec![Some(0), Some(1), Some(2)]);
    assert_eq!(report.rows[2].fields, vec![text("id", "/incidents/c"), text("name", "c")]);
    let urls: Vec<&str> = report.calls.iter().map(|c| c.url.as_str()).collect();
    assert_eq!(
        urls,
        vec![command.first_url().as_str(), "https://next/2", "https://next/3"]
    );
    for call in &report.calls {
        assert_eq!(call.method, Method::Get);
        assert_eq!(call.authorization, "Bearer tok");
        assert!(!call.json);
    }
}

#[test]
fn a_list_that_fails_keeps_the_rows_before() {
    let command =
        ListIncidentsCommand::from_attributes("a".into(), "t".into(), TARGET, None, None, None).unwrap();
    let report = command.execute(
        true,
        &mut store(),
        0,
        sign_in,
        |_| ExchangeOutcome::Rejected,
        vec![incident_page(&["a"], Some("https://next/2")), refused(503, "503", "later")],
    );
    assert_eq!(report.rows.len(), 1);
    assert_eq!(report.error.unwrap().message(), "Failed to list incidents: 503 - later");
    assert_eq!(report.calls.len(), 2);
    let report = command.execute(
        true,
        &mut store(),
        0,
        sign_in,
        |_| ExchangeOutcome::Rejected,
        vec![incident_page(&["a"], Some("https://next/2"))],
    );
    assert_eq!(report.rows.len(), 1);
    assert_eq!(report.error, Some(CommandError::Transport));
    assert_eq!(report.calls.len(), 2);
    let report = command.execute(
        true,
        &mut None,
        0,
        sign_in,
        |_| ExchangeOutcome::Rejected,
        vec![incident_page(&["a"], None)],
    );
    assert!(report.rows.is_empty());
    assert!(report.calls.is_empty());
    assert_eq!(report.error, Some(CommandError::SessionStoreMissing));
}

#[test]
fn a_listed_incident_is_reported_without_what_a_get_adds() {
    let command =
        ListIncidentsCommand::from_attributes("a".into(), "t".into(), TARGET, None, None, None).unwrap();
    let report = command.execute(
        true,
        &mut store(),
        0,
        sign_in,
        |_| ExchangeOutcome::Rejected,
        vec![answered(IncidentList { next_link: None, value: Some(vec![incident("i", true)]) })],
    );
    assert_eq!(
        report.rows,
        vec![Row {
            index: Some(0),
            fields: vec![
                text("id", "/incidents/i"),
                text("name", "i"),
                text("title", "Suspicious sign-in"),
                text("severity", "High"),
                text("status", "Active"),
                number("incident_number", 17),
                text("incident_url", "https://portal/17"),
                text("created_time_utc", "2024-01-01T00:00:00Z"),
                text("description", "desc"),
                text("last_activity_time_utc", "2024-01-02T00:00:00Z"),
                text("classification", "TruePositive"),
                text("classification_reason", "SuspiciousActivity"),
                text("owner_object_id", "o-1"),
                text("owner_assigned_to", "User"),
                number("alerts_count", 2),
                number("comments_count", 0),
                text("provider_name", "Azure Sentinel"),
            ]
        }]
    );
}

fn alert(with_properties: bool) -> SecurityAlert {
    SecurityAlert {
        id: "a-id".to_string(),
        name: "a-name".to_string(),
        resource_type: "type".to_string(),
        kind: "SecurityAlert".to_string(),
        properties: if with_properties {
            Some(SecurityAlertProperties {
                system_alert_id: Some("sys".to_string()),
                alert_display_name: Some("display".to_string()),
                alert_link: Some("link".to_string()),
                alert_type: None,
                compromised_entity: None,
                confidence_level: Some(ConfidenceLevel::High),
                confidence_reasons: None,
                confidence_score: Some(0.75f64.to_bits()),
                confidence_score_status: None,
                description: None,
                end_time_utc: None,
                friendly_name: None,
                intent: Some(KillChainIntent::Probing),
                processing_end_time: None,
                product_component_name: None,
                product_name: Some("product".to_string()),
                product_version: None,
                provider_alert_id: Some("prov".to_string()),
                remediation_steps: None,
                resource_identifiers: None,
                severity: Some(AlertSeverity::Low),
                start_time_utc: None,
                status: Some(AlertStatus::Resolved),
                tactics: None,
                time_generated: None,
                vendor_name: None,
                additional_data: None,
            })
        } else {
            None
        },
        system_data: None,
    }
}

#[test]
fn alerts_are_reported_row_by_row() {
    let rows = report_alert(&vec![alert(true), alert(false)]);
    assert_eq!(
        rows,
        vec![
            Row {
                index: Some(0),
                fields: vec![
                    text("id", "a-id"),
                    text("name", "a-name"),
                    text("kind", "SecurityAlert"),
                    text("system_alert_id", "sys"),
                    text("alert_display_name", "display"),
                    text("severity", "Low"),
                    text("status", "Resolved"),
                    text("confidence_level", "High"),
                    Field {
                        name: "confidence_score".to_string(),
                        value: FieldValue::Float(0.75f64.to_bits())
                    },
                    text("product_name", "product"),
                    text("alert_link", "link"),
                    text("intent", "Probing"),
                    text("provider_alert_id", "prov"),
                ]
            },
            Row {
                index: Some(1),
                fields: vec![text("id", "a-id"), text("name", "a-name"), text("kind", "SecurityAlert")]
            },
        ]
    );
    let command =
        ListIncidentAlertsCommand::from_attributes("a".into(), "t".into(), TARGET, "i-1".into()).unwrap();
    let seen = Cell::new(None);
    let rows = command
        .execute(
            true,
            &mut store(),
            0,
            sign_in,
            |_| ExchangeOutcome::Rejected,
            |call: ManagementCall<NoBody>| {
                seen.set(Some((call.method, call.url, call.json, call.body)));
                answered(IncidentAlertList { value: vec![alert(false)] })
            },
        )
        .unwrap();
    assert_eq!(rows.len(), 1);
    assert_eq!(
        seen.take(),
        Some((
            Method::Post,
            format!("{PROVIDER}/incidents/i-1/alerts?api-version=2025-09-01"),
            true,
            None
        ))
    );
    let e = command
        .execute(true, &mut store(), 0, sign_in, |_| ExchangeOutcome::Rejected, |_| {
            refused::<IncidentAlertList>(500, "500", "b")
        })
        .unwrap_err();
    assert_eq!(e.message(), "Failed to list incident alerts: 500 - b");
}

#[test]
fn bookmarks_are_reported_row_by_row() {
    let bookmark = HuntingBookmark {
        id: "b-id".to_string(),
        name: "b-name".to_string(),
        resource_type: "type".to_string(),
        kind: "Bookmark".to_string(),
        properties: Some(HuntingBookmarkProperties {
            display_name: Some("display".to_string()),
            created: Some("c".to_string()),
            created_by: Some(UserInfo {
                email: Some("e@x".to_string()),
                name: Some("n".to_string()),
                object_id: Some("o".to_string()),
            }),
            updated: None,
            updated_by: Some(UserInfo {
                email: Some("not reported".to_string()),
                name: Some("un".to_string()),
                object_id: None,
            }),
            event_time: None,
            labels: None,
            notes: Some("notes".to_string()),
            query: Some("q".to_string()),
            query_result: None,
            incident_info: Some(IncidentInfo {
                incident_id: Some("i-1".to_string()),
                relation_name: Some("not reported".to_string()),
                severity: Some(IncidentSeverity::Informational),
                title: Some("title".to_string()),
            }),
            friendly_name: None,
            additional_data: None,
        }),
        system_data: None,
    };
    let rows = report_bookmark(&vec![bookmark]);
    assert_eq!(
        rows,
        vec![Row {
            index: Some(0),
            fields: vec![
                text("id", "b-id"),
                text("name", "b-name"),
                text("kind", "Bookmark"),
                text("display_name", "display"),
                text("created", "c"),
                text("created_by_object_id", "o"),
                text("created_by_name", "n"),
                text("created_by_email", "e@x"),
                text("updated_by_name", "un"),
                text("notes", "notes"),
                text("query", "q"),
                text("incident_id", "i-1"),
                text("incident_severity", "Informational"),
                text("incident_title", "title"),
            ]
        }]
    );
    let command = ListIncidentBookmarksCommand::from_attributes(
        "a".into(),
        "t".into(),
        TARGET,
        "i-1".into(),
    )
    .unwrap();
    let seen = Cell::new(String::new());
    let e = command
        .execute(
            true,
            &mut store(),
            0,
            sign_in,
            |_| ExchangeOutcome::Rejected,
            |call: ManagementCall<NoBody>| {
                seen.set(call.url);
                refused(401, "401", "b")
            },
        )
        .unwrap_err();
    assert_eq!(e.message(), "Failed to list incident bookmarks: 401 - b");
    assert_eq!(seen.take(), format!("{PROVIDER}/incidents/i-1/bookmarks?api-version=2025-09-01"));
}

fn account(friendly: Option<&str>, with_properties: bool) -> Entity {
    Entity::Account(AccountEntity {
        id: Some("e-id".to_string()),
        name: None,
        resource_type: None,
        properties: if with_properties {
            Some(AccountEntityProperties {
                aad_tenant_id: None,
                aad_user_id: None,
                account_name: Some("acc".to_string()),
                display_name: None,
                dns_domain: None,
                friendly_name: friendly.map(|f| f.to_string()),
                host_entity_id: None,
                is_domain_joined: None,
                nt_domain: None,
                object_guid: None,
                puid: None,
                sid: None,
                upn_suffix: None,
                additional_data: None,
            })
        } else {
            None
        },
        system_data: None,
    })
}

fn host() -> Entity {
    Entity::Host(HostEntity {
        id: None,
        name: Some("h".to_string()),
        resource_type: None,
        properties: None,
        system_data: None,
    })
}

#[test]
fn entities_are_reported_by_what_all_kinds_share() {
    let summary = summarize(&account(Some("friendly"), true));
    assert_eq!(summary.kind, EntityKind::Account);
    assert_eq!(summary.id.as_deref(), Some("e-id"));
    assert!(summary.has_properties);
    assert_eq!(summary.friendly_name.as_deref(), Some("friendly"));
    assert_eq!(summarize(&host()).kind, EntityKind::Host);

    let calls = Cell::new(0);
    let serialize = |_: &Entity| {
        calls.set(calls.get() + 1);
        Some("{\"accountName\":\"acc\"}".to_string())
    };
    let fields =
        ListIncidentEntitiesCommand::write_entity(&account(Some("friendly"), true), &serialize).unwrap();
    assert_eq!(
        fields,
        vec![
            text("id", "e-id"),
            text("kind", "Account"),
            text("friendly_name", "friendly"),
            text("properties_json", "{\"accountName\":\"acc\"}"),
        ]
    );
    let fields = ListIncidentEntitiesCommand::write_entity(&account(None, true), &serialize).unwrap();
    assert_eq!(
        fields,
        vec![
            text("id", "e-id"),
            text("kind", "Account"),
            text("properties_json", "{\"accountName\":\"acc\"}")
        ]
    );
    assert_eq!(calls.get(), 2);
    let fields = ListIncidentEntitiesCommand::write_entity(&host(), &serialize).unwrap();
    assert_eq!(fields, vec![text("name", "h"), text("kind", "Host")]);
    assert_eq!(calls.get(), 2);
    let failing = |_: &Entity| None;
    assert_eq!(
        ListIncidentEntitiesCommand::write_entity(&account(None, true), &failing),
        Err(CommandError::Serialize)
    );
    assert!(ListIncidentEntitiesCommand::write_entity(&host(), &failing).is_ok());
}

#[test]
fn entities_are_listed_up_to_the_first_that_cannot_be_written() {
    let command = ListIncidentEntitiesCommand::from_attributes(
        "a".into(),
        "t".into(),
        TARGET,
        "i-1".into(),
    )
    .unwrap();
    let seen = Cell::new(None);
    let serialize = |_: &Entity| Some("{}".to_string());
    let report = command.execute(
        true,
        &mut store(),
        0,
        sign_in,
        |_| ExchangeOutcome::Rejected,
        |call: ManagementCall<NoBody>| {
            seen.set(Some((call.method, call.url, call.json)));
            answered(IncidentEntitiesResponse {
                entities: Some(vec![host(), account(None, true), host()]),
                metadata: None,
            })
        },
        &serialize,
    );
    assert_eq!(report.error, None);
    assert_eq!(report.rows.len(), 3);
    assert_eq!(report.rows[1].index, Some(1));
    assert_eq!(
        seen.take(),
        Some((
            Method::Post,
            format!("{PROVIDER}/incidents/i-1/entities?api-version=2025-09-01"),
            true
        ))
    );
    let failing = |_: &Entity| None;
    let report = command.execute(
        true,
        &mut store(),
        0,
        sign_in,
        |_| ExchangeOutcome::Rejected,
        |_| {
            answered(IncidentEntitiesResponse {
                entities: Some(vec![host(), account(None, true), host()]),
                metadata: None,
            })
        },
        &failing,
    );
    assert_eq!(report.rows.len(), 1);
    assert_eq!(report.error, Some(CommandError::Serialize));
    let report = command.execute(
        true,
        &mut store(),
        0,
        sign_in,
        |_| ExchangeOutcome::Rejected,
        |_| answered(IncidentEntitiesResponse { entities: None, metadata: None }),
        &serialize,
    );
    assert!(report.rows.is_empty());
    assert_eq!(report.error, None);
    let report = command.execute(
        true,
        &mut store(),
        0,
        sign_in,
        |_| ExchangeOutcome::Rejected,
        |_| refused(502, "502", "b"),
        &serialize,
    );
    assert!(report.rows.is_empty());
    assert_eq!(report.error.unwrap().message(), "Failed to list incident entities: 502 - b");
}
