use panopticon_m365::apis::log_analytics::query::Query;
use panopticon_m365::apis::log_analytics::LogAnalyticsWorkspace;
use panopticon_m365::apis::resource_manager::ResourceManager;
use panopticon_m365::apis::sentinel::SentinelWorkspace;
use panopticon_m365::apis::{ApiError, ApiScope, BareReply, Reply, Request};
use panopticon_m365::error::RequestError;
use panopticon_m365::http::Method;
use panopticon_m365::types::azure::common::ListResponse;
use panopticon_m365::types::azure::log_analytics::{MetadataResponse, QueryBody, QueryResponse};
use panopticon_m365::types::azure::resource_manager::raw::{
    ManagedByTenant, ResourceGroupProperties, ResourceGroupResponse, SubscriptionResponse,
    WorkspaceCapping, WorkspaceProperties, WorkspaceResponse, WorkspaceSku,
};
use panopticon_m365::types::azure::resource_manager::{
    ProvisioningState, ResourceGroupInfo, SkuName, Subscription, SubscriptionState, Workspace,
};
use panopticon_m365::types::azure::sentinel::raw::{
    AlertListResponse, EntityListResponse, IncidentAdditionalData, IncidentLabelInfo,
    IncidentOwnerInfo, IncidentProperties, IncidentResponse, SecurityAlert,
    WatchlistItemProperties, WatchlistItemResponse, WatchlistProperties, WatchlistResponse,
    WatchlistUserInfoRaw,
};
use panopticon_m365::types::azure::sentinel::{
    AttackTactic, CreateIncident, CreateIncidentProperties, Incident, IncidentStatus, LabelType,
    OwnerType, Severity, Watchlist, WatchlistItem,
};
use panopticon_m365::types::json::JsonValue;
use std::cell::Cell;
use std::collections::HashMap;

fn answered<T>(value: T) -> Reply<T> {
    Reply::Answered { status: 200, body: "{}".to_string(), decoded: Some(value) }
}

fn subscription(id: &str) -> SubscriptionResponse {
    SubscriptionResponse {
        id: Some(format!("/subscriptions/{id}")),
        subscription_id: Some(id.to_string()),
        tenant_id: Some("t".to_string()),
        display_name: None,
        state: Some(SubscriptionState::Enabled),
        subscription_policies: None,
        authorization_source: None,
        managed_by_tenants: Some(vec![
            ManagedByTenant { tenant_id: Some("m1".to_string()) },
            ManagedByTenant { tenant_id: None },
            ManagedByTenant { tenant_id: Some("m2".to_string()) },
        ]),
        tags: None,
    }
}

#[test]
fn a_subscription_is_flattened() {
    let s = Subscription::from(subscription("s1"));
    assert_eq!(s.id, "/subscriptions/s1");
    assert_eq!(s.subscription_id, "s1");
    assert_eq!(s.tenant_id.as_deref(), Some("t"));
    assert_eq!(s.display_name, None);
    assert_eq!(s.state, Some(SubscriptionState::Enabled));
    assert_eq!(s.managed_by_tenants, vec!["m1", "m2"]);
    let bare = Subscription::from(SubscriptionResponse {
        id: None,
        subscription_id: None,
        tenant_id: None,
        display_name: Some("d".to_string()),
        state: None,
        subscription_policies: None,
        authorization_source: None,
        managed_by_tenants: None,
        tags: None,
    });
    assert_eq!(bare.id, "");
    assert_eq!(bare.subscription_id, "");
    assert_eq!(bare.display_name.as_deref(), Some("d"));
    assert!(bare.managed_by_tenants.is_empty());
}

#[test]
fn a_resource_group_is_flattened() {
    let mut tags = HashMap::new();
    tags.insert("env".to_string(), "prod".to_string());
    let g = ResourceGroupInfo::from(ResourceGroupResponse {
        id: Some("id".to_string()),
        name: Some("rg".to_string()),
        resource_type: Some("type".to_string()),
        location: None,
        managed_by: Some("m".to_string()),
        tags: Some(tags.clone()),
        properties: Some(ResourceGroupProperties { provisioning_state: Some("Succeeded".to_string()) }),
    });
    assert_eq!(g.id, "id");
    assert_eq!(g.name, "rg");
    assert_eq!(g.location, "");
    assert_eq!(g.provisioning_state.as_deref(), Some("Succeeded"));
    assert_eq!(g.managed_by.as_deref(), Some("m"));
    assert_eq!(g.tags, tags);
    let bare = ResourceGroupInfo::from(ResourceGroupResponse {
        id: None,
        name: None,
        resource_type: None,
        location: Some("westeurope".to_string()),
        managed_by: None,
        tags: None,
        properties: None,
    });
    assert_eq!(bare.location, "westeurope");
    assert_eq!(bare.provisioning_state, None);
    assert!(bare.tags.is_empty());
}

#[test]
fn a_workspace_is_flattened() {
    let quota = 2.5f64;
    let w = Workspace::from(WorkspaceResponse {
        id: Some("id".to_string()),
        name: Some("ws".to_string()),
        resource_type: None,
        location: Some("westeurope".to_string()),
        etag: None,
        tags: None,
        properties: Some(WorkspaceProperties {
            customer_id: Some("c".to_string()),
            provisioning_state: Some(ProvisioningState::Succeeded),
            sku: Some(WorkspaceSku {
                name: SkuName::PerGB2018,
                capacity_reservation_level: None,
                last_sku_update: None,
            }),
            retention_in_days: Some(30),
            workspace_capping: Some(WorkspaceCapping {
                daily_quota_gb: quota.to_bits(),
                quota_next_reset_time: None,
                data_ingestion_status: None,
            }),
            created_date: None,
            modified_date: None,
            public_network_access_for_ingestion: None,
            public_network_access_for_query: None,
            force_cmk_for_query: None,
            default_data_collection_rule_resource_id: None,
            features: None,
        }),
        system_data: None,
    });
    assert_eq!(w.name, "ws");
    assert_eq!(w.customer_id.as_deref(), Some("c"));
    assert_eq!(w.provisioning_state, Some(ProvisioningState::Succeeded));
    assert_eq!(w.sku_name, Some(SkuName::PerGB2018));
    assert_eq!(w.retention_in_days, Some(30));
    assert_eq!(w.daily_quota_gb.map(f64::from_bits), Some(2.5));
    let bare = Workspace::from(WorkspaceResponse {
        id: None,
        name: None,
        resource_type: None,
        location: None,
        etag: None,
        tags: None,
        properties: None,
        system_data: None,
    });
    assert_eq!(bare.id, "");
    assert_eq!(bare.sku_name, None);
    assert_eq!(bare.daily_quota_gb, None);
    assert_eq!(bare.retention_in_days, None);
}

fn incident(name: &str) -> IncidentResponse {
    IncidentResponse {
        id: format!("/incidents/{name}"),
        name: name.to_string(),
        resource_type: None,
        etag: Some("e".to_string()),
        properties: IncidentProperties {
            title: "title".to_string(),
            severity: Severity::High,
            status: IncidentStatus::Active,
            description: None,
            incident_number: Some(7),
            incident_url: None,
            created_time_utc: None,
            last_modified_time_utc: None,
            first_activity_time_utc: None,
            last_activity_time_utc: None,
            classification: None,
            classification_comment: None,
            classification_reason: None,
            owner: Some(IncidentOwnerInfo {
                object_id: Some(42),
                email: Some("a@b".to_string()),
                user_principal_name: None,
                assigned_to: None,
                owner_type: Some(OwnerType::User),
            }),
            labels: Some(vec![
                IncidentLabelInfo { label_name: "l1".to_string(), label_type: Some(LabelType::User) },
                IncidentLabelInfo { label_name: "l2".to_string(), label_type: None },
            ]),
            provider_name: None,
            provider_incident_id: None,
            related_analytic_rule_ids: None,
            additional_data: Some(IncidentAdditionalData {
                alerts_count: Some(3),
                bookmarks_count: None,
                comments_count: Some(0),
                alert_product_names: Some(vec!["p".to_string()]),
                tactics: Some(vec![AttackTactic::Impact, AttackTactic::Discovery]),
                provider_incident_url: None,
            }),
        },
        system_data: None,
    }
}

#[test]
fn an_incident_is_flattened() {
    let i = Incident::from(incident("i1"));
    assert_eq!(i.id, "/incidents/i1");
    assert_eq!(i.name, "i1");
    assert_eq!(i.etag.as_deref(), Some("e"));
    assert_eq!(i.title, "title");
    assert_eq!(i.severity, Severity::High);
    assert_eq!(i.status, IncidentStatus::Active);
    assert_eq!(i.incident_number, Some(7));
    let owner = i.owner.unwrap();
    assert_eq!(owner.object_id, Some(42));
    assert_eq!(owner.email.as_deref(), Some("a@b"));
    assert_eq!(owner.owner_type, Some(OwnerType::User));
    assert_eq!(i.labels.len(), 2);
    assert_eq!(i.labels[0].label_name, "l1");
    assert_eq!(i.labels[0].label_type, Some(LabelType::User));
    assert_eq!(i.labels[1].label_name, "l2");
    assert!(i.related_analytic_rule_ids.is_empty());
    assert_eq!(i.alerts_count, Some(3));
    assert_eq!(i.bookmarks_count, None);
    assert_eq!(i.comments_count, Some(0));
    assert_eq!(i.alert_product_names, vec!["p"]);
    assert_eq!(i.tactics, vec![AttackTactic::Impact, AttackTactic::Discovery]);
    let mut bare = incident("i2");
    bare.properties.additional_data = None;
    bare.properties.labels = None;
    bare.properties.owner = None;
    let i = Incident::from(bare);
    assert!(i.owner.is_none());
    assert!(i.labels.is_empty());
    assert_eq!(i.alerts_count, None);
    assert!(i.alert_product_names.is_empty());
    assert!(i.tactics.is_empty());
}

fn watchlist_properties() -> WatchlistProperties {
    WatchlistProperties {
        watchlist_id: Some("wid".to_string()),
        display_name: Some("d".to_string()),
        provider: None,
        source: None,
        source_type: None,
        description: None,
        watchlist_type: None,
        watchlist_alias: Some("alias".to_string()),
        items_search_key: Some("key".to_string()),
        is_deleted: Some(false),
        labels: None,
        default_duration: None,
        tenant_id: None,
        content_type: None,
        number_of_lines_to_skip: Some(1),
        raw_content: Some("raw".to_string()),
        upload_status: None,
        provisioning_state: None,
        created: None,
        updated: None,
        created_by: Some(WatchlistUserInfoRaw {
            object_id: Some(1),
            email: None,
            name: Some("n".to_string()),
        }),
        updated_by: None,
    }
}

#[test]
fn a_watchlist_is_flattened() {
    let w = Watchlist::from(WatchlistResponse {
        id: "id".to_string(),
        name: "name".to_string(),
        resource_type: None,
        etag: None,
        properties: watchlist_properties(),
        system_data: None,
    });
    assert_eq!(w.id, "id");
    assert_eq!(w.watchlist_id.as_deref(), Some("wid"));
    assert_eq!(w.watchlist_alias.as_deref(), Some("alias"));
    assert_eq!(w.items_search_key.as_deref(), Some("key"));
    assert_eq!(w.is_deleted, Some(false));
    assert!(w.labels.is_empty());
    assert_eq!(w.number_of_lines_to_skip, Some(1));
    let by = w.created_by.unwrap();
    assert_eq!(by.object_id, Some(1));
    assert_eq!(by.name.as_deref(), Some("n"));
    assert!(w.updated_by.is_none());
}

fn watchlist_item(key_value: Option<JsonValue>) -> WatchlistItemResponse {
    WatchlistItemResponse {
        id: "id".to_string(),
        name: "name".to_string(),
        resource_type: None,
        etag: Some("e".to_string()),
        properties: WatchlistItemProperties {
            watchlist_item_id: Some("wi".to_string()),
            watchlist_item_type: None,
            tenant_id: None,
            is_deleted: None,
            created: None,
            updated: None,
            created_by: None,
            updated_by: Some(WatchlistUserInfoRaw { object_id: None, email: None, name: None }),
            items_key_value: key_value,
            entity_mapping: Some(JsonValue::Null),
        },
        system_data: None,
    }
}

#[test]
fn a_watchlist_item_is_flattened() {
    let given = JsonValue::Object("{\"k\":\"v\"}".to_string());
    let w = WatchlistItem::from(watchlist_item(Some(given.clone())));
    assert_eq!(w.items_key_value, given);
    assert_eq!(w.entity_mapping, Some(JsonValue::Null));
    assert_eq!(w.watchlist_item_id.as_deref(), Some("wi"));
    assert!(w.created_by.is_none());
    assert!(w.updated_by.is_some());
    let w = WatchlistItem::from(watchlist_item(None));
    assert_eq!(w.items_key_value, JsonValue::Object("{}".to_string()));
}

#[test]
fn subscriptions_are_listed_at_their_path() {
    let scope = ResourceManager::new("t");
    let replies = vec![answered(ListResponse { value: vec![subscription("s1")], next_link: None })];
    let run = scope.subscriptions().list(replies);
    let items = run.result.unwrap();
    assert_eq!(items.len(), 1);
    assert_eq!(items[0].subscription_id, "s1");
    assert_eq!(run.requests.len(), 1);
    assert_eq!(
        run.requests[0].url,
        "https://management.azure.com/subscriptions?api-version=2022-12-01"
    );
}

#[test]
fn resource_groups_and_workspaces_are_listed_at_their_paths() {
    let scope = ResourceManager::new("t");
    let run = scope.resource_groups().list("s1", vec![]);
    assert_eq!(
        run.requests[0].url,
        "https://management.azure.com/subscriptions/s1/resourcegroups?api-version=2024-11-01"
    );
    let run = scope.workspaces().list("s1", vec![]);
    assert_eq!(
        run.requests[0].url,
        "https://management.azure.com/subscriptions/s1/providers/Microsoft.OperationalInsights/workspaces?api-version=2023-09-01"
    );
    let run = scope.workspaces().list_by_resource_group("s1", "g1", vec![]);
    assert_eq!(
        run.requests[0].url,
        "https://management.azure.com/subscriptions/s1/resourcegroups/g1/providers/Microsoft.OperationalInsights/workspaces?api-version=2023-09-01"
    );
    let seen = Cell::new(String::new());
    let r = scope.workspaces().get("s1", "g1", "w1", |request: Request| {
        seen.set(request.url);
        Reply::<WorkspaceResponse>::Failed
    });
    assert_eq!(r.err(), Some(ApiError::Request(RequestError::TransportFailure)));
    assert_eq!(
        seen.take(),
        "https://management.azure.com/subscriptions/s1/resourcegroups/g1/providers/Microsoft.OperationalInsights/workspaces/w1?api-version=2023-09-01"
    );
}

#[test]
fn incidents_have_their_paths_and_methods() {
    let scope = SentinelWorkspace::new("t", "s", "g", "w");
    let incidents = scope.incidents();
    let run = incidents.list(vec![answered(ListResponse {
        value: vec![incident("i1"), incident("i2")],
        next_link: None,
    })]);
    let items = run.result.unwrap();
    assert_eq!(items.len(), 2);
    assert_eq!(items[1].name, "i2");
    assert_eq!(run.requests[0].url, scope.url("incidents"));

    let seen = Cell::new(None);
    let got = incidents
        .get("i1", |request: Request| {
            seen.set(Some((request.method, request.url)));
            answered(incident("i1"))
        })
        .unwrap();
    assert_eq!(got.name, "i1");
    assert_eq!(seen.take(), Some((Method::Get, scope.url("incidents/i1"))));

    let body = CreateIncident {
        etag: None,
        properties: CreateIncidentProperties {
            title: "t".to_string(),
            severity: Severity::Low,
            status: IncidentStatus::New,
            description: None,
            first_activity_time_utc: None,
            last_activity_time_utc: None,
            owner: None,
            classification: None,
            classification_comment: None,
            classification_reason: None,
            labels: None,
        },
    };
    let made = incidents
        .create_or_update("i9", &body, |request: Request, sent: &CreateIncident| {
            seen.set(Some((request.method, request.url)));
            assert_eq!(sent.properties.title, "t");
            answered(incident("i9"))
        })
        .unwrap();
    assert_eq!(made.name, "i9");
    assert_eq!(seen.take(), Some((Method::Put, scope.url("incidents/i9"))));

    let r = incidents.delete("i9", |request: Request| {
        seen.set(Some((request.method, request.url)));
        BareReply::Answered { status: 204, body: String::new() }
    });
    assert_eq!(r, Ok(()));
    assert_eq!(seen.take(), Some((Method::Delete, scope.url("incidents/i9"))));
}

#[test]
fn alerts_and_entities_are_posted_for() {
    let scope = SentinelWorkspace::new("t", "s", "g", "w");
    let incidents = scope.incidents();
    let seen = Cell::new(None);
    let alerts = incidents
        .list_alerts("i1", |request: Request| {
            seen.set(Some((request.method, request.url)));
            answered(AlertListResponse {
                value: vec![SecurityAlert {
                    id: Some("a1".to_string()),
                    name: None,
                    resource_type: None,
                    kind: None,
                    properties: None,
                }],
            })
        })
        .unwrap();
    assert_eq!(alerts.len(), 1);
    assert_eq!(alerts[0].id.as_deref(), Some("a1"));
    assert_eq!(seen.take(), Some((Method::Post, scope.url("incidents/i1/alerts"))));
    let entities = incidents
        .list_entities("i1", |request: Request| {
            seen.set(Some((request.method, request.url)));
            answered(EntityListResponse { entities: vec![], metadata: None })
        })
        .unwrap();
    assert!(entities.entities.is_empty());
    assert_eq!(seen.take(), Some((Method::Post, scope.url("incidents/i1/entities"))));
    let failed = incidents.list_alerts("i1", |_| Reply::<AlertListResponse>::Answered {
        status: 403,
        body: "forbidden".to_string(),
        decoded: None,
    });
    assert_eq!(
        failed.err(),
        Some(ApiError::Request(RequestError::UnsuccessfulStatus {
            code: 403,
            body: "forbidden".to_string()
        }))
    );
}

#[test]
fn watchlists_and_their_items_have_their_paths() {
    let scope = SentinelWorkspace::new("t", "s", "g", "w");
    let run = scope.watchlists().list(vec![]);
    assert_eq!(run.requests[0].url, scope.url("watchlists"));
    let run = scope.watchlist_items().list("al", vec![]);
    assert_eq!(run.requests[0].url, scope.url("watchlists/al/watchlistItems"));
    let seen = Cell::new(None);
    let r = scope.watchlists().get("al", |request: Request| {
        seen.set(Some((request.method, request.url)));
        Reply::<WatchlistResponse>::Failed
    });
    assert!(r.is_err());
    assert_eq!(seen.take(), Some((Method::Get, scope.url("watchlists/al"))));
    let r = scope.watchlists().delete("al", |request: Request| {
        seen.set(Some((request.method, request.url)));
        BareReply::Failed
    });
    assert!(r.is_err());
    assert_eq!(seen.take(), Some((Method::Delete, scope.url("watchlists/al"))));
    let got = scope
        .watchlist_items()
        .get("al", "it", |request: Request| {
            seen.set(Some((request.method, request.url)));
            answered(watchlist_item(None))
        })
        .unwrap();
    assert_eq!(got.items_key_value, JsonValue::Object("{}".to_string()));
    assert_eq!(seen.take(), Some((Method::Get, scope.url("watchlists/al/watchlistItems/it"))));
    let r = scope.watchlist_items().delete("al", "it", |request: Request| {
        seen.set(Some((request.method, request.url)));
        BareReply::Answered { status: 200, body: String::new() }
    });
    assert_eq!(r, Ok(()));
    assert_eq!(seen.take(), Some((Method::Delete, scope.url("watchlists/al/watchlistItems/it"))));
}

#[test]
fn queries_by_get_and_by_post() {
    let scope = LogAnalyticsWorkspace::new("t", "w-1");
    assert_eq!(
        Query::parameters("Heartbeat | take 1", Some("PT1H")),
        vec![
            ("query".to_string(), "Heartbeat | take 1".to_string()),
            ("timespan".to_string(), "PT1H".to_string())
        ]
    );
    assert_eq!(
        Query::parameters("Heartbeat", None),
        vec![("query".to_string(), "Heartbeat".to_string())]
    );
    let seen = Cell::new(None);
    let r = scope.query().get(
        "Heartbeat",
        Some("P1D"),
        |request: Request, parameters: &Vec<(String, String)>| {
            seen.set(Some((request.method, request.url, parameters.clone())));
            answered(QueryResponse { tables: vec![] })
        },
    );
    assert!(r.unwrap().tables.is_empty());
    assert_eq!(
        seen.take(),
        Some((
            Method::Get,
            "https://api.loganalytics.io/v1/workspaces/w-1/query".to_string(),
            vec![
                ("query".to_string(), "Heartbeat".to_string()),
                ("timespan".to_string(), "P1D".to_string())
            ]
        ))
    );
    let body = QueryBody { query: "Heartbeat".to_string(), timespan: None, workspaces: None };
    let posted = Cell::new(None);
    let r = scope.query().execute(&body, |request: Request, sent: &QueryBody| {
        posted.set(Some((request.method, request.url, sent.query.clone())));
        Reply::<QueryResponse>::Answered { status: 400, body: "bad query".to_string(), decoded: None }
    });
    assert_eq!(
        r.err(),
        Some(ApiError::Request(RequestError::UnsuccessfulStatus {
            code: 400,
            body: "bad query".to_string()
        }))
    );
    assert_eq!(
        posted.take(),
        Some((
            Method::Post,
            "https://api.loganalytics.io/v1/workspaces/w-1/query".to_string(),
            "Heartbeat".to_string()
        ))
    );
    let met = Cell::new(None);
    let r = scope.metadata().get(|request: Request| {
        met.set(Some((request.method, request.url)));
        answered(MetadataResponse { tables: vec![], functions: vec![] })
    });
    assert!(r.is_ok());
    assert_eq!(
        met.take(),
        Some((Method::Get, "https://api.loganalytics.io/v1/workspaces/w-1/metadata".to_string()))
    );
}
