use panopticon_m365::apis::auth::{AuthRequestBuilder, DATA_RESOURCE_MONITORING, ENDPOINT};
use panopticon_m365::apis::resource_manager::resource_groups::resource_groups_path_for;
use panopticon_m365::apis::resource_manager::workspaces::{
    group_workspaces_path_for, workspace_path_for, workspaces_path_for,
};
use panopticon_m365::apis::resource_manager::ResourceManager;
use panopticon_m365::apis::sentinel::incidents::{
    incident_alerts_path_for, incident_entities_path_for, incident_path_for,
};
use panopticon_m365::apis::sentinel::watchlist_items::{
    watchlist_item_path_for, watchlist_items_path_for,
};
use panopticon_m365::apis::sentinel::watchlists::watchlist_path_for;
use panopticon_m365::apis::{
    convert_page, copy_request, read_resource, request_resource, request_with, send_resource,
    ApiError, Reply, Request,
};
use panopticon_m365::auth::AuthScope;
use panopticon_m365::cache::{SessionCache, TokenError};
use panopticon_m365::client::auth::{ExchangeOutcome, Session, SessionKey, Token};
use panopticon_m365::error::{AuthError, ConfigError, RequestError};
use panopticon_m365::http::Method;
use std::cell::Cell;

#[derive(Debug, Clone, PartialEq)]
struct Celsius(i32);

#[derive(Debug, Clone, PartialEq)]
struct Kelvin(i32);

impl From<Celsius> for Kelvin {
    fn from(c: Celsius) -> Kelvin {
        Kelvin(c.0 + 273)
    }
}

fn bearer(access: &str, refresh: Option<&str>, expires_in: Option<u64>) -> Token {
    Token {
        access_token: access.to_string(),
        refresh_token: refresh.map(|r| r.to_string()),
        expires_in,
        token_type: "bearer".to_string(),
    }
}

fn words(items: &[&str]) -> Vec<String> {
    items.iter().map(|s| s.to_string()).collect()
}

#[test]
fn the_paths_of_the_resource_manager() {
    assert_eq!(
        resource_groups_path_for("s-1"),
        "subscriptions/s-1/resourcegroups?api-version=2024-11-01"
    );
    assert_eq!(
        workspaces_path_for("s-1"),
        "subscriptions/s-1/providers/Microsoft.OperationalInsights/workspaces?api-version=2023-09-01"
    );
    assert_eq!(
        group_workspaces_path_for("s-1", "rg-1"),
        "subscriptions/s-1/resourcegroups/rg-1/providers/Microsoft.OperationalInsights/workspaces?api-version=2023-09-01"
    );
    assert_eq!(
        workspace_path_for("s-1", "rg-1", "ws-1"),
        "subscriptions/s-1/resourcegroups/rg-1/providers/Microsoft.OperationalInsights/workspaces/ws-1?api-version=2023-09-01"
    );
    assert_eq!(resource_groups_path_for(""), "subscriptions//resourcegroups?api-version=2024-11-01");
}

#[test]
fn the_paths_of_a_sentinel_workspace() {
    assert_eq!(incident_path_for("i-1"), "incidents/i-1");
    assert_eq!(incident_alerts_path_for("i-1"), "incidents/i-1/alerts");
    assert_eq!(incident_entities_path_for("i-1"), "incidents/i-1/entities");
    assert_eq!(watchlist_path_for("hosts"), "watchlists/hosts");
    assert_eq!(watchlist_items_path_for("hosts"), "watchlists/hosts/watchlistItems");
    assert_eq!(watchlist_item_path_for("hosts", "7"), "watchlists/hosts/watchlistItems/7");
    assert_eq!(incident_path_for(""), "incidents/");
}

#[test]
fn a_request_for_a_monitoring_token() {
    let builder = AuthRequestBuilder::monitoring_azure(7u128, 9u128, "hidden");
    assert_eq!(builder.tenant_id, 7);
    assert_eq!(builder.client_id, 9);
    assert_eq!(builder.client_secret, "hidden");
    assert_eq!(builder.resource, "https://monitoring.azure.com");
    assert_eq!(builder.resource, DATA_RESOURCE_MONITORING);
    assert_eq!(ENDPOINT, "https://login.microsoftonline.com");
}

#[test]
fn a_scope_begins_its_own_sign_in() {
    let scope = AuthScope {
        client_id: "client-1".to_string(),
        tenant_id: "contoso.example".to_string(),
        scopes: words(&["b", "a", "b"]),
    };
    let flow = Session::init(&scope).expect("the endpoints of a tenant named so parse");
    assert_eq!(flow.scopes(), &words(&["b", "a", "b"]));
    assert_eq!(flow.config().client_identity, "client-1");
    assert_eq!(
        flow.config().token_endpoint,
        "https://login.microsoftonline.com/contoso.example/oauth2/v2.0/token"
    );
    assert_eq!(
        flow.config().authorization_endpoint,
        "https://login.microsoftonline.com/contoso.example/oauth2/v2.0/authorize"
    );
    assert_eq!(
        flow.config().device_authorization_endpoint,
        "https://login.microsoftonline.com/contoso.example/oauth2/v2.0/devicecode"
    );
}

#[test]
fn a_scope_fails_only_on_its_endpoints() {
    for tenant in ["", "[", "a tenant", "..", "%"] {
        let scope = AuthScope {
            client_id: "client-1".to_string(),
            tenant_id: tenant.to_string(),
            scopes: vec![],
        };
        match Session::init(&scope) {
            Ok(flow) => assert_eq!(
                flow.config().token_endpoint,
                format!("https://login.microsoftonline.com/{tenant}/oauth2/v2.0/token")
            ),
            Err(e) => assert_eq!(e, ConfigError::MalformedEndpoint),
        }
    }
}

#[test]
fn one_request_is_made_and_read() {
    let scope = ResourceManager::new("t-1");
    let seen = Cell::new(0);
    let r: Result<u32, ApiError> =
        request_resource(&scope, Method::Post, "/a/b?c=d", "a number", |request: Request| {
            seen.set(seen.get() + 1);
            assert_eq!(request.tenant_id, "t-1");
            assert_eq!(request.method, Method::Post);
            assert_eq!(request.url, "https://management.azure.com/a/b?c=d");
            Reply::Answered { status: 201, body: "5".to_string(), decoded: Some(5) }
        });
    assert_eq!(r, Ok(5));
    assert_eq!(seen.get(), 1);

    let r: Result<u32, ApiError> =
        request_resource(&scope, Method::Get, "a", "a number", |_| Reply::Answered {
            status: 200,
            body: "five".to_string(),
            decoded: None,
        });
    assert_eq!(
        r,
        Err(ApiError::Request(RequestError::DecodeFailure {
            expected_shape: "a number".to_string()
        }))
    );

    let r: Result<u32, ApiError> =
        request_resource(&scope, Method::Get, "a", "a number", |_| Reply::Failed);
    assert_eq!(r, Err(ApiError::Request(RequestError::TransportFailure)));
}

#[test]
fn one_request_with_what_goes_with_it() {
    let scope = ResourceManager::new("t-1");
    let payload = vec![1u8, 2, 3];
    let r: Result<usize, ApiError> = request_with(
        &scope,
        Method::Post,
        "sum",
        &payload,
        "a count",
        |request: Request, sent: &Vec<u8>| {
            assert_eq!(request.method, Method::Post);
            assert_eq!(request.url, "https://management.azure.com/sum");
            Reply::Answered { status: 200, body: String::new(), decoded: Some(sent.len()) }
        },
    );
    assert_eq!(r, Ok(3));

    let r: Result<usize, ApiError> =
        request_with(&scope, Method::Post, "sum", &payload, "a count", |_, _| Reply::Answered {
            status: 503,
            body: "later".to_string(),
            decoded: Some(3),
        });
    assert_eq!(
        r,
        Err(ApiError::Request(RequestError::UnsuccessfulStatus {
            code: 503,
            body: "later".to_string()
        }))
    );
}

#[test]
fn what_came_back_is_converted_once() {
    let scope = ResourceManager::new("t-1");
    let r: Result<Kelvin, ApiError> = send_resource(
        &scope,
        Method::Put,
        "/heat",
        &Celsius(1),
        "a temperature",
        |request: Request, body: &Celsius| {
            assert_eq!(request.method, Method::Put);
            assert_eq!(request.url, "https://management.azure.com/heat");
            Reply::Answered { status: 200, body: String::new(), decoded: Some(Celsius(body.0 + 1)) }
        },
    );
    assert_eq!(r, Ok(Kelvin(275)));

    let read: Result<Kelvin, ApiError> = read_resource(
        Reply::Answered { status: 299, body: String::new(), decoded: Some(Celsius(-273)) },
        "a temperature",
    );
    assert_eq!(read, Ok(Kelvin(0)));
    let read: Result<Kelvin, ApiError> = read_resource(
        Reply::Answered { status: 300, body: "moved".to_string(), decoded: Some(Celsius(0)) },
        "a temperature",
    );
    assert_eq!(
        read,
        Err(ApiError::Request(RequestError::UnsuccessfulStatus {
            code: 300,
            body: "moved".to_string()
        }))
    );
}

#[test]
fn a_page_is_converted_in_its_order() {
    let mut items = vec![Kelvin(1)];
    convert_page(vec![Celsius(0), Celsius(10), Celsius(-3)], &mut items);
    assert_eq!(items, vec![Kelvin(1), Kelvin(273), Kelvin(283), Kelvin(270)]);
    convert_page(Vec::<Celsius>::new(), &mut items);
    assert_eq!(items.len(), 4);
}

#[test]
fn a_request_is_copied_whole() {
    let request = Request {
        tenant_id: "t".to_string(),
        method: Method::Delete,
        url: "https://example.test/x".to_string(),
    };
    let copy = copy_request(&request);
    assert_eq!(copy.tenant_id, "t");
    assert_eq!(copy.method, Method::Delete);
    assert_eq!(copy.url, "https://example.test/x");
}

struct DeviceFlowConfig;

impl DeviceFlowConfig {
    fn for_key(key: &SessionKey) -> panopticon_m365::oauth::OAuthConfig {
        Session::from_session_key(key).expect("a key's endpoints parse").config().clone()
    }
}

#[test]
fn a_token_is_held_only_for_an_identity_with_a_holder() {
    let mut cache: SessionCache<SessionKey> = SessionCache::new();
    let key = SessionKey::new(1, 2, words(&["s"]));
    let absent = SessionKey::new(1, 3, words(&["s"]));
    let session =
        Session::holding(DeviceFlowConfig::for_key(&key), bearer("old", Some("r"), Some(400)), 0);
    assert!(cache.insert_if_absent(key.clone(), session));

    assert_eq!(cache.held_token(&absent, 0, |_| ExchangeOutcome::Rejected), None);
    assert_eq!(cache.len(), 1);

    let exchanges = Cell::new(0);
    let kept = cache.held_token(&key, 100, |_| {
        exchanges.set(exchanges.get() + 1);
        ExchangeOutcome::Rejected
    });
    assert_eq!(kept, Some(Ok("old".to_string())));
    assert_eq!(exchanges.get(), 0);

    let renewed = cache.held_token(&key, 101, |refresh_token| {
        exchanges.set(exchanges.get() + 1);
        assert_eq!(refresh_token, "r");
        ExchangeOutcome::Granted(bearer("new", None, Some(3600)))
    });
    assert_eq!(renewed, Some(Ok("new".to_string())));
    assert_eq!(exchanges.get(), 1);

    let spent = cache.held_token(&key, 101 + 3301, |_| ExchangeOutcome::Rejected);
    assert_eq!(spent, Some(Err(TokenError::Auth(AuthError::NoRefreshToken))));
    assert_eq!(cache.get(&key).map(|s| s.token().access_token.clone()), Some("new".to_string()));
}
