use panopticon_m365::auth::{AuthScope, SessionStore};
use panopticon_m365::cache::{SessionCache, TokenError, TokenStep};
use panopticon_m365::client::auth::{ExchangeOutcome, Session, SessionKey, Token};
use panopticon_m365::client::{Client, ClientError};
use panopticon_m365::error::{AuthError, ConfigError};
use panopticon_m365::http::Method;
use panopticon_m365::oauth::{DeviceCodeOutcome, DeviceFlow, SignInOutcome};
use std::cell::Cell;

const TENANT: &str = "df8dec64-bc23-40f8-bb99-02c915fd2e21";
const OTHER_TENANT: &str = "11111111-2222-3333-4444-555555555555";
const CLIENT: &str = "ec064767-caf0-4292-88c8-44597576b102";

fn strings(items: &[&str]) -> Vec<String> {
    items.iter().map(|s| s.to_string()).collect()
}

fn token(access: &str, refresh: Option<&str>, expires_in: Option<u64>) -> Token {
    Token {
        access_token: access.to_string(),
        refresh_token: refresh.map(|r| r.to_string()),
        expires_in,
        token_type: "bearer".to_string(),
    }
}

fn sign_in(flow: DeviceFlow, granted: Token, now: u64) -> Result<Session, AuthError> {
    let pending = flow.on_device_code(DeviceCodeOutcome::Issued {
        verification_uri: "https://microsoft.com/devicelogin".to_string(),
        user_code: "CODE".to_string(),
    })?;
    pending.complete(SignInOutcome::Granted(granted), now)
}

#[test]
fn one_sign_in_per_identity() {
    let mut cache: SessionCache<SessionKey> = SessionCache::new();
    let a = SessionKey::new(1, 2, strings(&["x", "y"]));
    let a_reordered = SessionKey::new(1, 2, strings(&["y", "x"]));
    let b = SessionKey::new(1, 2, strings(&["x"]));
    let sign_ins = Cell::new(0);

    let first = cache.get_token(
        &a,
        100,
        |flow| {
            sign_ins.set(sign_ins.get() + 1);
            sign_in(flow, token("ta", Some("ra"), Some(3600)), 100)
        },
        |_| ExchangeOutcome::Rejected,
    );
    assert_eq!(first, Ok("ta".to_string()));
    assert_eq!(sign_ins.get(), 1);
    assert_eq!(cache.len(), 1);

    for _ in 0..5 {
        let again = cache.get_token(
            &a_reordered,
            200,
            |flow| {
                sign_ins.set(sign_ins.get() + 1);
                sign_in(flow, token("never", None, Some(3600)), 200)
            },
            |_| ExchangeOutcome::Rejected,
        );
        assert_eq!(again, Ok("ta".to_string()));
    }
    assert_eq!(sign_ins.get(), 1);
    assert_eq!(cache.len(), 1);

    let other = cache.get_token(
        &b,
        300,
        |flow| {
            sign_ins.set(sign_ins.get() + 1);
            sign_in(flow, token("tb", Some("rb"), Some(3600)), 300)
        },
        |_| ExchangeOutcome::Rejected,
    );
    assert_eq!(other, Ok("tb".to_string()));
    assert_eq!(sign_ins.get(), 2);
    assert_eq!(cache.len(), 2);
    assert_eq!(cache.get(&a).unwrap().access_token(), "ta");
    assert_eq!(cache.get(&b).unwrap().access_token(), "tb");
}

#[test]
fn a_refresh_of_one_identity_leaves_the_others() {
    let mut cache: SessionCache<SessionKey> = SessionCache::new();
    let a = SessionKey::new(1, 2, strings(&["x"]));
    let b = SessionKey::new(3, 2, strings(&["x"]));
    for (key, access, refresh) in [(&a, "ta", "ra"), (&b, "tb", "rb")] {
        let got = cache.get_token(
            key,
            0,
            |flow| sign_in(flow, token(access, Some(refresh), Some(3600)), 0),
            |_| ExchangeOutcome::Rejected,
        );
        assert_eq!(got, Ok(access.to_string()));
    }
    let seen = Cell::new(String::new());
    let renewed = cache.get_token(
        &a,
        3500,
        |flow| sign_in(flow, token("never", None, None), 3500),
        |refresh_token| {
            seen.set(refresh_token);
            ExchangeOutcome::Granted(token("ta2", Some("ra2"), Some(3600)))
        },
    );
    assert_eq!(renewed, Ok("ta2".to_string()));
    assert_eq!(seen.take(), "ra");
    assert_eq!(cache.get(&a).unwrap().access_token(), "ta2");
    assert_eq!(cache.get(&a).unwrap().created(), 3500);
    assert_eq!(cache.get(&b).unwrap().access_token(), "tb");
    assert_eq!(cache.get(&b).unwrap().created(), 0);
}

#[test]
fn a_failed_sign_in_inserts_nothing() {
    let mut cache: SessionCache<SessionKey> = SessionCache::new();
    let a = SessionKey::new(1, 2, strings(&["x"]));
    let got = cache.get_token(
        &a,
        0,
        |_| Err(AuthError::DeviceFlowDenied),
        |_| ExchangeOutcome::Rejected,
    );
    assert_eq!(got, Err(TokenError::Auth(AuthError::DeviceFlowDenied)));
    assert_eq!(cache.len(), 0);
    assert!(!cache.contains_key(&a));
    assert!(cache.get(&a).is_none());
}

#[test]
fn a_failed_refresh_keeps_the_stale_holder() {
    let mut cache: SessionCache<SessionKey> = SessionCache::new();
    let a = SessionKey::new(1, 2, strings(&["x"]));
    let got = cache.get_token(
        &a,
        0,
        |flow| sign_in(flow, token("short", None, Some(10)), 0),
        |_| ExchangeOutcome::Rejected,
    );
    assert_eq!(got, Err(TokenError::Auth(AuthError::NoRefreshToken)));
    assert_eq!(cache.len(), 1);
    assert_eq!(cache.get(&a).unwrap().access_token(), "short");
    let sign_ins = Cell::new(0);
    let again = cache.get_token(
        &a,
        1,
        |flow| {
            sign_ins.set(sign_ins.get() + 1);
            sign_in(flow, token("fresh", None, Some(3600)), 1)
        },
        |_| ExchangeOutcome::Rejected,
    );
    assert_eq!(again, Err(TokenError::Auth(AuthError::NoRefreshToken)));
    assert_eq!(sign_ins.get(), 0);
}

#[test]
fn the_first_holder_of_an_identity_stays() {
    let mut cache: SessionCache<SessionKey> = SessionCache::new();
    let a = SessionKey::new(1, 2, strings(&["x"]));
    let make = |access: &str| {
        let flow = Session::from_session_key(&a).unwrap();
        sign_in(flow, token(access, None, Some(3600)), 0).unwrap()
    };
    assert!(cache.insert_if_absent(a.clone(), make("first")));
    assert!(!cache.insert_if_absent(a.clone(), make("second")));
    assert_eq!(cache.len(), 1);
    assert_eq!(cache.get(&a).unwrap().access_token(), "first");
    assert_eq!(
        cache.complete_refresh(&a, ExchangeOutcome::Granted(token("third", None, None)), 9),
        Some(Ok(()))
    );
    assert_eq!(cache.get(&a).unwrap().access_token(), "third");
    let b = SessionKey::new(9, 9, strings(&[]));
    assert_eq!(cache.complete_refresh(&b, ExchangeOutcome::Rejected, 9), None);
}

#[test]
fn the_client_reads_its_identifiers_as_uuids() {
    assert_eq!(
        Client::session_key("not a uuid", CLIENT, strings(&["x"])).err(),
        Some(ConfigError::MalformedTenant)
    );
    assert_eq!(
        Client::session_key(TENANT, "not a uuid", strings(&["x"])).err(),
        Some(ConfigError::MalformedClient)
    );
    assert_eq!(
        Client::session_key("nope", "nope", strings(&["x"])).err(),
        Some(ConfigError::MalformedTenant)
    );
    let key = Client::session_key(TENANT, CLIENT, strings(&["x"])).unwrap();
    assert_eq!(key.tenant_id(), 0xdf8dec64_bc23_40f8_bb99_02c915fd2e21u128);
    assert_eq!(key.client_id(), 0xec064767_caf0_4292_88c8_44597576b102u128);
    assert_eq!(key.tenant_id(), uuid::Uuid::parse_str(TENANT).unwrap().as_u128());
    // the braced and the simple form name the same tenant
    let braced = Client::session_key(
        "{DF8DEC64-BC23-40F8-BB99-02C915FD2E21}",
        "ec064767caf0429288c844597576b102",
        strings(&["x"]),
    )
    .unwrap();
    assert!(key == braced);
}

#[test]
fn the_client_signs_an_identity_in_once() {
    let mut client = Client::new();
    let sign_ins = Cell::new(0);
    for _ in 0..3 {
        let r = client.authenticate(TENANT, CLIENT, strings(&["a", "b"]), |flow| {
            sign_ins.set(sign_ins.get() + 1);
            sign_in(flow, token("t0", Some("r0"), Some(3600)), 0)
        });
        assert_eq!(r, Ok(()));
    }
    let r = client.authenticate(TENANT, CLIENT, strings(&["b", "a", "b"]), |flow| {
        sign_ins.set(sign_ins.get() + 1);
        sign_in(flow, token("t1", Some("r1"), Some(3600)), 0)
    });
    assert_eq!(r, Ok(()));
    assert_eq!(sign_ins.get(), 1);
    let key = Client::session_key(TENANT, CLIENT, strings(&["a", "b"])).unwrap();
    assert!(client.is_authenticated(&key));
}

#[test]
fn the_client_tells_malformed_identifiers_and_failed_sign_ins() {
    let mut client = Client::new();
    let r = client.authenticate("x", CLIENT, strings(&[]), |_| Err(AuthError::NetworkFailure));
    assert_eq!(r, Err(ClientError::Config(ConfigError::MalformedTenant)));
    let r = client.authenticate(TENANT, "x", strings(&[]), |_| Err(AuthError::NetworkFailure));
    assert_eq!(r, Err(ClientError::Config(ConfigError::MalformedClient)));
    let r = client.authenticate(TENANT, CLIENT, strings(&[]), |_| Err(AuthError::DeviceFlowExpired));
    assert_eq!(r, Err(ClientError::Auth(AuthError::DeviceFlowExpired)));
    let key = Client::session_key(TENANT, CLIENT, strings(&[])).unwrap();
    assert!(!client.is_authenticated(&key));
}

#[test]
fn requests_draw_the_token_of_their_identity() {
    let mut client = Client::new();
    client
        .authenticate(TENANT, CLIENT, strings(&["a"]), |flow| {
            sign_in(flow, token("t0", Some("r0"), Some(3600)), 0)
        })
        .unwrap();
    let key = Client::session_key(TENANT, CLIENT, strings(&["a"])).unwrap();
    let request = client
        .request(&key, Method::Get, "https://example.test/a", 10, |_| ExchangeOutcome::Rejected)
        .unwrap();
    assert_eq!(request.method, Method::Get);
    assert_eq!(request.url, "https://example.test/a");
    assert_eq!(request.authorization, "Bearer t0");

    let request = client
        .request(&key, Method::Post, "https://example.test/b", 3500, |refresh_token| {
            assert_eq!(refresh_token, "r0");
            ExchangeOutcome::Granted(token("t1", Some("r1"), Some(3600)))
        })
        .unwrap();
    assert_eq!(request.authorization, "Bearer t1");

    let elsewhere = Client::session_key(OTHER_TENANT, CLIENT, strings(&["a"])).unwrap();
    match client.request(&elsewhere, Method::Get, "u", 10, |_| ExchangeOutcome::Rejected) {
        Err(e) => assert_eq!(e, ClientError::NoSession),
        Ok(_) => panic!("nobody of that tenant signed in"),
    }
    assert!(!client.is_authenticated(&elsewhere));
    match client.request(&key, Method::Get, "u", 100_000, |_| ExchangeOutcome::Rejected) {
        Err(e) => assert_eq!(e, ClientError::Auth(AuthError::RefreshRejected)),
        Ok(_) => panic!("the refresh was rejected"),
    }
    match client.find_session(&key) {
        Ok(session) => assert_eq!(session.token().access_token, "t1"),
        Err(_) => panic!("the identity signed in"),
    }
    assert_eq!(client.find_session(&elsewhere).err(), Some(ClientError::NoSession));
}

#[test]
fn two_identities_of_one_tenant_keep_their_own_tokens() {
    let mut client = Client::new();
    let management = strings(&["https://management.azure.com/.default"]);
    let logs = strings(&["https://api.loganalytics.io/.default", "offline_access"]);
    client
        .authenticate(TENANT, CLIENT, management.clone(), |flow| {
            sign_in(flow, token("for-management", None, Some(3600)), 0)
        })
        .unwrap();
    let management_key = Client::session_key(TENANT, CLIENT, management).unwrap();
    let logs_key = Client::session_key(TENANT, CLIENT, logs.clone()).unwrap();
    // the other identity of the tenant has not signed in, and is not served
    // from the holder of the first
    assert_eq!(client.find_session(&logs_key).err(), Some(ClientError::NoSession));
    match client.request(&logs_key, Method::Get, "u", 1, |_| ExchangeOutcome::Rejected) {
        Err(e) => assert_eq!(e, ClientError::NoSession),
        Ok(_) => panic!("the identity has not signed in"),
    }
    client
        .authenticate(TENANT, CLIENT, logs, |flow| {
            sign_in(flow, token("for-logs", None, Some(3600)), 0)
        })
        .unwrap();
    let reordered = Client::session_key(
        TENANT,
        CLIENT,
        strings(&["offline_access", "https://api.loganalytics.io/.default"]),
    )
    .unwrap();
    let request = client
        .request(&reordered, Method::Get, "https://example.test/q", 1, |_| {
            ExchangeOutcome::Rejected
        })
        .unwrap();
    assert_eq!(request.authorization, "Bearer for-logs");
    let request = client
        .request(&management_key, Method::Get, "https://example.test/m", 1, |_| {
            ExchangeOutcome::Rejected
        })
        .unwrap();
    assert_eq!(request.authorization, "Bearer for-management");
    match client.find_session(&management_key) {
        Ok(session) => assert_eq!(session.token().access_token, "for-management"),
        Err(_) => panic!("the identity signed in"),
    }
}

#[test]
fn the_store_keys_by_text_and_ignores_the_order_of_scopes() {
    let mut store = SessionStore::default();
    let scope = AuthScope {
        client_id: "app".to_string(),
        tenant_id: "contoso.onmicrosoft.com".to_string(),
        scopes: strings(&["offline_access", "https://management.azure.com/.default"]),
    };
    let reordered = AuthScope {
        client_id: "app".to_string(),
        tenant_id: "contoso.onmicrosoft.com".to_string(),
        scopes: strings(&["https://management.azure.com/.default", "offline_access"]),
    };
    let sign_ins = Cell::new(0);
    let seen_endpoint = Cell::new(String::new());
    let secret = store.get_secret(
        &scope,
        0,
        |flow| {
            sign_ins.set(sign_ins.get() + 1);
            seen_endpoint.set(flow.config().device_authorization_endpoint.clone());
            assert_eq!(flow.scopes().len(), 2);
            sign_in(flow, token("t0", Some("r0"), Some(3600)), 0)
        },
        |_| ExchangeOutcome::Rejected,
    );
    assert_eq!(secret, Ok("t0".to_string()));
    assert_eq!(
        seen_endpoint.take(),
        "https://login.microsoftonline.com/contoso.onmicrosoft.com/oauth2/v2.0/devicecode"
    );
    let secret = store.get_secret(
        &reordered,
        1,
        |flow| {
            sign_ins.set(sign_ins.get() + 1);
            sign_in(flow, token("t1", None, Some(3600)), 1)
        },
        |_| ExchangeOutcome::Rejected,
    );
    assert_eq!(secret, Ok("t0".to_string()));
    assert_eq!(sign_ins.get(), 1);
    let failed = store.get_secret(
        &scope,
        100_000,
        |flow| sign_in(flow, token("t2", None, Some(3600)), 1),
        |_| ExchangeOutcome::Rejected,
    );
    assert_eq!(failed, Err(TokenError::Auth(AuthError::RefreshRejected)));
    assert_eq!(
        store.get_secret(&scope, 100_000, |_| Err(AuthError::NetworkFailure), |_| {
            ExchangeOutcome::Unreachable
        }),
        Err(TokenError::Auth(AuthError::NetworkFailure))
    );
}

#[test]
fn the_store_hands_the_error_of_a_failed_sign_in_on() {
    let scope = AuthScope {
        client_id: "app".to_string(),
        tenant_id: "contoso.onmicrosoft.com".to_string(),
        scopes: strings(&["a"]),
    };
    for e in [AuthError::DeviceFlowDenied, AuthError::DeviceFlowExpired, AuthError::NetworkFailure] {
        let mut store = SessionStore::default();
        let exchanges = Cell::new(0);
        let r = store.get_secret(
            &scope,
            5,
            |_| Err(e),
            |_| {
                exchanges.set(exchanges.get() + 1);
                ExchangeOutcome::Rejected
            },
        );
        assert_eq!(r, Err(TokenError::Auth(e)));
        assert_eq!(exchanges.get(), 0);
        assert!(store.session(&scope).is_none());
    }
}

#[test]
fn the_store_hands_the_error_of_a_failed_refresh_on_and_keeps_the_holder() {
    let scope = AuthScope {
        client_id: "app".to_string(),
        tenant_id: "contoso.onmicrosoft.com".to_string(),
        scopes: strings(&["a"]),
    };
    for (refresh, outcome, expected) in [
        (None, ExchangeOutcome::Rejected, AuthError::NoRefreshToken),
        (Some("r0"), ExchangeOutcome::Rejected, AuthError::RefreshRejected),
        (Some("r0"), ExchangeOutcome::Unreachable, AuthError::NetworkFailure),
    ] {
        let mut store = SessionStore::default();
        let first = store.get_secret(
            &scope,
            0,
            |flow| sign_in(flow, token("t0", refresh, Some(3600)), 0),
            |_| ExchangeOutcome::Rejected,
        );
        assert_eq!(first, Ok("t0".to_string()));
        let sign_ins = Cell::new(0);
        for now in [3301u64, 3302, 90_000] {
            let r = store.get_secret(
                &scope,
                now,
                |flow| {
                    sign_ins.set(sign_ins.get() + 1);
                    sign_in(flow, token("again", None, Some(3600)), now)
                },
                |_| match outcome {
                    ExchangeOutcome::Rejected => ExchangeOutcome::Rejected,
                    _ => ExchangeOutcome::Unreachable,
                },
            );
            assert_eq!(r, Err(TokenError::Auth(expected)));
            let held = store.session(&scope).expect("the holder stays");
            assert_eq!(held.token().access_token, "t0");
            assert_eq!(held.created(), 0);
        }
        assert_eq!(sign_ins.get(), 0);
    }
}

#[test]
fn scopes_are_equal_whatever_the_order_of_their_scopes() {
    let a = AuthScope {
        client_id: "app".to_string(),
        tenant_id: "t".to_string(),
        scopes: strings(&["x", "y"]),
    };
    let b = AuthScope {
        client_id: "app".to_string(),
        tenant_id: "t".to_string(),
        scopes: strings(&["y", "x", "y"]),
    };
    let c = AuthScope { client_id: "app".to_string(), tenant_id: "t".to_string(), scopes: strings(&["x"]) };
    let d = AuthScope {
        client_id: "other".to_string(),
        tenant_id: "t".to_string(),
        scopes: strings(&["x", "y"]),
    };
    assert!(a == b);
    assert!(b == a);
    assert!(a != c);
    assert!(a != d);
    assert!(a == a.clone());
}

#[test]
fn the_steps_to_a_token() {
    let mut store = SessionStore::default();
    let scope = AuthScope {
        client_id: "app".to_string(),
        tenant_id: "contoso".to_string(),
        scopes: strings(&["a"]),
    };
    let flow = match store.next_step(&scope, 0) {
        TokenStep::SignIn(flow) => flow,
        _ => panic!("nobody signed in yet"),
    };
    assert_eq!(flow.config().client_identity, "app");
    assert_eq!(flow.scopes(), &strings(&["a"]));
    assert!(store.session(&scope).is_none());
    let session = sign_in(flow, token("t0", Some("r0"), Some(3600)), 0).unwrap();
    assert!(store.take_in(scope.clone(), session));
    assert_eq!(store.session(&scope).unwrap().access_token(), "t0");
    match store.next_step(&scope, 3300) {
        TokenStep::Ready(secret) => assert_eq!(secret, "t0"),
        _ => panic!("the token is fresh"),
    }
    match store.next_step(&scope, 3301) {
        TokenStep::Exchange { refresh_token } => assert_eq!(refresh_token, "r0"),
        _ => panic!("the token is due"),
    }
    assert_eq!(
        store.complete_refresh(&scope, ExchangeOutcome::Granted(token("t1", None, Some(10))), 3301),
        Some(Ok(()))
    );
    assert_eq!(store.session(&scope).unwrap().access_token(), "t1");
    assert_eq!(store.session(&scope).unwrap().created(), 3301);
    match store.next_step(&scope, 3301) {
        TokenStep::Failed(e) => assert_eq!(e, TokenError::Auth(AuthError::NoRefreshToken)),
        _ => panic!("the short token cannot be refreshed"),
    }
    let other = AuthScope {
        client_id: "app".to_string(),
        tenant_id: "contoso".to_string(),
        scopes: strings(&["b"]),
    };
    assert_eq!(store.complete_refresh(&other, ExchangeOutcome::Rejected, 0), None);
    let again = sign_in(
        DeviceFlow::begin("contoso", "app", &strings(&["a"])).unwrap(),
        token("t9", None, None),
        9,
    )
    .unwrap();
    assert!(!store.take_in(scope.clone(), again));
    assert_eq!(store.session(&scope).unwrap().access_token(), "t1");
}

#[test]
fn the_steps_of_the_client() {
    let mut client = Client::new();
    let key = Client::session_key(TENANT, CLIENT, strings(&["a"])).unwrap();
    let flow = match client.next_step(&key, 0) {
        TokenStep::SignIn(flow) => flow,
        _ => panic!("nobody signed in yet"),
    };
    assert_eq!(flow.config().client_identity, CLIENT);
    let session = sign_in(flow, token("t0", Some("r0"), Some(600)), 100).unwrap();
    assert!(client.take_in(key.clone(), session));
    assert!(matches!(client.next_step(&key, 400), TokenStep::Ready(_)));
    assert!(matches!(client.next_step(&key, 401), TokenStep::Exchange { .. }));
    assert_eq!(client.complete_refresh(&key, ExchangeOutcome::Unreachable, 401), Some(Err(AuthError::NetworkFailure)));
    assert_eq!(client.session(&key).unwrap().access_token(), "t0");
    assert_eq!(client.session(&key).unwrap().created(), 100);
}

#[test]
fn nobody_is_signed_in_without_need() {
    let mut client = Client::new();
    for (tenant, client_id) in [("nope", CLIENT), (TENANT, "nope"), ("", "")] {
        let r = client.authenticate(tenant, client_id, strings(&["a"]), |_| -> Result<Session, AuthError> {
            panic!("a malformed identifier signs nobody in")
        });
        assert!(matches!(r, Err(ClientError::Config(_))));
    }
    client
        .authenticate(TENANT, CLIENT, strings(&["s1", "s2"]), |flow| {
            sign_in(flow, token("t0", None, Some(3600)), 0)
        })
        .unwrap();
    for scopes in [strings(&["s1", "s2"]), strings(&["s2", "s1"]), strings(&["s2", "s1", "s2"])] {
        let r = client.authenticate(TENANT, CLIENT, scopes, |_| -> Result<Session, AuthError> {
            panic!("the identity has signed in")
        });
        assert_eq!(r, Ok(()));
    }
    let key = Client::session_key(TENANT, CLIENT, strings(&["s2", "s1"])).unwrap();
    assert_eq!(client.find_session(&key).map(|s| s.token().access_token.clone()), Ok("t0".to_string()));

    let mut store = SessionStore::default();
    let scope = AuthScope {
        client_id: "app".to_string(),
        tenant_id: "t".to_string(),
        scopes: strings(&["s1", "s2"]),
    };
    let reordered = AuthScope {
        client_id: "app".to_string(),
        tenant_id: "t".to_string(),
        scopes: strings(&["s2", "s1"]),
    };
    let first = store.get_secret(
        &scope,
        0,
        |flow| sign_in(flow, token("t0", None, Some(3600)), 0),
        |_| panic!("a fresh token is not exchanged"),
    );
    assert_eq!(first, Ok("t0".to_string()));
    for held in [&scope, &reordered] {
        let again = store.get_secret(
            held,
            10,
            |_| -> Result<Session, AuthError> { panic!("the scope has a holder") },
            |_| panic!("a fresh token is not exchanged"),
        );
        assert_eq!(again, Ok("t0".to_string()));
        let due = store.get_secret(
            held,
            3301,
            |_| -> Result<Session, AuthError> { panic!("the scope has a holder") },
            |_| panic!("there is no refresh token to exchange"),
        );
        assert_eq!(due, Err(TokenError::Auth(AuthError::NoRefreshToken)));
    }
}

#[test]
fn a_key_knows_its_tenant() {
    let key = Client::session_key(TENANT, CLIENT, strings(&["a"])).unwrap();
    assert!(key.is_of_tenant(TENANT));
    assert!(key.is_of_tenant(&TENANT.to_uppercase()));
    assert!(key.is_of_tenant("df8dec64bc2340f8bb9902c915fd2e21"));
    assert!(!key.is_of_tenant(OTHER_TENANT));
    assert!(!key.is_of_tenant(CLIENT));
    assert!(!key.is_of_tenant("contoso"));
    assert!(!key.is_of_tenant(""));
}
