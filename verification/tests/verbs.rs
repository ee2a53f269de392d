use panopticon_m365::apis::log_analytics::LogAnalyticsWorkspace;
use panopticon_m365::apis::resource_manager::ResourceManager;
use panopticon_m365::apis::sentinel::SentinelWorkspace;
use panopticon_m365::apis::{
    build_request, delete_resource, get_resource, list_begin, list_resources, post_resource,
    put_resource, read_bare_reply, read_reply, ApiError, ApiScope, BareReply, Listing, Reply,
    Request,
};
use panopticon_m365::client::{Client, ClientError};
use panopticon_m365::error::RequestError;
use panopticon_m365::http::{status_is_success, Method};
use panopticon_m365::types::azure::common::ListResponse;
use std::cell::{Cell, RefCell};

#[derive(Debug, Clone, PartialEq)]
struct RawItem {
    id: u32,
}

#[derive(Debug, Clone, PartialEq)]
struct Item {
    label: String,
}

impl From<RawItem> for Item {
    fn from(raw: RawItem) -> Item {
        Item { label: format!("item-{}", raw.id) }
    }
}

fn page(ids: &[u32], next: Option<&str>) -> Reply<ListResponse<RawItem>> {
    let value = ids.iter().map(|id| RawItem { id: *id }).collect();
    let page = ListResponse { value, next_link: next.map(|n| n.to_string()) };
    Reply::Answered { status: 200, body: "{...}".to_string(), decoded: Some(page) }
}

fn labels(items: &[Item]) -> Vec<String> {
    items.iter().map(|i| i.label.clone()).collect()
}

#[test]
fn success_is_200_to_299() {
    for status in [0u16, 100, 199, 300, 301, 404, 500, 599, u16::MAX] {
        assert!(!status_is_success(status), "{status}");
    }
    for status in [200u16, 201, 204, 250, 299] {
        assert!(status_is_success(status), "{status}");
    }
}

#[test]
fn the_resource_manager_builds_its_urls() {
    let scope = ResourceManager::new("tenant-1");
    assert_eq!(scope.tenant_id(), "tenant-1");
    assert_eq!(
        scope.url("subscriptions?api-version=2022-12-01"),
        "https://management.azure.com/subscriptions?api-version=2022-12-01"
    );
    assert_eq!(scope.url("///a/b"), "https://management.azure.com/a/b");
    assert_eq!(scope.url(""), "https://management.azure.com/");
}

#[test]
fn the_sentinel_workspace_builds_its_urls() {
    let scope = SentinelWorkspace::new("tenant-1", "sub", "rg", "ws");
    assert_eq!(scope.tenant_id(), "tenant-1");
    assert_eq!(
        scope.base_path(),
        "subscriptions/sub/resourceGroups/rg/providers/Microsoft.OperationalInsights/workspaces/ws/providers/Microsoft.SecurityInsights"
    );
    assert_eq!(
        scope.url("incidents"),
        "https://management.azure.com/subscriptions/sub/resourceGroups/rg/providers/Microsoft.OperationalInsights/workspaces/ws/providers/Microsoft.SecurityInsights/incidents?api-version=2025-09-01"
    );
    assert_eq!(scope.url("/incidents/7"), scope.url("incidents/7"));
}

#[test]
fn the_log_analytics_workspace_builds_its_urls() {
    let scope = LogAnalyticsWorkspace::new("tenant-1", "w-1");
    assert_eq!(scope.tenant_id(), "tenant-1");
    assert_eq!(scope.url("query"), "https://api.loganalytics.io/v1/workspaces/w-1/query");
    assert_eq!(scope.url("//metadata"), "https://api.loganalytics.io/v1/workspaces/w-1/metadata");
}

#[test]
fn the_client_hands_out_its_surfaces() {
    let client = Client::new();
    assert_eq!(client.resource_manager("t").url("x"), ResourceManager::new("t").url("x"));
    assert_eq!(
        client.sentinel("t", "s", "g", "w").url("x"),
        SentinelWorkspace::new("t", "s", "g", "w").url("x")
    );
    assert_eq!(client.log_analytics("t", "w").url("x"), LogAnalyticsWorkspace::new("t", "w").url("x"));
}

#[test]
fn a_request_names_the_tenant_the_method_and_the_url() {
    let scope = ResourceManager::new("tenant-1");
    let request = build_request(&scope, Method::Put, "/x?y=1");
    assert_eq!(request.tenant_id, "tenant-1");
    assert_eq!(request.method, Method::Put);
    assert_eq!(request.url, "https://management.azure.com/x?y=1");
}

#[test]
fn list_over_three_pages() {
    let scope = ResourceManager::new("tenant-1");
    let replies = vec![
        page(&[1, 2], Some("https://next.example/page2?skiptoken=abc")),
        page(&[3, 4], Some("https://next.example/page3?skiptoken=def")),
        page(&[5], None),
    ];
    let run = list_resources::<_, RawItem, Item>(&scope, "things?api-version=1", "Things", replies);
    let items = run.result.expect("all pages came in");
    assert_eq!(labels(&items), vec!["item-1", "item-2", "item-3", "item-4", "item-5"]);
    assert_eq!(run.requests.len(), 3);
    let urls: Vec<&str> = run.requests.iter().map(|r| r.url.as_str()).collect();
    assert_eq!(
        urls,
        vec![
            "https://management.azure.com/things?api-version=1",
            "https://next.example/page2?skiptoken=abc",
            "https://next.example/page3?skiptoken=def",
        ]
    );
    for request in &run.requests {
        assert_eq!(request.method, Method::Get);
        assert_eq!(request.tenant_id, "tenant-1");
    }
}

#[test]
fn a_list_of_one_page_asks_once_and_leaves_further_replies() {
    let scope = ResourceManager::new("t");
    let run = list_resources::<_, RawItem, Item>(
        &scope,
        "things",
        "Things",
        vec![page(&[9], None), page(&[10], None)],
    );
    assert_eq!(labels(&run.result.unwrap()), vec!["item-9"]);
    assert_eq!(run.requests.len(), 1);
    let empty = list_resources::<_, RawItem, Item>(&scope, "things", "Things", vec![page(&[], None)]);
    assert_eq!(empty.result.unwrap(), Vec::<Item>::new());
    assert_eq!(empty.requests.len(), 1);
}

#[test]
fn a_list_ends_with_the_first_error() {
    let scope = ResourceManager::new("t");
    let replies = vec![
        page(&[1], Some("https://next.example/2")),
        Reply::Answered { status: 429, body: "slow down".to_string(), decoded: None },
        page(&[3], None),
    ];
    let run = list_resources::<_, RawItem, Item>(&scope, "things", "Things", replies);
    assert_eq!(
        run.result,
        Err(ApiError::Request(RequestError::UnsuccessfulStatus {
            code: 429,
            body: "slow down".to_string()
        }))
    );
    assert_eq!(run.requests.len(), 2);
    assert_eq!(run.requests[1].url, "https://next.example/2");
}

#[test]
fn a_list_whose_replies_run_out_got_no_response() {
    let scope = ResourceManager::new("t");
    let run = list_resources::<_, RawItem, Item>(
        &scope,
        "things",
        "Things",
        vec![page(&[1], Some("https://next.example/2"))],
    );
    assert_eq!(run.result, Err(ApiError::Request(RequestError::TransportFailure)));
    assert_eq!(run.requests.len(), 2);
    let none = list_resources::<_, RawItem, Item>(&scope, "things", "Things", vec![]);
    assert_eq!(none.result, Err(ApiError::Request(RequestError::TransportFailure)));
    assert_eq!(none.requests.len(), 1);
    assert_eq!(none.requests[0].url, "https://management.azure.com/things");
}

#[test]
fn a_list_page_by_page() {
    let scope = SentinelWorkspace::new("t", "s", "g", "w");
    let pending = list_begin::<_, Item>(&scope, "incidents", "Incidents");
    assert_eq!(pending.request().url, scope.url("incidents"));
    assert_eq!(pending.request().method, Method::Get);
    let pending = match pending.on_reply(page(&[1, 2], Some("https://next.example/2"))).unwrap() {
        Listing::More(next) => next,
        Listing::Done(_) => panic!("the page named a next page"),
    };
    assert_eq!(pending.request().url, "https://next.example/2");
    assert_eq!(pending.request().tenant_id, "t");
    match pending.on_reply(page(&[3], None)).unwrap() {
        Listing::Done(items) => assert_eq!(labels(&items), vec!["item-1", "item-2", "item-3"]),
        Listing::More(_) => panic!("the page named no next page"),
    }
    let pending = list_begin::<_, Item>(&scope, "incidents", "Incidents");
    let undecodable: Reply<ListResponse<RawItem>> =
        Reply::Answered { status: 200, body: "[]".to_string(), decoded: None };
    match pending.on_reply(undecodable) {
        Err(e) => assert_eq!(
            e,
            ApiError::Request(RequestError::DecodeFailure { expected_shape: "Incidents".to_string() })
        ),
        Ok(_) => panic!("the body was no page"),
    }
}

#[test]
fn get_with_404_is_an_unsuccessful_status() {
    let scope = ResourceManager::new("t");
    let seen = RefCell::new(Vec::<Request>::new());
    let r: Result<Item, ApiError> = get_resource(&scope, "things/1", "Thing", |request| {
        seen.borrow_mut().push(request);
        Reply::<RawItem>::Answered {
            status: 404,
            body: "{\"error\":\"not found\"}".to_string(),
            decoded: None,
        }
    });
    assert_eq!(
        r,
        Err(ApiError::Request(RequestError::UnsuccessfulStatus {
            code: 404,
            body: "{\"error\":\"not found\"}".to_string()
        }))
    );
    let seen = seen.into_inner();
    assert_eq!(seen.len(), 1);
    assert_eq!(seen[0].method, Method::Get);
    assert_eq!(seen[0].url, "https://management.azure.com/things/1");
    // also where the body of the failure happens to have the expected shape
    let r: Result<Item, ApiError> = get_resource(&scope, "things/1", "Thing", |_| {
        Reply::Answered { status: 404, body: "x".to_string(), decoded: Some(RawItem { id: 1 }) }
    });
    assert_eq!(
        r,
        Err(ApiError::Request(RequestError::UnsuccessfulStatus { code: 404, body: "x".to_string() }))
    );
}

#[test]
fn get_with_a_body_of_another_shape_is_a_decode_failure() {
    let scope = ResourceManager::new("t");
    let r: Result<Item, ApiError> = get_resource(&scope, "things/1", "Thing", |_| {
        Reply::<RawItem>::Answered { status: 200, body: "[1,2,3]".to_string(), decoded: None }
    });
    assert_eq!(
        r,
        Err(ApiError::Request(RequestError::DecodeFailure { expected_shape: "Thing".to_string() }))
    );
    assert!(!matches!(r, Err(ApiError::Request(RequestError::UnsuccessfulStatus { .. }))));
}

#[test]
fn get_converts_what_came() {
    let scope = ResourceManager::new("t");
    let r: Result<Item, ApiError> = get_resource(&scope, "things/7", "Thing", |_| {
        Reply::Answered { status: 200, body: "{}".to_string(), decoded: Some(RawItem { id: 7 }) }
    });
    assert_eq!(r, Ok(Item { label: "item-7".to_string() }));
}

#[test]
fn a_request_that_was_not_sent_or_got_no_response() {
    let scope = ResourceManager::new("t");
    let r: Result<Item, ApiError> = get_resource(&scope, "x", "Thing", |_| {
        Reply::<RawItem>::NotSent(ClientError::NoSession)
    });
    assert_eq!(r, Err(ApiError::Client(ClientError::NoSession)));
    let r: Result<Item, ApiError> =
        get_resource(&scope, "x", "Thing", |_| Reply::<RawItem>::Failed);
    assert_eq!(r, Err(ApiError::Request(RequestError::TransportFailure)));
}

#[test]
fn put_and_post_hand_the_body_on() {
    let scope = SentinelWorkspace::new("t", "s", "g", "w");
    let body = "the body".to_string();
    let seen = Cell::new(None);
    let r: Result<Item, ApiError> =
        put_resource(&scope, "incidents/1", &body, "Thing", |request: Request, b: &String| {
            seen.set(Some((request.method, request.url, b.clone())));
            Reply::Answered { status: 201, body: "{}".to_string(), decoded: Some(RawItem { id: 1 }) }
        });
    assert_eq!(r, Ok(Item { label: "item-1".to_string() }));
    assert_eq!(seen.take(), Some((Method::Put, scope.url("incidents/1"), "the body".to_string())));
    let r: Result<Item, ApiError> =
        post_resource(&scope, "incidents/1/x", &body, "Thing", |request: Request, b: &String| {
            seen.set(Some((request.method, request.url, b.clone())));
            Reply::<RawItem>::Answered { status: 500, body: "boom".to_string(), decoded: None }
        });
    assert_eq!(
        r,
        Err(ApiError::Request(RequestError::UnsuccessfulStatus {
            code: 500,
            body: "boom".to_string()
        }))
    );
    assert_eq!(
        seen.take(),
        Some((Method::Post, scope.url("incidents/1/x"), "the body".to_string()))
    );
}

#[test]
fn delete_reads_the_status_only() {
    let scope = SentinelWorkspace::new("t", "s", "g", "w");
    let seen = Cell::new(None);
    let r = delete_resource(&scope, "incidents/1", |request| {
        seen.set(Some((request.method, request.url)));
        BareReply::Answered { status: 204, body: String::new() }
    });
    assert_eq!(r, Ok(()));
    assert_eq!(seen.take(), Some((Method::Delete, scope.url("incidents/1"))));
    let r = delete_resource(&scope, "incidents/1", |_| BareReply::Answered {
        status: 200,
        body: "not json at all <<<".to_string(),
    });
    assert_eq!(r, Ok(()));
    let r = delete_resource(&scope, "incidents/1", |_| BareReply::Answered {
        status: 409,
        body: "conflict".to_string(),
    });
    assert_eq!(
        r,
        Err(ApiError::Request(RequestError::UnsuccessfulStatus {
            code: 409,
            body: "conflict".to_string()
        }))
    );
    assert_eq!(
        delete_resource(&scope, "x", |_| BareReply::Failed),
        Err(ApiError::Request(RequestError::TransportFailure))
    );
    assert_eq!(
        delete_resource(&scope, "x", |_| BareReply::NotSent(ClientError::NoSession)),
        Err(ApiError::Client(ClientError::NoSession))
    );
}

#[test]
fn replies_are_read_one_way() {
    let ok: Reply<u8> = Reply::Answered { status: 299, body: "7".to_string(), decoded: Some(7) };
    assert_eq!(read_reply(ok, "Number"), Ok(7));
    let redirect: Reply<u8> = Reply::Answered { status: 302, body: "".to_string(), decoded: Some(7) };
    assert_eq!(
        read_reply(redirect, "Number"),
        Err(ApiError::Request(RequestError::UnsuccessfulStatus { code: 302, body: String::new() }))
    );
    assert_eq!(
        read_bare_reply(BareReply::Answered { status: 199, body: "b".to_string() }),
        Err(ApiError::Request(RequestError::UnsuccessfulStatus { code: 199, body: "b".to_string() }))
    );
}
