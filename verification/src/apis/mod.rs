//! The API surfaces and the verbs that all of them share.
//!
//! A surface turns a path relative to it into a full URL. The verbs are
//! written once against that: each says which request goes out and what the
//! reply to it comes to. Sending is left to the caller, who draws the token
//! from the client and hands the reply back.

pub mod auth;
pub mod log_analytics;
pub mod resource_manager;
pub mod sentinel;

use crate::client::ClientError;
use crate::error::{RequestError, RequestErrorView};
use crate::http::{is_success, status_is_success, Method};
use crate::types::azure::common::ListResponse;
use vstd::prelude::*;
use vstd::string::*;

verus! {

/// An API surface: the rule by which it builds its URLs, for one tenant.
pub trait ApiScope {
    /// The tenant whose token the requests carry.
    spec fn tenant(&self) -> Seq<char>;

    /// The full URL for a path relative to the surface.
    spec fn url_of(&self, suffix: Seq<char>) -> Seq<char>;

    fn tenant_id(&self) -> (tenant: &str)
        ensures
            tenant@ == self.tenant(),
    ;

    /// The full URL for a path relative to the surface: the surface's base
    /// URL and path prefix, the path, and the version parameter where the
    /// surface has a fixed one.
    fn url(&self, suffix: &str) -> (url: String)
        ensures
            url@ == self.url_of(suffix@),
    ;
}

/// A request that a verb issues. The caller adds the bearer token of the
/// tenant and, for `Put` and `Post`, the body.
#[derive(Debug)]
pub struct Request {
    pub tenant_id: String,
    pub method: Method,
    pub url: String,
}

/// A [`Request`] as a plain value.
pub struct RequestView {
    pub tenant_id: Seq<char>,
    pub method: Method,
    pub url: Seq<char>,
}

impl View for Request {
    type V = RequestView;

    open spec fn view(&self) -> RequestView {
        RequestView { tenant_id: self.tenant_id@, method: self.method, url: self.url@ }
    }
}

/// What came back for a request.
pub enum Reply<T> {
    /// The request was not sent: no token could be had for it.
    NotSent(ClientError),
    /// The request was sent and no response arrived.
    Failed,
    /// A response arrived. `decoded` holds the body read as the expected
    /// shape, where it has that shape.
    Answered { status: u16, body: String, decoded: Option<T> },
}

/// What came back for a request whose response body is not read as a shape.
pub enum BareReply {
    /// The request was not sent: no token could be had for it.
    NotSent(ClientError),
    /// The request was sent and no response arrived.
    Failed,
    /// A response arrived.
    Answered { status: u16, body: String },
}

/// Why a verb gave no result.
#[derive(Debug, Clone, PartialEq, Eq)]
pub enum ApiError {
    /// No token could be had for the request.
    Client(ClientError),
    /// The request failed.
    Request(RequestError),
}

/// An [`ApiError`] as a plain value.
pub enum ApiErrorView {
    Client(ClientError),
    Request(RequestErrorView),
}

impl View for ApiError {
    type V = ApiErrorView;

    open spec fn view(&self) -> ApiErrorView {
        match *self {
            ApiError::Client(e) => ApiErrorView::Client(e),
            ApiError::Request(e) => ApiErrorView::Request(e@),
        }
    }
}

/// What a reply comes to: the decoded body of a response that reports
/// success, else the error. A status that reports no success is told with the
/// body as it came, whatever the body holds; a body that is not of the
/// expected shape is told apart from it.
pub open spec fn reply_result<T>(reply: Reply<T>, expected_shape: Seq<char>) -> Result<
    T,
    ApiErrorView,
> {
    match reply {
        Reply::NotSent(e) => Err(ApiErrorView::Client(e)),
        Reply::Failed => Err(ApiErrorView::Request(RequestErrorView::TransportFailure)),
        Reply::Answered { status, body, decoded } => if !is_success(status) {
            Err(ApiErrorView::Request(RequestErrorView::UnsuccessfulStatus { code: status, body: body@ }))
        } else {
            match decoded {
                Some(value) => Ok(value),
                None => Err(ApiErrorView::Request(RequestErrorView::DecodeFailure { expected_shape })),
            }
        },
    }
}

/// What a reply comes to where the body of a success is not looked at.
pub open spec fn bare_reply_result(reply: BareReply) -> Result<(), ApiErrorView> {
    match reply {
        BareReply::NotSent(e) => Err(ApiErrorView::Client(e)),
        BareReply::Failed => Err(ApiErrorView::Request(RequestErrorView::TransportFailure)),
        BareReply::Answered { status, body } => if !is_success(status) {
            Err(ApiErrorView::Request(RequestErrorView::UnsuccessfulStatus { code: status, body: body@ }))
        } else {
            Ok(())
        },
    }
}

/// The view of a result whose error is an [`ApiError`].
pub open spec fn told<T>(r: Result<T, ApiError>) -> Result<T, ApiErrorView> {
    match r {
        Ok(value) => Ok(value),
        Err(e) => Err(e@),
    }
}

/// Reads a reply as [`reply_result`] says.
pub fn read_reply<T>(reply: Reply<T>, expected_shape: &str) -> (r: Result<T, ApiError>)
    ensures
        told(r) == reply_result(reply, expected_shape@),
{
    match reply {
        Reply::NotSent(e) => Err(ApiError::Client(e)),
        Reply::Failed => Err(ApiError::Request(RequestError::TransportFailure)),
        Reply::Answered { status, body, decoded } => {
            if !status_is_success(status) {
                Err(ApiError::Request(RequestError::UnsuccessfulStatus { code: status, body }))
            } else {
                match decoded {
                    Some(value) => Ok(value),
                    None => Err(
                        ApiError::Request(
                            RequestError::DecodeFailure {
                                expected_shape: String::from_str(expected_shape),
                            },
                        ),
                    ),
                }
            }
        },
    }
}

/// Reads a reply as [`bare_reply_result`] says.
pub fn read_bare_reply(reply: BareReply) -> (r: Result<(), ApiError>)
    ensures
        told(r) == bare_reply_result(reply),
{
    match reply {
        BareReply::NotSent(e) => Err(ApiError::Client(e)),
        BareReply::Failed => Err(ApiError::Request(RequestError::TransportFailure)),
        BareReply::Answered { status, body } => {
            if !status_is_success(status) {
                Err(ApiError::Request(RequestError::UnsuccessfulStatus { code: status, body }))
            } else {
                Ok(())
            }
        },
    }
}

/// The request of a verb on a surface.
pub open spec fn request_of<S: ApiScope>(scope: S, method: Method, suffix: Seq<char>) -> RequestView {
    RequestView { tenant_id: scope.tenant(), method, url: scope.url_of(suffix) }
}

/// The request of a verb for a path relative to a surface.
pub fn build_request<S: ApiScope>(scope: &S, method: Method, suffix: &str) -> (request: Request)
    ensures
        request@ == request_of(*scope, method, suffix@),
{
    Request { tenant_id: String::from_str(scope.tenant_id()), method, url: scope.url(suffix) }
}

/// `after` is `before` with the items of a page behind it, each converted,
/// in their order.
pub open spec fn grown_by<Raw, Domain: From<Raw>>(
    before: Seq<Domain>,
    raws: Seq<Raw>,
    after: Seq<Domain>,
) -> bool {
    &&& after.len() == before.len() + raws.len()
    &&& after.take(before.len() as int) == before
    &&& forall|i: int|
        0 <= i < raws.len() ==> call_ensures(
            Domain::from,
            (#[trigger] raws[i],),
            after[before.len() + i],
        )
}

/// Converts the items of a page, in their order, and adds them to `items`.
pub fn convert_page<Raw, Domain: From<Raw>>(raws: Vec<Raw>, items: &mut Vec<Domain>)
    ensures
        grown_by(old(items)@, raws@, final(items)@),
{
    broadcast use vstd::std_specs::vec::axiom_spec_into_iter;

    let ghost start = items@;
    let ghost all = raws@;
    assert(items@.take(start.len() as int) =~= start);
    for raw in it: raws.into_iter()
        invariant
            it.seq() == all,
            grown_by(start, all.take(it.index()), items@),
    {
        let ghost before = items@;
        let item = Domain::from(raw);
        items.push(item);
        proof {
            assert(items@.take(start.len() as int) =~= before.take(start.len() as int));
        }
    }
    assert(all.take(all.len() as int) =~= all);
}

/// Growing twice is growing once by both pages.
pub proof fn lemma_grown_twice<Raw, Domain: From<Raw>>(
    start: Seq<Domain>,
    first: Seq<Raw>,
    middle: Seq<Domain>,
    second: Seq<Raw>,
    end: Seq<Domain>,
)
    requires
        grown_by(start, first, middle),
        grown_by(middle, second, end),
    ensures
        grown_by(start, first + second, end),
{
    assert(end.take(start.len() as int) =~= middle.take(start.len() as int));
}

/// A list that waits for its next page: the items gathered so far and the
/// request that brings the page.
pub struct PendingPage<Domain> {
    items: Vec<Domain>,
    request: Request,
    expected_shape: String,
}

/// A list after a page came in.
pub enum Listing<Domain> {
    /// The page named a next page.
    More(PendingPage<Domain>),
    /// The page was the last: these are all the items, in the order of the
    /// pages.
    Done(Vec<Domain>),
}

impl<Domain> PendingPage<Domain> {
    /// The items gathered so far.
    pub closed spec fn gathered(&self) -> Seq<Domain> {
        self.items@
    }

    /// The request that brings the next page.
    pub closed spec fn awaited(&self) -> RequestView {
        self.request@
    }

    /// The name of the shape that a page has.
    pub closed spec fn shape(&self) -> Seq<char> {
        self.expected_shape@
    }

    /// The request to send next.
    pub fn request(&self) -> (request: &Request)
        ensures
            request@ == self.awaited(),
    {
        &self.request
    }

    /// Takes the reply to the awaited request. A page adds its items, each
    /// converted, after those gathered before. Where the page carries a link
    /// to the next page, that link is requested as it stands; where it carries
    /// none, the list is done. An error ends the list.
    pub fn on_reply<Raw>(self, reply: Reply<ListResponse<Raw>>) -> (r: Result<
        Listing<Domain>,
        ApiError,
    >) where Domain: From<Raw>
        ensures
            match reply_result(reply, self.shape()) {
                Err(e) => r matches Err(x) && x@ == e,
                Ok(page) => r matches Ok(listing) && match page.next_link {
                    Some(link) => {
                        &&& listing matches Listing::More(next)
                        &&& next.awaited() == (RequestView {
                            tenant_id: self.awaited().tenant_id,
                            method: Method::Get,
                            url: link@,
                        })
                        &&& next.shape() == self.shape()
                        &&& grown_by(self.gathered(), page.value@, next.gathered())
                    },
                    None => {
                        &&& listing matches Listing::Done(all)
                        &&& grown_by(self.gathered(), page.value@, all@)
                    },
                },
            },
    {
        let page = match read_reply(reply, self.expected_shape.as_str()) {
            Ok(page) => page,
            Err(e) => {
                return Err(e);
            },
        };
        let mut items = self.items;
        convert_page(page.value, &mut items);
        match page.next_link {
            Some(link) => Ok(
                Listing::More(
                    PendingPage {
                        items,
                        request: Request {
                            tenant_id: self.request.tenant_id,
                            method: Method::Get,
                            url: link,
                        },
                        expected_shape: self.expected_shape,
                    },
                ),
            ),
            None => Ok(Listing::Done(items)),
        }
    }
}

/// Begins a list: nothing is gathered yet, and the first page is asked for at
/// the URL that the surface builds for the path.
pub fn list_begin<S: ApiScope, Domain>(scope: &S, suffix: &str, expected_shape: &str) -> (pending:
    PendingPage<Domain>)
    ensures
        pending.gathered() == Seq::<Domain>::empty(),
        pending.awaited() == request_of(*scope, Method::Get, suffix@),
        pending.shape() == expected_shape@,
{
    PendingPage {
        items: Vec::new(),
        request: build_request(scope, Method::Get, suffix),
        expected_shape: String::from_str(expected_shape),
    }
}

/// The items, as they came, that a list gathers when the replies to its
/// requests are `replies`, in their order, and `gathered` was gathered
/// before: the items of all pages up to the first that names no next page, in
/// the order of the pages; or the error of the first reply that is no page.
/// Where the replies run out first, the request that is open then got no
/// response.
pub open spec fn list_pages<Raw>(
    gathered: Seq<Raw>,
    replies: Seq<Reply<ListResponse<Raw>>>,
    expected_shape: Seq<char>,
) -> Result<Seq<Raw>, ApiErrorView>
    decreases replies.len(),
{
    if replies.len() == 0 {
        Err(ApiErrorView::Request(RequestErrorView::TransportFailure))
    } else {
        match reply_result(replies[0], expected_shape) {
            Err(e) => Err(e),
            Ok(page) => {
                let items = gathered + page.value@;
                match page.next_link {
                    None => Ok(items),
                    Some(_) => list_pages(items, replies.drop_first(), expected_shape),
                }
            },
        }
    }
}

/// The URLs that a list asks for, in their order, when it begins at `url` and
/// the replies to its requests are `replies`: `url`, then the link of each
/// page as it stands, for as long as the pages name one.
pub open spec fn list_urls<Raw>(
    url: Seq<char>,
    replies: Seq<Reply<ListResponse<Raw>>>,
    expected_shape: Seq<char>,
) -> Seq<Seq<char>>
    decreases replies.len(),
{
    if replies.len() == 0 {
        seq![url]
    } else {
        match reply_result(replies[0], expected_shape) {
            Err(_) => seq![url],
            Ok(page) => match page.next_link {
                None => seq![url],
                Some(link) => seq![url] + list_urls(link@, replies.drop_first(), expected_shape),
            },
        }
    }
}

/// A list that was run: what it came to, and the requests that it made.
pub struct ListRun<Domain> {
    pub result: Result<Vec<Domain>, ApiError>,
    pub requests: Vec<Request>,
}

/// The URLs of requests.
pub open spec fn urls_of(requests: Seq<Request>) -> Seq<Seq<char>> {
    requests.map_values(|request: Request| request.url@)
}

/// `run` is the list for a path on a surface when the replies to its requests
/// are `replies`: the requests are `Get`s for the tenant of the surface, of the
/// URLs that [`list_urls`] names; the result is the items that
/// [`list_pages`] names, each converted, or its error.
pub open spec fn listing_of<S: ApiScope, Raw, Domain: From<Raw>>(
    scope: S,
    suffix: Seq<char>,
    expected_shape: Seq<char>,
    replies: Seq<Reply<ListResponse<Raw>>>,
    run: ListRun<Domain>,
) -> bool {
    &&& urls_of(run.requests@) == list_urls(scope.url_of(suffix), replies, expected_shape)
    &&& forall|i: int|
        0 <= i < run.requests@.len() ==> (#[trigger] run.requests@[i]).method == Method::Get
            && run.requests@[i].tenant_id@ == scope.tenant()
    &&& match list_pages(Seq::empty(), replies, expected_shape) {
        Err(e) => run.result matches Err(x) && x@ == e,
        Ok(raws) => run.result matches Ok(items) && grown_by(Seq::<Domain>::empty(), raws, items@),
    }
}

/// Gets a list with all its pages, where `replies` are the replies to the
/// requests of the list, in their order. The first request asks for the URL
/// that the surface builds for the path; each further one for the link that
/// the page before it carried, as it stands. The items of the pages are
/// converted and gathered in the order of the pages. Replies that are left
/// when the list is done are not looked at.
#[verifier::loop_isolation(false)]
pub fn list_resources<S: ApiScope, Raw, Domain: From<Raw>>(
    scope: &S,
    suffix: &str,
    expected_shape: &str,
    replies: Vec<Reply<ListResponse<Raw>>>,
) -> (run: ListRun<Domain>)
    ensures
        listing_of(*scope, suffix@, expected_shape@, replies@, run),
{
    broadcast use vstd::std_specs::vec::axiom_spec_into_iter;

    let ghost all = replies@;
    let ghost shape = expected_shape@;
    let ghost mut raws: Seq<Raw> = Seq::empty();
    let mut pending: PendingPage<Domain> = list_begin(scope, suffix, expected_shape);
    let mut requests: Vec<Request> = Vec::new();
    assert(all.skip(0) =~= all);
    assert(pending.gathered().take(0) =~= Seq::<Domain>::empty());
    for reply in it: replies.into_iter()
        invariant
            it.seq() == all,
            pending.shape() == shape,
            pending.awaited().method == Method::Get,
            pending.awaited().tenant_id == scope.tenant(),
            forall|i: int|
                0 <= i < requests@.len() ==> (#[trigger] requests@[i]).method == Method::Get
                    && requests@[i].tenant_id@ == scope.tenant(),
            list_urls(scope.url_of(suffix@), all, shape) == urls_of(requests@) + list_urls(
                pending.awaited().url,
                all.skip(it.index()),
                shape,
            ),
            grown_by(Seq::<Domain>::empty(), raws, pending.gathered()),
            list_pages(Seq::empty(), all, shape) == list_pages(raws, all.skip(it.index()), shape),
    {
        let ghost at = it.index();
        let ghost rest = all.skip(at);
        let ghost gathered = pending.gathered();
        requests.push(copy_request(pending.request()));
        proof {
            assert(rest.drop_first() =~= all.skip(at + 1));
        }
        match pending.on_reply(reply) {
            Err(e) => {
                proof {
                    assert(urls_of(requests@) == list_urls(scope.url_of(suffix@), all, shape));
                }
                return ListRun { result: Err(e), requests };
            },
            Ok(Listing::Done(items)) => {
                proof {
                    let page = reply_result(reply, shape)->Ok_0;
                    lemma_grown_twice(Seq::<Domain>::empty(), raws, gathered, page.value@, items@);
                    assert(urls_of(requests@) == list_urls(scope.url_of(suffix@), all, shape));
                }
                return ListRun { result: Ok(items), requests };
            },
            Ok(Listing::More(next)) => {
                proof {
                    let page = reply_result(reply, shape)->Ok_0;
                    lemma_grown_twice(
                        Seq::<Domain>::empty(),
                        raws,
                        gathered,
                        page.value@,
                        next.gathered(),
                    );
                    raws = raws + page.value@;
                }
                pending = next;
            },
        }
    }
    requests.push(copy_request(pending.request()));
    proof {
        assert(urls_of(requests@) == list_urls(scope.url_of(suffix@), all, shape));
    }
    ListRun { result: Err(ApiError::Request(RequestError::TransportFailure)), requests }
}

/// What a reply to a request for one resource comes to: the resource,
/// converted, or the error.
pub open spec fn resource_of<Raw, Domain: From<Raw>>(
    reply: Reply<Raw>,
    expected_shape: Seq<char>,
    r: Result<Domain, ApiError>,
) -> bool {
    match reply_result(reply, expected_shape) {
        Err(e) => r matches Err(x) && x@ == e,
        Ok(raw) => r matches Ok(resource) && call_ensures(Domain::from, (raw,), resource),
    }
}

/// Reads the reply to a request for one resource.
pub fn read_resource<Raw, Domain: From<Raw>>(reply: Reply<Raw>, expected_shape: &str) -> (r:
    Result<Domain, ApiError>)
    ensures
        resource_of(reply, expected_shape@, r),
{
    match read_reply(reply, expected_shape) {
        Ok(raw) => Ok(Domain::from(raw)),
        Err(e) => Err(e),
    }
}

/// `send` was handed the request `asked`, and `r` is what its reply comes to.
pub open spec fn fetched<Raw, Domain: From<Raw>, F: FnOnce(Request) -> Reply<Raw>>(
    asked: RequestView,
    expected_shape: Seq<char>,
    r: Result<Domain, ApiError>,
    send: F,
) -> bool {
    exists|request: Request, reply: Reply<Raw>|
        #![trigger call_ensures(send, (request,), reply)]
        request@ == asked && call_ensures(send, (request,), reply) && resource_of(
            reply,
            expected_shape,
            r,
        )
}

/// `send` was handed the request `asked` and the body, and `r` is what its
/// reply comes to.
pub open spec fn fetched_with<
    Body,
    Raw,
    Domain: From<Raw>,
    F: FnOnce(Request, &Body) -> Reply<Raw>,
>(
    asked: RequestView,
    body: &Body,
    expected_shape: Seq<char>,
    r: Result<Domain, ApiError>,
    send: F,
) -> bool {
    exists|request: Request, reply: Reply<Raw>|
        #![trigger call_ensures(send, (request, body), reply)]
        request@ == asked && call_ensures(send, (request, body), reply) && resource_of(
            reply,
            expected_shape,
            r,
        )
}

/// `send` was handed the request `asked`, and `r` is what its reply comes to,
/// as it came.
pub open spec fn answered<T, F: FnOnce(Request) -> Reply<T>>(
    asked: RequestView,
    expected_shape: Seq<char>,
    r: Result<T, ApiError>,
    send: F,
) -> bool {
    exists|request: Request, reply: Reply<T>|
        #![trigger call_ensures(send, (request,), reply)]
        request@ == asked && call_ensures(send, (request,), reply) && told(r) == reply_result(
            reply,
            expected_shape,
        )
}

/// `send` was handed the request `asked` and what goes with it, and `r` is
/// what its reply comes to, as it came.
pub open spec fn answered_with<P, T, F: FnOnce(Request, &P) -> Reply<T>>(
    asked: RequestView,
    payload: &P,
    expected_shape: Seq<char>,
    r: Result<T, ApiError>,
    send: F,
) -> bool {
    exists|request: Request, reply: Reply<T>|
        #![trigger call_ensures(send, (request, payload), reply)]
        request@ == asked && call_ensures(send, (request, payload), reply) && told(r)
            == reply_result(reply, expected_shape)
}

/// Makes one request of the given method for the URL that the surface builds
/// for the path, and hands back what came, read as the expected shape.
pub fn request_resource<S: ApiScope, T, F: FnOnce(Request) -> Reply<T>>(
    scope: &S,
    method: Method,
    suffix: &str,
    expected_shape: &str,
    send: F,
) -> (r: Result<T, ApiError>)
    requires
        forall|request: Request| call_requires(send, (request,)),
    ensures
        answered(request_of(*scope, method, suffix@), expected_shape@, r, send),
{
    let request = build_request(scope, method, suffix);
    let reply = send(request);
    read_reply(reply, expected_shape)
}

/// Makes one request of the given method for the URL that the surface builds
/// for the path, with what goes with it (a body, or the parameters of the
/// query), and hands back what came, read as the expected shape.
pub fn request_with<S: ApiScope, P, T, F: FnOnce(Request, &P) -> Reply<T>>(
    scope: &S,
    method: Method,
    suffix: &str,
    payload: &P,
    expected_shape: &str,
    send: F,
) -> (r: Result<T, ApiError>)
    requires
        forall|request: Request| call_requires(send, (request, payload)),
    ensures
        answered_with(request_of(*scope, method, suffix@), payload, expected_shape@, r, send),
{
    let request = build_request(scope, method, suffix);
    let reply = send(request, payload);
    read_reply(reply, expected_shape)
}

/// Sends what a request carries: one request of the given method for the URL
/// that the surface builds for the path, and one conversion of what came back.
pub fn send_resource<
    S: ApiScope,
    Body,
    Raw,
    Domain: From<Raw>,
    F: FnOnce(Request, &Body) -> Reply<Raw>,
>(scope: &S, method: Method, suffix: &str, body: &Body, expected_shape: &str, send: F) -> (r:
    Result<Domain, ApiError>)
    requires
        forall|request: Request| call_requires(send, (request, body)),
    ensures
        fetched_with(request_of(*scope, method, suffix@), body, expected_shape@, r, send),
{
    let request = build_request(scope, method, suffix);
    let reply = send(request, body);
    read_resource(reply, expected_shape)
}

/// Gets one resource: one `Get` of the URL that the surface builds for the
/// path, and one conversion of what came back.
pub fn get_resource<S: ApiScope, Raw, Domain: From<Raw>, F: FnOnce(Request) -> Reply<Raw>>(
    scope: &S,
    suffix: &str,
    expected_shape: &str,
    send: F,
) -> (r: Result<Domain, ApiError>)
    requires
        forall|request: Request| call_requires(send, (request,)),
    ensures
        fetched(request_of(*scope, Method::Get, suffix@), expected_shape@, r, send),
{
    let request = build_request(scope, Method::Get, suffix);
    let reply = send(request);
    read_resource(reply, expected_shape)
}

/// Puts a resource: one `Put` of the body to the URL that the surface builds
/// for the path, and one conversion of what came back.
pub fn put_resource<
    S: ApiScope,
    Body,
    Raw,
    Domain: From<Raw>,
    F: FnOnce(Request, &Body) -> Reply<Raw>,
>(scope: &S, suffix: &str, body: &Body, expected_shape: &str, send: F) -> (r: Result<
    Domain,
    ApiError,
>)
    requires
        forall|request: Request| call_requires(send, (request, body)),
    ensures
        fetched_with(request_of(*scope, Method::Put, suffix@), body, expected_shape@, r, send),
{
    send_resource(scope, Method::Put, suffix, body, expected_shape, send)
}

/// Posts a resource: one `Post` of the body to the URL that the surface
/// builds for the path, and one conversion of what came back.
pub fn post_resource<
    S: ApiScope,
    Body,
    Raw,
    Domain: From<Raw>,
    F: FnOnce(Request, &Body) -> Reply<Raw>,
>(scope: &S, suffix: &str, body: &Body, expected_shape: &str, send: F) -> (r: Result<
    Domain,
    ApiError,
>)
    requires
        forall|request: Request| call_requires(send, (request, body)),
    ensures
        fetched_with(request_of(*scope, Method::Post, suffix@), body, expected_shape@, r, send),
{
    send_resource(scope, Method::Post, suffix, body, expected_shape, send)
}

/// `send` was handed the request `asked`, and `r` says whether the response
/// reports success. The body of a success is not looked at.
pub open spec fn deleted<F: FnOnce(Request) -> BareReply>(
    asked: RequestView,
    r: Result<(), ApiError>,
    send: F,
) -> bool {
    exists|request: Request, reply: BareReply|
        #![trigger call_ensures(send, (request,), reply)]
        request@ == asked && call_ensures(send, (request,), reply) && told(r)
            == bare_reply_result(reply)
}

/// Deletes a resource: one `Delete` of the URL that the surface builds for
/// the path. Nothing is read from the body of a success.
pub fn delete_resource<S: ApiScope, F: FnOnce(Request) -> BareReply>(
    scope: &S,
    suffix: &str,
    send: F,
) -> (r: Result<(), ApiError>)
    requires
        forall|request: Request| call_requires(send, (request,)),
    ensures
        deleted(request_of(*scope, Method::Delete, suffix@), r, send),
{
    let request = build_request(scope, Method::Delete, suffix);
    let reply = send(request);
    read_bare_reply(reply)
}

/// A copy of a request.
pub fn copy_request(request: &Request) -> (copy: Request)
    ensures
        copy@ == request@,
{
    Request {
        tenant_id: request.tenant_id.clone(),
        method: request.method,
        url: request.url.clone(),
    }
}

/// A response whose status reports no success comes to `UnsuccessfulStatus`
/// with that status and the body as it came, whether or not the body has the
/// expected shape.
pub proof fn lemma_failing_status<T>(
    status: u16,
    body: String,
    decoded: Option<T>,
    expected_shape: Seq<char>,
)
    requires
        !is_success(status),
    ensures
        reply_result(Reply::Answered { status, body, decoded }, expected_shape) == Err::<
            T,
            ApiErrorView,
        >(
            ApiErrorView::Request(
                RequestErrorView::UnsuccessfulStatus { code: status, body: body@ },
            ),
        ),
{
}

/// A response whose status reports success and whose body has not the
/// expected shape comes to `DecodeFailure`, which is no `UnsuccessfulStatus`.
pub proof fn lemma_wrong_shape<T>(status: u16, body: String, expected_shape: Seq<char>)
    requires
        is_success(status),
    ensures
        reply_result(Reply::<T>::Answered { status, body, decoded: None }, expected_shape) == Err::<
            T,
            ApiErrorView,
        >(ApiErrorView::Request(RequestErrorView::DecodeFailure { expected_shape })),
{
}

/// A delete whose response reports success succeeds, whatever the body holds.
pub proof fn lemma_delete_ignores_body(status: u16, body: String)
    requires
        is_success(status),
    ensures
        bare_reply_result(BareReply::Answered { status, body }) == Ok::<(), ApiErrorView>(()),
{
}

/// A list asks for one page more than the number of pages that name a next
/// page, and never for more pages than there are replies, but for the one
/// request that got none.
pub proof fn lemma_list_requests<Raw>(
    url: Seq<char>,
    replies: Seq<Reply<ListResponse<Raw>>>,
    expected_shape: Seq<char>,
)
    ensures
        1 <= list_urls(url, replies, expected_shape).len() <= replies.len() + 1,
        list_urls(url, replies, expected_shape)[0] == url,
        list_pages(Seq::<Raw>::empty(), replies, expected_shape) is Ok ==> list_urls(
            url,
            replies,
            expected_shape,
        ).len() <= replies.len(),
    decreases replies.len(),
{
    if replies.len() > 0 {
        match reply_result(replies[0], expected_shape) {
            Err(_) => {},
            Ok(page) => {
                match page.next_link {
                    None => {},
                    Some(link) => {
                        lemma_list_requests(link@, replies.drop_first(), expected_shape);
                        lemma_pages_ok_any(
                            page.value@,
                            Seq::<Raw>::empty(),
                            replies.drop_first(),
                            expected_shape,
                        );
                    },
                }
            },
        }
    }
}

/// Whether a list succeeds does not depend on what was gathered before.
pub proof fn lemma_pages_ok_any<Raw>(
    first: Seq<Raw>,
    second: Seq<Raw>,
    replies: Seq<Reply<ListResponse<Raw>>>,
    expected_shape: Seq<char>,
)
    ensures
        (list_pages(first, replies, expected_shape) is Ok) == (list_pages(
            second,
            replies,
            expected_shape,
        ) is Ok),
    decreases replies.len(),
{
    if replies.len() > 0 {
        match reply_result(replies[0], expected_shape) {
            Err(_) => {},
            Ok(page) => {
                match page.next_link {
                    None => {},
                    Some(_) => {
                        lemma_pages_ok_any(
                            first + page.value@,
                            second + page.value@,
                            replies.drop_first(),
                            expected_shape,
                        );
                    },
                }
            },
        }
    }
}

} // verus!
