//! Authentication identities and the token holders that they key.

use crate::cache::Identity;
use crate::error::{AuthError, ConfigError};
use crate::http::{AuthorizedRequest, Method};
use crate::oauth::{DeviceFlow, OAuthConfig};
use crate::text::{
    ascending, ascending_strings, clone_strings, join2, lemma_ascending_is_canonical, subset_of,
    views,
};
use vstd::arithmetic::power::pow;
use vstd::prelude::*;
use vstd::string::*;

verus! {

/// What `uuid::Uuid::parse_str` makes of a text: the UUID's 128 bits, or
/// nothing where the text is no UUID.
pub uninterp spec fn uuid_parse(text: Seq<char>) -> Option<u128>;

/// The digit of a value below sixteen in base sixteen, in lower case.
pub open spec fn hex_char(value: int) -> char {
    if value < 10 {
        crate::text::digit_char(value)
    } else if value == 10 {
        'a'
    } else if value == 11 {
        'b'
    } else if value == 12 {
        'c'
    } else if value == 13 {
        'd'
    } else if value == 14 {
        'e'
    } else {
        'f'
    }
}

/// The 32 digits of a value of 128 bits in base sixteen, the digit of most
/// weight first.
pub open spec fn hex_digits(value: u128) -> Seq<char> {
    Seq::new(32, |place: int| hex_char((value as int / pow(16, (31 - place) as nat)) % 16))
}

/// The text that `uuid::Uuid` prints for a value of 128 bits: its digits in
/// base sixteen, lower case, in groups of 8, 4, 4, 4 and 12 with a hyphen
/// between the groups.
pub open spec fn uuid_hyphenated(value: u128) -> Seq<char> {
    let digits = hex_digits(value);
    digits.subrange(0, 8) + seq!['-'] + digits.subrange(8, 12) + seq!['-'] + digits.subrange(
        12,
        16,
    ) + seq!['-'] + digits.subrange(16, 20) + seq!['-'] + digits.subrange(20, 32)
}

/// Calls `uuid::Uuid::parse_str`, which reads a UUID in its simple,
/// hyphenated, braced or URN form, and hands back the bits of the UUID as
/// `Uuid::as_u128` gives them. The result depends on the text alone.
#[verifier::external_body]
pub(crate) fn parse_uuid(text: &str) -> (r: Option<u128>)
    ensures
        r == uuid_parse(text@),
{
    match uuid::Uuid::parse_str(text) {
        Ok(id) => Some(id.as_u128()),
        Err(_) => None,
    }
}

/// Prints the UUID of the given bits through the `Display` impl of
/// `uuid::Uuid`, which writes the sixteen bytes of `Uuid::from_u128`, the
/// byte of most weight first, as two lower-case digits each, with hyphens
/// after the digits 8, 12, 16 and 20.
#[verifier::external_body]
pub(crate) fn uuid_text(value: u128) -> (r: String)
    ensures
        r@ == uuid_hyphenated(value),
{
    uuid::Uuid::from_u128(value).to_string()
}

/// Identifies which credential is needed: a tenant, a client application and
/// the set of scopes asked for. The order in which the scopes were given
/// plays no part in it: the key holds each scope once, in the order of a
/// dictionary, so that equal keys are equal field by field and hash alike.
#[derive(Debug, Hash)]
pub struct SessionKey {
    tenant_id: u128,
    client_id: u128,
    scopes: Vec<String>,
}

/// A [`SessionKey`] as a plain value.
pub struct SessionKeyView {
    pub tenant_id: u128,
    pub client_id: u128,
    pub scopes: Set<Seq<char>>,
}

impl View for SessionKey {
    type V = SessionKeyView;

    closed spec fn view(&self) -> SessionKeyView {
        SessionKeyView {
            tenant_id: self.tenant_id,
            client_id: self.client_id,
            scopes: views(self.scopes@).to_set(),
        }
    }
}

impl Clone for SessionKey {
    fn clone(&self) -> (r: SessionKey)
        ensures
            r@ == self@,
    {
        proof {
            use_type_invariant(self);
        }
        SessionKey {
            tenant_id: self.tenant_id,
            client_id: self.client_id,
            scopes: clone_strings(&self.scopes),
        }
    }
}

impl PartialEq for SessionKey {
    fn eq(&self, other: &SessionKey) -> (r: bool) {
        self.same_as(other)
    }
}

impl Eq for SessionKey {

}

impl vstd::std_specs::cmp::PartialEqSpecImpl for SessionKey {
    open spec fn obeys_eq_spec() -> bool {
        true
    }

    open spec fn eq_spec(&self, other: &SessionKey) -> bool {
        self@ == other@
    }
}

impl Identity for SessionKey {
    type Id = SessionKeyView;

    open spec fn id(&self) -> SessionKeyView {
        self@
    }

    open spec fn tenant_text(&self) -> Seq<char> {
        uuid_hyphenated(self@.tenant_id)
    }

    open spec fn client_text(&self) -> Seq<char> {
        uuid_hyphenated(self@.client_id)
    }

    open spec fn scope_set(&self) -> Set<Seq<char>> {
        self@.scopes
    }

    fn same_as(&self, other: &SessionKey) -> (r: bool) {
        SessionKey::same_as(self, other)
    }

    fn duplicate(&self) -> (r: SessionKey) {
        self.clone()
    }

    fn begin_flow(&self) -> (r: Result<DeviceFlow, ConfigError>) {
        Session::from_session_key(self)
    }
}

pub open spec fn graph_scope() -> Seq<char> {
    "https://graph.microsoft.com/.default"@
}

pub open spec fn log_analytics_scope() -> Seq<char> {
    "https://api.loganalytics.io/.default"@
}

pub open spec fn offline_access_scope() -> Seq<char> {
    "offline_access"@
}

/// The scope set of the two ready-made keys: the resource's default scope,
/// and `offline_access` where a refresh token is wanted.
pub open spec fn default_scopes(resource: Seq<char>, refreshable: bool) -> Set<Seq<char>> {
    if refreshable {
        set![resource, offline_access_scope()]
    } else {
        set![resource]
    }
}

impl SessionKey {
    #[verifier::type_invariant]
    spec fn canonical(self) -> bool {
        ascending(views(self.scopes@))
    }

    /// The scopes of the key as it holds them.
    pub closed spec fn scope_list(&self) -> Seq<Seq<char>> {
        views(self.scopes@)
    }

    /// A key for the tenant, the client and the scopes given, whatever their
    /// order and however often each is named.
    pub fn new(tenant_id: u128, client_id: u128, scopes: Vec<String>) -> (key: SessionKey)
        ensures
            key@ == (SessionKeyView { tenant_id, client_id, scopes: views(scopes@).to_set() }),
    {
        let ordered = ascending_strings(scopes);
        SessionKey { tenant_id, client_id, scopes: ordered }
    }

    /// Whether the text names the tenant of the key: it is a UUID, and the
    /// tenant's.
    pub fn is_of_tenant(&self, tenant_id: &str) -> (r: bool)
        ensures
            r == (uuid_parse(tenant_id@) == Some(self@.tenant_id)),
    {
        match parse_uuid(tenant_id) {
            Some(tenant) => tenant == self.tenant_id,
            None => false,
        }
    }

    pub fn tenant_id(&self) -> (id: u128)
        ensures
            id == self@.tenant_id,
    {
        self.tenant_id
    }

    pub fn client_id(&self) -> (id: u128)
        ensures
            id == self@.client_id,
    {
        self.client_id
    }

    /// The scopes of the key, each once, in the order of a dictionary.
    pub fn scopes(&self) -> (scopes: &Vec<String>)
        ensures
            views(scopes@) == self.scope_list(),
            ascending(views(scopes@)),
            views(scopes@).to_set() == self@.scopes,
    {
        proof {
            use_type_invariant(self);
        }
        &self.scopes
    }

    fn with_default(tenant_id: u128, client_id: u128, resource: &str, refreshable: bool) -> (key:
        SessionKey)
        ensures
            key@ == (SessionKeyView {
                tenant_id,
                client_id,
                scopes: default_scopes(resource@, refreshable),
            }),
    {
        let mut scopes: Vec<String> = Vec::new();
        scopes.push(String::from_str(resource));
        if refreshable {
            scopes.push(String::from_str("offline_access"));
        }
        proof {
            if refreshable {
                assert(views(scopes@) =~= seq![resource@, offline_access_scope()]);
            } else {
                assert(views(scopes@)[0] == resource@);
            }
            assert(views(scopes@).to_set() =~= default_scopes(resource@, refreshable));
        }
        SessionKey::new(tenant_id, client_id, scopes)
    }

    /// The key for Microsoft Graph's default scope.
    pub fn graph_default(tenant_id: u128, client_id: u128, refreshable: bool) -> (key: SessionKey)
        ensures
            key@ == (SessionKeyView {
                tenant_id,
                client_id,
                scopes: default_scopes(graph_scope(), refreshable),
            }),
    {
        SessionKey::with_default(
            tenant_id,
            client_id,
            "https://graph.microsoft.com/.default",
            refreshable,
        )
    }

    /// The key for Log Analytics' default scope.
    pub fn log_analytics_default(tenant_id: u128, client_id: u128, refreshable: bool) -> (key:
        SessionKey)
        ensures
            key@ == (SessionKeyView {
                tenant_id,
                client_id,
                scopes: default_scopes(log_analytics_scope(), refreshable),
            }),
    {
        SessionKey::with_default(
            tenant_id,
            client_id,
            "https://api.loganalytics.io/.default",
            refreshable,
        )
    }

    /// Whether the two keys name the same tenant, client and set of scopes.
    pub fn same_as(&self, other: &SessionKey) -> (r: bool)
        ensures
            r == (self@ == other@),
    {
        proof {
            use_type_invariant(self);
            use_type_invariant(other);
        }
        if self.tenant_id != other.tenant_id || self.client_id != other.client_id {
            return false;
        }
        let a = subset_of(&self.scopes, &other.scopes);
        let b = subset_of(&other.scopes, &self.scopes);
        proof {
            let x = views(self.scopes@).to_set();
            let y = views(other.scopes@).to_set();
            if a && b {
                assert(x =~= y);
            }
        }
        a && b
    }
}

/// Two keys made for the same tenant and client from scopes that form the
/// same set are equal, whatever the order of the scopes and however often each
/// was named.
pub proof fn lemma_key_ignores_scope_order(
    a: SessionKey,
    b: SessionKey,
    first: Seq<String>,
    second: Seq<String>,
)
    requires
        views(first).to_set() == views(second).to_set(),
        a@.tenant_id == b@.tenant_id,
        a@.client_id == b@.client_id,
        a@.scopes == views(first).to_set(),
        b@.scopes == views(second).to_set(),
    ensures
        a@ == b@,
{
}

/// Equal keys hold their scopes in the same order: each key is the one form
/// of its identity.
pub proof fn lemma_key_is_canonical(a: SessionKey, b: SessionKey)
    requires
        a@ == b@,
        ascending(a.scope_list()),
        ascending(b.scope_list()),
    ensures
        a.scope_list() == b.scope_list(),
{
    lemma_ascending_is_canonical(a.scope_list(), b.scope_list());
}

/// A reordering of the scopes leaves their set as it was.
pub proof fn lemma_reordered_scopes(first: Seq<String>, second: Seq<String>)
    requires
        views(first).to_multiset() == views(second).to_multiset(),
    ensures
        views(first).to_set() == views(second).to_set(),
{
    broadcast use vstd::seq_lib::group_to_multiset_ensures;

    let x = views(first);
    let y = views(second);
    assert forall|e: Seq<char>| x.to_set().contains(e) <==> y.to_set().contains(e) by {
        assert(x.contains(e) <==> x.to_multiset().count(e) > 0);
    }
}

/// The seconds before its end at which a token is replaced.
pub const REFRESH_MARGIN: u64 = 300;

/// A token as the authorization server issued it. It cannot be formatted for
/// a log or an error message: it is the secret.
#[derive(Clone)]
pub struct Token {
    pub access_token: String,
    pub refresh_token: Option<String>,
    /// The lifetime in seconds, where the server stated one.
    pub expires_in: Option<u64>,
    pub token_type: String,
}

/// Holds the OAuth2 client configuration of one identity, the token in use
/// and the time at which that token was issued.
pub struct Session {
    oauth: OAuthConfig,
    token: Token,
    created: u64,
}

/// What a [`Session`] holds.
pub struct SessionState {
    pub oauth: OAuthConfig,
    pub token: Token,
    pub created: u64,
}

impl View for Session {
    type V = SessionState;

    closed spec fn view(&self) -> SessionState {
        SessionState { oauth: self.oauth, token: self.token, created: self.created }
    }
}

impl SessionState {
    /// The seconds gone by since the token was issued, on a clock that never
    /// runs backwards.
    pub open spec fn elapsed(self, now: u64) -> int {
        if now >= self.created {
            now - self.created
        } else {
            0
        }
    }

    /// The seconds for which the token is still good, where it states a
    /// lifetime.
    pub open spec fn remaining(self, now: u64) -> Option<int> {
        match self.token.expires_in {
            Some(lifetime) => Some(lifetime - self.elapsed(now)),
            None => None,
        }
    }

    /// A refresh is due when less than the margin remains, or when what
    /// remains cannot be told.
    pub open spec fn refresh_due(self, now: u64) -> bool {
        match self.remaining(now) {
            Some(left) => left < REFRESH_MARGIN,
            None => true,
        }
    }

    /// The holder after a refresh that brought `token` at `now`.
    pub open spec fn renewed(self, token: Token, now: u64) -> SessionState {
        SessionState { oauth: self.oauth, token, created: now }
    }
}

/// What keeping a token fresh asks for.
pub enum RefreshPlan {
    /// Enough of the lifetime remains: nothing to do.
    Fresh,
    /// A refresh is due: exchange this refresh token at the token endpoint.
    Exchange { refresh_token: String },
    /// A refresh is due and the token carries no refresh token.
    Unavailable,
}

/// What the exchange of a refresh token brought.
pub enum ExchangeOutcome {
    /// The server issued a new token.
    Granted(Token),
    /// The server turned the refresh token down.
    Rejected,
    /// The exchange did not reach the server or broke on the way.
    Unreachable,
}

/// The plan for a holder at a time.
pub open spec fn plan_for(state: SessionState, now: u64) -> RefreshPlan {
    if !state.refresh_due(now) {
        RefreshPlan::Fresh
    } else {
        match state.token.refresh_token {
            Some(refresh_token) => RefreshPlan::Exchange { refresh_token },
            None => RefreshPlan::Unavailable,
        }
    }
}

/// The holder after an exchange, and what the caller is told.
pub open spec fn after_exchange(state: SessionState, outcome: ExchangeOutcome, now: u64) -> (
    SessionState,
    Result<(), AuthError>,
) {
    match outcome {
        ExchangeOutcome::Granted(token) => (state.renewed(token, now), Ok(())),
        ExchangeOutcome::Rejected => (state, Err(AuthError::RefreshRejected)),
        ExchangeOutcome::Unreachable => (state, Err(AuthError::NetworkFailure)),
    }
}

/// What making a holder fresh at `now` comes to: `before` and `after` are
/// the holder around the call, `told` is what the caller is told. Where enough
/// of the lifetime remains, the holder stays as it is and the call succeeds.
/// Where a refresh is due and there is no refresh token, the holder stays as it
/// is and the call fails. Otherwise `exchange` was called with the refresh
/// token, and what it brought was taken as [`after_exchange`] says.
pub open spec fn made_fresh<F: FnOnce(String) -> ExchangeOutcome>(
    before: SessionState,
    after: SessionState,
    told: Result<(), AuthError>,
    now: u64,
    exchange: F,
) -> bool {
    match plan_for(before, now) {
        RefreshPlan::Fresh => after == before && told == Ok::<(), AuthError>(()),
        RefreshPlan::Unavailable => after == before && told == Err::<(), AuthError>(
            AuthError::NoRefreshToken,
        ),
        RefreshPlan::Exchange { refresh_token } => exists|outcome: ExchangeOutcome|
            #![trigger call_ensures(exchange, (refresh_token,), outcome)]
            call_ensures(exchange, (refresh_token,), outcome) && (after, told) == after_exchange(
                before,
                outcome,
                now,
            ),
    }
}

/// `exchange` can be called with the refresh token of the holder, where a
/// refresh is due at `now`.
pub open spec fn can_exchange<F: FnOnce(String) -> ExchangeOutcome>(
    state: SessionState,
    now: u64,
    exchange: F,
) -> bool {
    plan_for(state, now) matches RefreshPlan::Exchange { refresh_token } ==> call_requires(
        exchange,
        (refresh_token,),
    )
}

/// A result without its value.
pub open spec fn outcome_of<T>(r: Result<T, AuthError>) -> Result<(), AuthError> {
    match r {
        Ok(_) => Ok(()),
        Err(e) => Err(e),
    }
}

/// The value of the `Authorization` header for an access token.
pub open spec fn bearer_of(access_token: Seq<char>) -> Seq<char> {
    "Bearer "@ + access_token
}

impl Session {
    /// A holder of a token that was issued at `now`.
    pub fn holding(oauth: OAuthConfig, token: Token, now: u64) -> (session: Session)
        ensures
            session@ == (SessionState { oauth, token, created: now }),
    {
        Session { oauth, token, created: now }
    }

    /// Begins the device-code sign-in for a key.
    pub fn from_session_key(key: &SessionKey) -> (r: Result<DeviceFlow, ConfigError>)
        ensures
            r is Ok <==> crate::oauth::endpoints_parse(uuid_hyphenated(key@.tenant_id)),
            r matches Ok(flow) ==> {
                &&& crate::cache::flow_is_for(
                    flow,
                    uuid_hyphenated(key@.tenant_id),
                    uuid_hyphenated(key@.client_id),
                    key@.scopes,
                )
                &&& ascending(views(flow.requested()))
            },
            r matches Err(e) ==> e == ConfigError::MalformedEndpoint,
    {
        let tenant = uuid_text(key.tenant_id());
        let client = uuid_text(key.client_id());
        DeviceFlow::begin(tenant.as_str(), client.as_str(), key.scopes())
    }

    pub fn config(&self) -> (config: &OAuthConfig)
        ensures
            *config == self@.oauth,
    {
        &self.oauth
    }

    pub fn token(&self) -> (token: &Token)
        ensures
            *token == self@.token,
    {
        &self.token
    }

    /// The time at which the token in use was issued.
    pub fn created(&self) -> (at: u64)
        ensures
            at == self@.created,
    {
        self.created
    }

    /// Whether the token is to be replaced before it is used at `now`.
    pub fn refresh_due(&self, now: u64) -> (due: bool)
        ensures
            due == self@.refresh_due(now),
    {
        match self.token.expires_in {
            None => true,
            Some(lifetime) => {
                let elapsed: u64 = if now >= self.created {
                    now - self.created
                } else {
                    0
                };
                lifetime < REFRESH_MARGIN || elapsed > lifetime - REFRESH_MARGIN
            },
        }
    }

    /// What is to be done before the token is used at `now`. The holder is
    /// left as it is.
    pub fn plan_refresh(&self, now: u64) -> (plan: RefreshPlan)
        ensures
            plan == plan_for(self@, now),
    {
        if !self.refresh_due(now) {
            RefreshPlan::Fresh
        } else {
            match &self.token.refresh_token {
                Some(refresh_token) => RefreshPlan::Exchange {
                    refresh_token: refresh_token.clone(),
                },
                None => RefreshPlan::Unavailable,
            }
        }
    }

    /// Takes what the exchange of the refresh token brought, at `now`. A
    /// granted token replaces the held one together with its time of issue;
    /// otherwise the holder stays as it was.
    pub fn complete_refresh(&mut self, outcome: ExchangeOutcome, now: u64) -> (r: Result<
        (),
        AuthError,
    >)
        ensures
            (final(self)@, r) == after_exchange(old(self)@, outcome, now),
    {
        match outcome {
            ExchangeOutcome::Granted(token) => {
                self.token = token;
                self.created = now;
                Ok(())
            },
            ExchangeOutcome::Rejected => Err(AuthError::RefreshRejected),
            ExchangeOutcome::Unreachable => Err(AuthError::NetworkFailure),
        }
    }

    /// Replaces the token by exchanging its refresh token, whatever remains
    /// of its lifetime: `exchange` is called once, with the refresh token, and
    /// what it brings is taken as in [`Session::complete_refresh`]. Without a
    /// refresh token the holder stays as it is and the call fails.
    pub fn refresh<F: FnOnce(String) -> ExchangeOutcome>(&mut self, now: u64, exchange: F) -> (r:
        Result<(), AuthError>)
        requires
            old(self)@.token.refresh_token matches Some(refresh_token) ==> call_requires(
                exchange,
                (refresh_token,),
            ),
        ensures
            match old(self)@.token.refresh_token {
                None => final(self)@ == old(self)@ && r == Err::<(), AuthError>(
                    AuthError::NoRefreshToken,
                ),
                Some(refresh_token) => exists|outcome: ExchangeOutcome|
                    #![trigger call_ensures(exchange, (refresh_token,), outcome)]
                    call_ensures(exchange, (refresh_token,), outcome) && (final(self)@, r)
                        == after_exchange(old(self)@, outcome, now),
            },
    {
        let held = match &self.token.refresh_token {
            Some(refresh_token) => refresh_token.clone(),
            None => {
                return Err(AuthError::NoRefreshToken);
            },
        };
        let outcome = exchange(held);
        self.complete_refresh(outcome, now)
    }

    /// Makes sure that the token is good for use at `now`. Where enough of
    /// its lifetime remains, nothing is exchanged and the holder stays as it
    /// is. Where a refresh is due, `exchange` is called once, with the refresh
    /// token, and what it brings is taken as in [`Session::complete_refresh`];
    /// without a refresh token the holder stays as it is and the call fails.
    pub fn ensure_fresh<F: FnOnce(String) -> ExchangeOutcome>(&mut self, now: u64, exchange: F) -> (r:
        Result<(), AuthError>)
        requires
            can_exchange(old(self)@, now, exchange),
        ensures
            made_fresh(old(self)@, final(self)@, r, now, exchange),
    {
        if self.refresh_due(now) {
            self.refresh(now, exchange)
        } else {
            Ok(())
        }
    }

    /// The access token, made fresh for use at `now` as in
    /// [`Session::ensure_fresh`].
    pub fn secret<F: FnOnce(String) -> ExchangeOutcome>(&mut self, now: u64, exchange: F) -> (r:
        Result<String, AuthError>)
        requires
            can_exchange(old(self)@, now, exchange),
        ensures
            made_fresh(old(self)@, final(self)@, outcome_of(r), now, exchange),
            r matches Ok(secret) ==> secret@ == final(self)@.token.access_token@,
    {
        match self.ensure_fresh(now, exchange) {
            Ok(()) => Ok(String::from_str(self.access_token())),
            Err(e) => Err(e),
        }
    }

    /// A request for `url` that carries the access token, made fresh for use
    /// at `now` as in [`Session::ensure_fresh`].
    pub fn request<F: FnOnce(String) -> ExchangeOutcome>(
        &mut self,
        now: u64,
        method: Method,
        url: &str,
        exchange: F,
    ) -> (r: Result<AuthorizedRequest, AuthError>)
        requires
            can_exchange(old(self)@, now, exchange),
        ensures
            made_fresh(old(self)@, final(self)@, outcome_of(r), now, exchange),
            r matches Ok(request) ==> {
                &&& request.method == method
                &&& request.url@ == url@
                &&& request.authorization@ == bearer_of(final(self)@.token.access_token@)
            },
    {
        match self.ensure_fresh(now, exchange) {
            Ok(()) => Ok(
                AuthorizedRequest {
                    method,
                    url: String::from_str(url),
                    authorization: self.bearer(),
                },
            ),
            Err(e) => Err(e),
        }
    }

    /// The access token in use.
    pub fn access_token(&self) -> (secret: &str)
        ensures
            secret@ == self@.token.access_token@,
    {
        self.token.access_token.as_str()
    }

    /// The value of the `Authorization` header that carries the token in use.
    pub fn bearer(&self) -> (header: String)
        ensures
            header@ == bearer_of(self@.token.access_token@),
    {
        join2("Bearer ", self.token.access_token.as_str())
    }
}

/// While at least the margin remains of a token's lifetime, making the holder
/// fresh exchanges nothing and leaves the holder as it is, its token and its
/// time of issue alike.
pub proof fn lemma_fresh_token_is_kept<F: FnOnce(String) -> ExchangeOutcome>(
    before: SessionState,
    after: SessionState,
    told: Result<(), AuthError>,
    now: u64,
    exchange: F,
)
    requires
        before.remaining(now) matches Some(left) && left >= REFRESH_MARGIN,
        made_fresh(before, after, told, now, exchange),
    ensures
        plan_for(before, now) is Fresh,
        after == before,
        told is Ok,
{
}

/// When less than the margin remains and the token carries a refresh token,
/// that token is what is exchanged, and the token and its time of issue are
/// replaced together or not at all: a granted token is held from `now` on, and
/// any other outcome leaves the holder as it is.
pub proof fn lemma_due_token_is_replaced_whole<F: FnOnce(String) -> ExchangeOutcome>(
    before: SessionState,
    after: SessionState,
    told: Result<(), AuthError>,
    now: u64,
    exchange: F,
)
    requires
        before.refresh_due(now),
        before.token.refresh_token is Some,
        made_fresh(before, after, told, now, exchange),
    ensures
        plan_for(before, now) == (RefreshPlan::Exchange {
            refresh_token: before.token.refresh_token->Some_0,
        }),
        told is Ok ==> after.created == now && after.oauth == before.oauth,
        told is Err ==> after == before,
        (after.token == before.token && after.created == before.created) || (told is Ok
            && after.created == now),
{
}

/// When a refresh is due and the token carries no refresh token, making the
/// holder fresh fails with `NoRefreshToken` and leaves the holder as it is.
pub proof fn lemma_no_refresh_token<F: FnOnce(String) -> ExchangeOutcome>(
    before: SessionState,
    after: SessionState,
    told: Result<(), AuthError>,
    now: u64,
    exchange: F,
)
    requires
        before.refresh_due(now),
        before.token.refresh_token is None,
        made_fresh(before, after, told, now, exchange),
    ensures
        plan_for(before, now) is Unavailable,
        told == Err::<(), AuthError>(AuthError::NoRefreshToken),
        after == before,
{
}

/// A token without a stated lifetime, or with one below the margin, is due
/// for a refresh from the moment it is issued.
pub proof fn lemma_short_token_is_due(state: SessionState, now: u64)
    requires
        match state.token.expires_in {
            Some(lifetime) => lifetime < REFRESH_MARGIN,
            None => true,
        },
    ensures
        state.refresh_due(now),
{
}

} // verus!
