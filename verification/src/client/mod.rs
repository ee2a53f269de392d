//! The client: the session cache of the identities that signed in, and the
//! API surfaces that draw their tokens from it.

pub mod auth;

use crate::apis::ApiScope;
use crate::apis::log_analytics::LogAnalyticsWorkspace;
use crate::apis::resource_manager::ResourceManager;
use crate::apis::sentinel::{base_path_of, SentinelWorkspace};
use crate::cache::{
    can_establish, served, step_is, Identity, SessionCache, TokenError, TokenStep,
};
use crate::client::auth::{
    after_exchange, bearer_of, can_exchange, parse_uuid, uuid_parse, ExchangeOutcome, Session,
    SessionKey, SessionKeyView, SessionState,
};
use crate::error::{AuthError, ConfigError};
use crate::http::{AuthorizedRequest, Method};
use crate::oauth::DeviceFlow;
use crate::text::{join2, views};
use vstd::prelude::*;
use vstd::string::*;

verus! {

/// Why the client could not serve a call.
#[derive(Debug, Clone, Copy, PartialEq, Eq, Structural)]
pub enum ClientError {
    /// An identifier or an endpoint is malformed.
    Config(ConfigError),
    /// The identity has not signed in.
    NoSession,
    /// The sign-in or the refresh failed.
    Auth(AuthError),
}

/// What a client error says of a refresh.
pub open spec fn token_error_of(e: ClientError) -> Option<TokenError> {
    match e {
        ClientError::Config(c) => Some(TokenError::Config(c)),
        ClientError::Auth(a) => Some(TokenError::Auth(a)),
        ClientError::NoSession => None,
    }
}

/// The key that the two identifiers and the scopes name, where both
/// identifiers are UUIDs; else the error that says which is not, the tenant
/// first.
pub open spec fn key_named(tenant_id: Seq<char>, client_id: Seq<char>, scopes: Seq<String>) -> Result<
    SessionKeyView,
    ConfigError,
> {
    match (uuid_parse(tenant_id), uuid_parse(client_id)) {
        (None, _) => Err(ConfigError::MalformedTenant),
        (Some(_), None) => Err(ConfigError::MalformedClient),
        (Some(tenant), Some(client)) => Ok(
            SessionKeyView { tenant_id: tenant, client_id: client, scopes: views(scopes).to_set() },
        ),
    }
}

/// The session cache of the identities that signed in.
pub struct Client {
    sessions: SessionCache<SessionKey>,
}

impl View for Client {
    type V = Map<SessionKeyView, SessionState>;

    closed spec fn view(&self) -> Map<SessionKeyView, SessionState> {
        self.sessions@
    }
}

impl Client {
    /// A client that nobody signed in to.
    pub fn new() -> (client: Client)
        ensures
            client@ == Map::<SessionKeyView, SessionState>::empty(),
    {
        Client { sessions: SessionCache::new() }
    }

    /// The key for a tenant and a client given as text.
    pub fn session_key(tenant_id: &str, client_id: &str, scopes: Vec<String>) -> (r: Result<
        SessionKey,
        ConfigError,
    >)
        ensures
            match key_named(tenant_id@, client_id@, scopes@) {
                Ok(named) => r matches Ok(key) && key@ == named,
                Err(e) => r matches Err(told) && told == e,
            },
    {
        let tenant = match parse_uuid(tenant_id) {
            Some(id) => id,
            None => {
                return Err(ConfigError::MalformedTenant);
            },
        };
        let client = match parse_uuid(client_id) {
            Some(id) => id,
            None => {
                return Err(ConfigError::MalformedClient);
            },
        };
        Ok(SessionKey::new(tenant, client, scopes))
    }

    /// Whether the identity has signed in.
    pub fn is_authenticated(&self, key: &SessionKey) -> (r: bool)
        ensures
            r == self@.contains_key(key@),
    {
        self.sessions.contains_key(key)
    }

    /// What is to be done next for the token of an identity at `now`.
    pub fn next_step(&self, key: &SessionKey, now: u64) -> (step: TokenStep)
        ensures
            step_is(self@, *key, now, step),
    {
        self.sessions.next_step(key, now)
    }

    /// The holder of an identity.
    pub fn session(&self, key: &SessionKey) -> (r: Option<&Session>)
        ensures
            r is Some <==> self@.contains_key(key@),
            r matches Some(session) ==> session@ == self@[key@],
    {
        self.sessions.get(key)
    }

    /// Gives the identity the holder that a sign-in brought, unless it has
    /// one.
    pub fn take_in(&mut self, key: SessionKey, session: Session) -> (taken: bool)
        ensures
            taken == !old(self)@.contains_key(key@),
            taken ==> final(self)@ == old(self)@.insert(key@, session@),
            !taken ==> final(self)@ == old(self)@,
    {
        self.sessions.insert_if_absent(key, session)
    }

    /// Takes what the exchange of the refresh token of an identity's holder
    /// brought, at `now`. Without a holder nothing is done and nothing is
    /// told.
    pub fn complete_refresh(&mut self, key: &SessionKey, outcome: ExchangeOutcome, now: u64) -> (r:
        Option<Result<(), AuthError>>)
        ensures
            !old(self)@.contains_key(key@) ==> r is None && final(self)@ == old(self)@,
            old(self)@.contains_key(key@) ==> {
                let then = after_exchange(old(self)@[key@], outcome, now);
                r == Some(then.1) && final(self)@ == old(self)@.insert(key@, then.0)
            },
    {
        self.sessions.complete_refresh(key, outcome, now)
    }

    /// Signs an identity in unless it has signed in already. A malformed
    /// identifier is told apart first and nothing is done. An identity that
    /// has a holder keeps it. For one that has none, `establish` is handed the
    /// sign-in; the holder that it brings goes into the cache, and where it
    /// brings an error the cache stays as it is. Nothing is asked of
    /// `establish` where an identifier is malformed or the identity has a
    /// holder, so that it cannot be called then.
    pub fn authenticate<E: FnOnce(DeviceFlow) -> Result<Session, AuthError>>(
        &mut self,
        tenant_id: &str,
        client_id: &str,
        scopes: Vec<String>,
        establish: E,
    ) -> (r: Result<(), ClientError>)
        requires
            key_named(tenant_id@, client_id@, scopes@) matches Ok(named) ==> (!old(
                self,
            )@.contains_key(named) ==> can_establish(
                crate::client::auth::uuid_hyphenated(named.tenant_id),
                crate::client::auth::uuid_hyphenated(named.client_id),
                named.scopes,
                establish,
            )),
        ensures
            match key_named(tenant_id@, client_id@, scopes@) {
                Err(e) => final(self)@ == old(self)@ && r == Err::<(), ClientError>(
                    ClientError::Config(e),
                ),
                Ok(named) => if old(self)@.contains_key(named) {
                    final(self)@ == old(self)@ && r is Ok
                } else if !crate::oauth::endpoints_parse(
                    crate::client::auth::uuid_hyphenated(named.tenant_id),
                ) {
                    final(self)@ == old(self)@ && r == Err::<(), ClientError>(
                        ClientError::Config(ConfigError::MalformedEndpoint),
                    )
                } else {
                    exists|flow: DeviceFlow, established: Result<Session, AuthError>|
                        #![trigger call_ensures(establish, (flow,), established)]
                        {
                            &&& crate::cache::flow_is_for(
                                flow,
                                crate::client::auth::uuid_hyphenated(named.tenant_id),
                                crate::client::auth::uuid_hyphenated(named.client_id),
                                named.scopes,
                            )
                            &&& call_ensures(establish, (flow,), established)
                            &&& match established {
                                Err(e) => final(self)@ == old(self)@ && r == Err::<
                                    (),
                                    ClientError,
                                >(ClientError::Auth(e)),
                                Ok(session) => final(self)@ == old(self)@.insert(named, session@)
                                    && r is Ok,
                            }
                        }
                },
            },
    {
        let key = match Client::session_key(tenant_id, client_id, scopes) {
            Ok(key) => key,
            Err(e) => {
                return Err(ClientError::Config(e));
            },
        };
        if self.sessions.contains_key(&key) {
            return Ok(());
        }
        let flow = match Session::from_session_key(&key) {
            Ok(flow) => flow,
            Err(e) => {
                return Err(ClientError::Config(e));
            },
        };
        let established = establish(flow);
        match established {
            Err(e) => Err(ClientError::Auth(e)),
            Ok(session) => {
                self.sessions.insert_if_absent(key, session);
                Ok(())
            },
        }
    }

    /// The holder of an identity that has signed in. The identity is the whole
    /// of tenant, client and scopes: a holder of another identity of the same
    /// tenant is not handed out in its place.
    pub fn find_session(&self, key: &SessionKey) -> (r: Result<&Session, ClientError>)
        ensures
            r is Ok <==> self@.contains_key(key@),
            r matches Ok(session) ==> session@ == self@[key@],
            r matches Err(e) ==> e == ClientError::NoSession,
    {
        match self.sessions.get(key) {
            Some(session) => Ok(session),
            None => Err(ClientError::NoSession),
        }
    }

    /// A request for `url` that carries the access token of an identity,
    /// made fresh for use at `now` as in [`Session::ensure_fresh`]. An
    /// identity that has not signed in gets no request, and nobody is signed
    /// in for it.
    pub fn request<X: FnOnce(String) -> ExchangeOutcome>(
        &mut self,
        key: &SessionKey,
        method: Method,
        url: &str,
        now: u64,
        exchange: X,
    ) -> (r: Result<AuthorizedRequest, ClientError>)
        requires
            old(self)@.contains_key(key@) ==> can_exchange(old(self)@[key@], now, exchange),
        ensures
            !old(self)@.contains_key(key@) ==> final(self)@ == old(self)@ && (r matches Err(e)
                && e == ClientError::NoSession),
            old(self)@.contains_key(key@) ==> exists|told: Result<String, TokenError>|
                #![trigger served(old(self)@, final(self)@, key@, old(self)@[key@], told, now, exchange)]
                {
                    &&& served(
                        old(self)@,
                        final(self)@,
                        key@,
                        old(self)@[key@],
                        told,
                        now,
                        exchange,
                    )
                    &&& match told {
                        Ok(secret) => r matches Ok(request) && request.method == method
                            && request.url@ == url@ && request.authorization@ == bearer_of(
                            secret@,
                        ),
                        Err(e) => r matches Err(c) && token_error_of(c) == Some(e),
                    }
                },
    {
        match self.sessions.held_token(key, now, exchange) {
            None => Err(ClientError::NoSession),
            Some(told) => {
                assert(served(old(self)@, self@, key@, old(self)@[key@], told, now, exchange));
                match told {
                    Ok(secret) => Ok(
                        AuthorizedRequest {
                            method,
                            url: String::from_str(url),
                            authorization: join2("Bearer ", secret.as_str()),
                        },
                    ),
                    Err(TokenError::Auth(e)) => Err(ClientError::Auth(e)),
                    Err(TokenError::Config(e)) => Err(ClientError::Config(e)),
                }
            },
        }
    }

    /// The Resource Manager surface for a tenant.
    pub fn resource_manager<'a>(&self, tenant_id: &'a str) -> (scope: ResourceManager<'a>)
        ensures
            scope.tenant() == tenant_id@,
    {
        ResourceManager::new(tenant_id)
    }

    /// The Sentinel surface of a workspace, for a tenant.
    pub fn sentinel<'a>(
        &self,
        tenant_id: &'a str,
        subscription_id: &'a str,
        resource_group: &'a str,
        workspace_name: &'a str,
    ) -> (scope: SentinelWorkspace<'a>)
        ensures
            scope.tenant() == tenant_id@,
            scope.base() == base_path_of(subscription_id@, resource_group@, workspace_name@),
    {
        SentinelWorkspace::new(tenant_id, subscription_id, resource_group, workspace_name)
    }

    /// The Log Analytics surface of a workspace, for a tenant.
    pub fn log_analytics<'a>(&self, tenant_id: &'a str, workspace_id: &'a str) -> (scope:
        LogAnalyticsWorkspace<'a>)
        ensures
            scope.tenant() == tenant_id@,
            scope.workspace() == workspace_id@,
    {
        LogAnalyticsWorkspace::new(tenant_id, workspace_id)
    }
}

/// Two keys for the same tenant, client and set of scopes are one key to the
/// cache: they find the same holder or none.
pub proof fn lemma_same_identity_same_entry(
    holders: Map<SessionKeyView, SessionState>,
    a: SessionKey,
    b: SessionKey,
)
    requires
        a@.tenant_id == b@.tenant_id,
        a@.client_id == b@.client_id,
        a@.scopes == b@.scopes,
    ensures
        a@ == b@,
        holders.contains_key(a@) == holders.contains_key(b@),
        holders.contains_key(a@) ==> holders[a@] == holders[b@],
{
}

} // verus!
