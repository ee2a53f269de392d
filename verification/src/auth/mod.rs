//! The session store: token holders by the tenant, the client and the scopes
//! that each was asked for, all given as text.

pub use crate::client::auth::Session;

use crate::cache::{
    can_serve, step_is, token_served, Identity, SessionCache, TokenError, TokenStep,
};
use crate::client::auth::{after_exchange, ExchangeOutcome, SessionState};
use crate::error::{AuthError, ConfigError};
use crate::oauth::{endpoints_parse, DeviceFlow};
use crate::text::{clone_strings, str_eq, subset_of, views};
use vstd::prelude::*;
use vstd::string::*;

verus! {

/// Identifies a credential by text: the client, the tenant and the scopes
/// asked for. The order of the scopes, and how often each is named, plays no
/// part in telling two of them apart.
#[derive(Debug)]
pub struct AuthScope {
    pub client_id: String,
    pub tenant_id: String,
    pub scopes: Vec<String>,
}

/// An [`AuthScope`] as a plain value.
pub struct AuthScopeView {
    pub client_id: Seq<char>,
    pub tenant_id: Seq<char>,
    pub scopes: Set<Seq<char>>,
}

impl View for AuthScope {
    type V = AuthScopeView;

    open spec fn view(&self) -> AuthScopeView {
        AuthScopeView {
            client_id: self.client_id@,
            tenant_id: self.tenant_id@,
            scopes: views(self.scopes@).to_set(),
        }
    }
}

impl Clone for AuthScope {
    fn clone(&self) -> (r: AuthScope)
        ensures
            r@ == self@,
            r.scopes@ == self.scopes@,
    {
        AuthScope {
            client_id: self.client_id.clone(),
            tenant_id: self.tenant_id.clone(),
            scopes: clone_strings(&self.scopes),
        }
    }
}

impl PartialEq for AuthScope {
    fn eq(&self, other: &AuthScope) -> (r: bool) {
        self.same_as(other)
    }
}

impl Eq for AuthScope {

}

impl vstd::std_specs::cmp::PartialEqSpecImpl for AuthScope {
    open spec fn obeys_eq_spec() -> bool {
        true
    }

    open spec fn eq_spec(&self, other: &AuthScope) -> bool {
        self@ == other@
    }
}

impl Identity for AuthScope {
    type Id = AuthScopeView;

    open spec fn id(&self) -> AuthScopeView {
        self@
    }

    open spec fn tenant_text(&self) -> Seq<char> {
        self.tenant_id@
    }

    open spec fn client_text(&self) -> Seq<char> {
        self.client_id@
    }

    open spec fn scope_set(&self) -> Set<Seq<char>> {
        views(self.scopes@).to_set()
    }

    fn same_as(&self, other: &AuthScope) -> (r: bool) {
        if !str_eq(self.client_id.as_str(), other.client_id.as_str()) {
            return false;
        }
        if !str_eq(self.tenant_id.as_str(), other.tenant_id.as_str()) {
            return false;
        }
        let a = subset_of(&self.scopes, &other.scopes);
        let b = subset_of(&other.scopes, &self.scopes);
        proof {
            let x = views(self.scopes@).to_set();
            let y = views(other.scopes@).to_set();
            if a && b {
                assert(x =~= y);
            }
        }
        a && b
    }

    fn duplicate(&self) -> (r: AuthScope) {
        self.clone()
    }

    fn begin_flow(&self) -> (r: Result<DeviceFlow, ConfigError>) {
        Session::init(self)
    }
}

impl Session {
    /// Begins the device-code sign-in for a scope.
    pub fn init(scope: &AuthScope) -> (r: Result<DeviceFlow, ConfigError>)
        ensures
            r is Ok <==> endpoints_parse(scope.tenant_id@),
            r matches Ok(flow) ==> flow.oauth().is_for(scope.tenant_id@, scope.client_id@)
                && flow.requested() == scope.scopes@,
            r matches Err(e) ==> e == ConfigError::MalformedEndpoint,
    {
        DeviceFlow::begin(scope.tenant_id.as_str(), scope.client_id.as_str(), &scope.scopes)
    }
}

/// The token holders of the scopes that signed in.
pub struct SessionStore {
    sessions: SessionCache<AuthScope>,
}

impl View for SessionStore {
    type V = Map<AuthScopeView, SessionState>;

    closed spec fn view(&self) -> Map<AuthScopeView, SessionState> {
        self.sessions@
    }
}

impl Default for SessionStore {
    fn default() -> (store: SessionStore)
        ensures
            store@ == Map::<AuthScopeView, SessionState>::empty(),
    {
        SessionStore { sessions: SessionCache::new() }
    }
}

impl SessionStore {
    /// What is to be done next for the token of a scope at `now`.
    pub fn next_step(&self, scope: &AuthScope, now: u64) -> (step: TokenStep)
        ensures
            step_is(self@, *scope, now, step),
    {
        self.sessions.next_step(scope, now)
    }

    /// The holder of a scope.
    pub fn session(&self, scope: &AuthScope) -> (r: Option<&Session>)
        ensures
            r is Some <==> self@.contains_key(scope@),
            r matches Some(session) ==> session@ == self@[scope@],
    {
        self.sessions.get(scope)
    }

    /// Gives the scope the holder that a sign-in brought, unless it has one.
    pub fn take_in(&mut self, scope: AuthScope, session: Session) -> (taken: bool)
        ensures
            taken == !old(self)@.contains_key(scope@),
            taken ==> final(self)@ == old(self)@.insert(scope@, session@),
            !taken ==> final(self)@ == old(self)@,
    {
        self.sessions.insert_if_absent(scope, session)
    }

    /// Takes what the exchange of the refresh token of a scope's holder
    /// brought, at `now`. Without a holder nothing is done and nothing is
    /// told.
    pub fn complete_refresh(&mut self, scope: &AuthScope, outcome: ExchangeOutcome, now: u64) -> (r:
        Option<Result<(), AuthError>>)
        ensures
            !old(self)@.contains_key(scope@) ==> r is None && final(self)@ == old(self)@,
            old(self)@.contains_key(scope@) ==> {
                let then = after_exchange(old(self)@[scope@], outcome, now);
                r == Some(then.1) && final(self)@ == old(self)@.insert(scope@, then.0)
            },
    {
        self.sessions.complete_refresh(scope, outcome, now)
    }

    /// The access token of a scope, good for use at `now`, as
    /// [`SessionCache::get_token`] hands it out: the holder of the scope is
    /// found or made by `establish`, then made fresh by `exchange`. Where the
    /// sign-in or the refresh fails, its error is handed on as it is. For a
    /// scope that has a holder nobody is signed in: nothing is asked of
    /// `establish` then, so that it cannot be called.
    pub fn get_secret<
        E: FnOnce(DeviceFlow) -> Result<Session, AuthError>,
        X: FnOnce(String) -> ExchangeOutcome,
    >(&mut self, scope: &AuthScope, now: u64, establish: E, exchange: X) -> (r: Result<
        String,
        TokenError,
    >)
        requires
            can_serve(
                old(self)@,
                scope@,
                scope.tenant_id@,
                scope.client_id@,
                scope@.scopes,
                now,
                establish,
                exchange,
            ),
        ensures
            token_served(old(self)@, final(self)@, *scope, r, now, establish, exchange),
    {
        self.sessions.get_token(scope, now, establish, exchange)
    }
}

} // verus!
