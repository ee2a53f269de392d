//! The session cache: at most one token holder per authentication identity.

use crate::client::auth::{
    can_exchange, made_fresh, plan_for, ExchangeOutcome, RefreshPlan, Session, SessionState,
};
use crate::error::{AuthError, ConfigError};
use crate::oauth::{endpoints_parse, DeviceFlow};
use crate::text::views;
use vstd::prelude::*;
use vstd::string::*;

verus! {

/// The sign-in is the one for this tenant, client and set of scopes.
pub open spec fn flow_is_for(
    flow: DeviceFlow,
    tenant: Seq<char>,
    client: Seq<char>,
    scopes: Set<Seq<char>>,
) -> bool {
    &&& flow.oauth().is_for(tenant, client)
    &&& views(flow.requested()).to_set() == scopes
}

/// `establish` can be called with the sign-in for this tenant, client and
/// set of scopes.
pub open spec fn can_establish<E: FnOnce(DeviceFlow) -> Result<Session, AuthError>>(
    tenant: Seq<char>,
    client: Seq<char>,
    scopes: Set<Seq<char>>,
    establish: E,
) -> bool {
    forall|flow: DeviceFlow|
        flow_is_for(flow, tenant, client, scopes) ==> #[trigger] call_requires(establish, (flow,))
}

/// `exchange` can be called with the refresh token of whatever holder
/// `establish` brings for this tenant, client and set of scopes, where that
/// holder is due for a refresh at `now`.
pub open spec fn can_refresh_established<
    E: FnOnce(DeviceFlow) -> Result<Session, AuthError>,
    X: FnOnce(String) -> ExchangeOutcome,
>(
    tenant: Seq<char>,
    client: Seq<char>,
    scopes: Set<Seq<char>>,
    now: u64,
    establish: E,
    exchange: X,
) -> bool {
    forall|flow: DeviceFlow, session: Session|
        #![trigger call_ensures(establish, (flow,), Ok::<Session, AuthError>(session))]
        flow_is_for(flow, tenant, client, scopes) && call_ensures(
            establish,
            (flow,),
            Ok::<Session, AuthError>(session),
        ) ==> can_exchange(session@, now, exchange)
}

/// The closures can be called with what a call for the token of an identity
/// hands them, and no more is asked of them. With a holder for the identity,
/// only `exchange` is called, and only where the holder is due for a refresh:
/// nothing is asked of `establish`. Without one, `establish` is called with
/// the sign-in for the identity, and `exchange` as the holder that it brings
/// asks.
pub open spec fn can_serve<
    Id,
    E: FnOnce(DeviceFlow) -> Result<Session, AuthError>,
    X: FnOnce(String) -> ExchangeOutcome,
>(
    holders: Map<Id, SessionState>,
    id: Id,
    tenant: Seq<char>,
    client: Seq<char>,
    scopes: Set<Seq<char>>,
    now: u64,
    establish: E,
    exchange: X,
) -> bool {
    if holders.contains_key(id) {
        can_exchange(holders[id], now, exchange)
    } else {
        can_establish(tenant, client, scopes, establish) && can_refresh_established(
            tenant,
            client,
            scopes,
            now,
            establish,
            exchange,
        )
    }
}

/// What identifies a credential: the key of the session cache.
pub trait Identity: Sized {
    /// The plain value by which two identities are told apart.
    type Id;

    spec fn id(&self) -> Self::Id;

    /// The tenant as it stands in the tenant's endpoints.
    spec fn tenant_text(&self) -> Seq<char>;

    /// The client as the authorization server knows it.
    spec fn client_text(&self) -> Seq<char>;

    /// The scopes asked for.
    spec fn scope_set(&self) -> Set<Seq<char>>;

    /// Whether the two identities are the same.
    fn same_as(&self, other: &Self) -> (r: bool)
        ensures
            r == (self.id() == other.id()),
    ;

    /// A copy of the identity.
    fn duplicate(&self) -> (r: Self)
        ensures
            r.id() == self.id(),
    ;

    /// Begins the device-code sign-in for the identity. It fails where the
    /// tenant's endpoints are no URLs.
    fn begin_flow(&self) -> (r: Result<DeviceFlow, ConfigError>)
        ensures
            r is Ok <==> endpoints_parse(self.tenant_text()),
            r matches Ok(flow) ==> flow_is_for(
                flow,
                self.tenant_text(),
                self.client_text(),
                self.scope_set(),
            ),
            r matches Err(e) ==> e == ConfigError::MalformedEndpoint,
    ;
}

/// Why no token could be handed out.
#[derive(Debug, Clone, Copy, PartialEq, Eq, Structural)]
pub enum TokenError {
    /// The client configuration for the identity could not be built.
    Config(ConfigError),
    /// The sign-in or the refresh failed.
    Auth(AuthError),
}

/// What the caller of a refresh is told, as far as a token error says it.
pub open spec fn told_of(r: Result<String, TokenError>) -> Result<(), AuthError> {
    match r {
        Ok(_) => Ok(()),
        Err(TokenError::Auth(e)) => Err(e),
        Err(TokenError::Config(_)) => Ok(()),
    }
}

/// A token was handed out from `holder`, the holder of `id`: the holder was
/// made fresh for use at `now`, and stands in the cache as it is after that;
/// the token handed out is the access token that it then holds.
pub open spec fn served<Id, X: FnOnce(String) -> ExchangeOutcome>(
    before: Map<Id, SessionState>,
    after: Map<Id, SessionState>,
    id: Id,
    holder: SessionState,
    r: Result<String, TokenError>,
    now: u64,
    exchange: X,
) -> bool {
    exists|renewed: SessionState|
        #![trigger made_fresh(holder, renewed, told_of(r), now, exchange)]
        {
            &&& made_fresh(holder, renewed, told_of(r), now, exchange)
            &&& after == before.insert(id, renewed)
            &&& !(r matches Err(TokenError::Config(_)))
            &&& r matches Ok(secret) ==> secret@ == renewed.token.access_token@
        }
}

/// What a call for a token comes to. An identity that has a holder is served
/// from it. One that has none gets one by `establish`, which is handed the
/// sign-in for the identity, and is then served from it; where the sign-in
/// cannot begin or fails, the cache stays as it is.
pub open spec fn token_served<
    K: Identity,
    E: FnOnce(DeviceFlow) -> Result<Session, AuthError>,
    X: FnOnce(String) -> ExchangeOutcome,
>(
    before: Map<K::Id, SessionState>,
    after: Map<K::Id, SessionState>,
    key: K,
    r: Result<String, TokenError>,
    now: u64,
    establish: E,
    exchange: X,
) -> bool {
    if before.contains_key(key.id()) {
        served(before, after, key.id(), before[key.id()], r, now, exchange)
    } else if !endpoints_parse(key.tenant_text()) {
        after == before && r == Err::<String, TokenError>(
            TokenError::Config(ConfigError::MalformedEndpoint),
        )
    } else {
        exists|flow: DeviceFlow, established: Result<Session, AuthError>|
            #![trigger call_ensures(establish, (flow,), established)]
            {
                &&& flow_is_for(flow, key.tenant_text(), key.client_text(), key.scope_set())
                &&& call_ensures(establish, (flow,), established)
                &&& match established {
                    Err(e) => after == before && r == Err::<String, TokenError>(
                        TokenError::Auth(e),
                    ),
                    Ok(session) => served(before, after, key.id(), session@, r, now, exchange),
                }
            }
    }
}

/// What is to be done next for the token of an identity.
pub enum TokenStep {
    /// The identity has no holder: run this sign-in and hand the holder in.
    SignIn(DeviceFlow),
    /// The token of the holder is due for a refresh: exchange this refresh
    /// token and hand in what it brings.
    Exchange { refresh_token: String },
    /// The token of the holder is good for use: here it is.
    Ready(String),
    /// No token can be had.
    Failed(TokenError),
}

/// The next step for an identity at `now`. Without a holder it is the
/// sign-in, or the error where the sign-in cannot begin. With a holder it is
/// what the holder's token asks for.
pub open spec fn step_is<K: Identity>(
    holders: Map<K::Id, SessionState>,
    key: K,
    now: u64,
    step: TokenStep,
) -> bool {
    if !holders.contains_key(key.id()) {
        if endpoints_parse(key.tenant_text()) {
            step matches TokenStep::SignIn(flow) && flow_is_for(
                flow,
                key.tenant_text(),
                key.client_text(),
                key.scope_set(),
            )
        } else {
            step == TokenStep::Failed(TokenError::Config(ConfigError::MalformedEndpoint))
        }
    } else {
        match plan_for(holders[key.id()], now) {
            RefreshPlan::Fresh => step matches TokenStep::Ready(token) && token@
                == holders[key.id()].token.access_token@,
            RefreshPlan::Exchange { refresh_token } => step == (TokenStep::Exchange {
                refresh_token,
            }),
            RefreshPlan::Unavailable => step == TokenStep::Failed(
                TokenError::Auth(AuthError::NoRefreshToken),
            ),
        }
    }
}

struct Entry<K> {
    key: K,
    session: Session,
}

/// Maps each identity to its token holder.
pub struct SessionCache<K: Identity> {
    entries: Vec<Entry<K>>,
}

impl<K: Identity> SessionCache<K> {
    #[verifier::type_invariant]
    spec fn distinct(self) -> bool {
        forall|i: int, j: int|
            0 <= i < self.entries.len() && 0 <= j < self.entries.len() && i != j
                ==> self.entries[i].key.id() != self.entries[j].key.id()
    }

    spec fn index_of(self, id: K::Id) -> int {
        choose|i: int| 0 <= i < self.entries.len() && self.entries[i].key.id() == id
    }

    spec fn holds(self, id: K::Id) -> bool {
        exists|i: int| 0 <= i < self.entries.len() && self.entries[i].key.id() == id
    }

    /// The holders by the identities that they belong to.
    pub closed spec fn view(&self) -> Map<K::Id, SessionState> {
        Map::new(|id: K::Id| self.holds(id), |id: K::Id| self.entries[self.index_of(id)].session@)
    }

    /// An empty cache.
    pub fn new() -> (cache: Self)
        ensures
            cache@ == Map::<K::Id, SessionState>::empty(),
    {
        SessionCache { entries: Vec::new() }
    }

    /// The number of holders.
    pub fn len(&self) -> (n: usize)
        ensures
            n == self@.dom().len(),
            self@.dom().finite(),
    {
        proof {
            use_type_invariant(self);
            self.lemma_domain(self.entries.len() as int);
            assert(self.ids_below(self.entries.len() as int) =~= self@.dom());
        }
        self.entries.len()
    }

    spec fn ids_below(self, n: int) -> Set<K::Id> {
        Set::new(|id: K::Id| exists|i: int| 0 <= i < n && self.entries[i].key.id() == id)
    }

    proof fn lemma_domain(self, n: int)
        requires
            self.distinct(),
            0 <= n <= self.entries.len(),
        ensures
            self.ids_below(n).finite(),
            self.ids_below(n).len() == n,
        decreases n,
    {
        if n == 0 {
            assert(self.ids_below(0) =~= Set::<K::Id>::empty());
        } else {
            self.lemma_domain(n - 1);
            let last = self.entries[n - 1].key.id();
            assert(self.ids_below(n) =~= self.ids_below(n - 1).insert(last));
        }
    }

    fn position(&self, key: &K) -> (r: Option<usize>)
        ensures
            r matches Some(i) ==> i < self.entries.len() && self.entries[i as int].key.id()
                == key.id() && self.index_of(key.id()) == i,
            r is Some <==> self.holds(key.id()),
    {
        proof {
            use_type_invariant(self);
        }
        let mut i: usize = 0;
        while i < self.entries.len()
            invariant
                self.distinct(),
                i <= self.entries.len(),
                forall|k: int| 0 <= k < i ==> self.entries[k].key.id() != key.id(),
            decreases self.entries.len() - i,
        {
            if self.entries[i].key.same_as(key) {
                return Some(i);
            }
            i = i + 1;
        }
        None
    }

    fn take_entries(&mut self) -> (entries: Vec<Entry<K>>)
        ensures
            entries == old(self).entries,
            final(self).entries@.len() == 0,
    {
        let mut taken = SessionCache { entries: Vec::new() };
        core::mem::swap(self, &mut taken);
        taken.entries
    }

    proof fn lemma_replaced(before: Self, after: Self, i: int)
        requires
            before.distinct(),
            0 <= i < before.entries.len(),
            after.entries.len() == before.entries.len(),
            forall|k: int|
                0 <= k < before.entries.len() ==> after.entries[k].key.id()
                    == before.entries[k].key.id(),
            forall|k: int|
                0 <= k < before.entries.len() && k != i ==> after.entries[k].session@
                    == before.entries[k].session@,
        ensures
            after.distinct(),
            after@ == before@.insert(before.entries[i].key.id(), after.entries[i].session@),
    {
    }

    /// Whether the identity has a holder.
    pub fn contains_key(&self, key: &K) -> (r: bool)
        ensures
            r == self@.contains_key(key.id()),
    {
        self.position(key).is_some()
    }

    /// The holder of the identity.
    pub fn get(&self, key: &K) -> (r: Option<&Session>)
        ensures
            r is Some <==> self@.contains_key(key.id()),
            r matches Some(session) ==> session@ == self@[key.id()],
    {
        match self.position(key) {
            Some(i) => Some(&self.entries[i].session),
            None => None,
        }
    }

    /// Gives the identity a holder unless it has one: the first holder of an
    /// identity stays. Says whether the holder went in.
    pub fn insert_if_absent(&mut self, key: K, session: Session) -> (inserted: bool)
        ensures
            inserted == !old(self)@.contains_key(key.id()),
            inserted ==> final(self)@ == old(self)@.insert(key.id(), session@),
            !inserted ==> final(self)@ == old(self)@,
    {
        proof {
            use_type_invariant(&*self);
        }
        if self.position(&key).is_some() {
            return false;
        }
        let ghost before = *self;
        let ghost id = key.id();
        let mut entries = self.take_entries();
        entries.push(Entry { key, session });
        *self = SessionCache { entries };
        proof {
            let after = *self;
            assert forall|other: K::Id| after.holds(other) <==> (other == id || before.holds(
                other,
            )) by {
                if before.holds(other) {
                    let i = before.index_of(other);
                    assert(after.entries[i].key.id() == other);
                }
                if other == id {
                    assert(after.entries[before.entries.len() as int].key.id() == id);
                }
            }
        }
        true
    }
}

impl<K: Identity> SessionCache<K> {
    /// Takes what the exchange of the refresh token of an identity's holder
    /// brought, at `now`, as [`Session::complete_refresh`] does. Without a
    /// holder nothing is done and nothing is told.
    pub fn complete_refresh(&mut self, key: &K, outcome: ExchangeOutcome, now: u64) -> (r: Option<
        Result<(), AuthError>,
    >)
        ensures
            !old(self)@.contains_key(key.id()) ==> r is None && final(self)@ == old(self)@,
            old(self)@.contains_key(key.id()) ==> {
                let then = crate::client::auth::after_exchange(old(self)@[key.id()], outcome, now);
                r == Some(then.1) && final(self)@ == old(self)@.insert(key.id(), then.0)
            },
    {
        proof {
            use_type_invariant(&*self);
        }
        match self.position(key) {
            None => None,
            Some(i) => {
                let ghost before = *self;
                let mut entries = self.take_entries();
                let mut entry = entries.remove(i);
                let told = entry.session.complete_refresh(outcome, now);
                entries.insert(i, entry);
                proof {
                    let after = SessionCache { entries };
                    Self::lemma_replaced(before, after, i as int);
                }
                *self = SessionCache { entries };
                Some(told)
            },
        }
    }

    /// What is to be done next for the token of an identity at `now`. The
    /// cache stays as it is.
    pub fn next_step(&self, key: &K, now: u64) -> (step: TokenStep)
        ensures
            step_is(self@, *key, now, step),
    {
        match self.get(key) {
            None => match key.begin_flow() {
                Ok(flow) => TokenStep::SignIn(flow),
                Err(e) => TokenStep::Failed(TokenError::Config(e)),
            },
            Some(session) => match session.plan_refresh(now) {
                RefreshPlan::Fresh => TokenStep::Ready(String::from_str(session.access_token())),
                RefreshPlan::Exchange { refresh_token } => TokenStep::Exchange { refresh_token },
                RefreshPlan::Unavailable => TokenStep::Failed(
                    TokenError::Auth(AuthError::NoRefreshToken),
                ),
            },
        }
    }

    /// The access token of an identity that has a holder, good for use at
    /// `now`: the holder is made fresh by `exchange`, as in
    /// [`Session::ensure_fresh`]. Without a holder nothing is done. `exchange`
    /// can be called only with the refresh token of a holder that is due.
    pub fn held_token<X: FnOnce(String) -> ExchangeOutcome>(
        &mut self,
        key: &K,
        now: u64,
        exchange: X,
    ) -> (r: Option<Result<String, TokenError>>)
        requires
            old(self)@.contains_key(key.id()) ==> can_exchange(
                old(self)@[key.id()],
                now,
                exchange,
            ),
        ensures
            r is Some <==> old(self)@.contains_key(key.id()),
            r is None ==> final(self)@ == old(self)@,
            r matches Some(told) ==> served(
                old(self)@,
                final(self)@,
                key.id(),
                old(self)@[key.id()],
                told,
                now,
                exchange,
            ),
    {
        proof {
            use_type_invariant(&*self);
        }
        match self.position(key) {
            None => None,
            Some(i) => {
                let ghost before = *self;
                let mut entries = self.take_entries();
                let mut entry = entries.remove(i);
                let told = entry.session.secret(now, exchange);
                entries.insert(i, entry);
                proof {
                    let after = SessionCache { entries };
                    Self::lemma_replaced(before, after, i as int);
                }
                *self = SessionCache { entries };
                let r = match told {
                    Ok(secret) => Ok(secret),
                    Err(e) => Err(TokenError::Auth(e)),
                };
                Some(r)
            },
        }
    }

    /// The access token of an identity, good for use at `now`. The holder of
    /// the identity is found or, by `establish`, made; then it is made fresh by
    /// `exchange`, as in [`Session::ensure_fresh`], and its access token is
    /// handed out. A holder that was made stays in the cache, also where
    /// making it fresh failed. Of the closures only what [`can_serve`] says is
    /// asked: for an identity that has a holder `establish` cannot be called,
    /// so nobody is signed in twice; and `exchange` can be called only with
    /// the refresh token of a holder that is due.
    pub fn get_token<
        E: FnOnce(DeviceFlow) -> Result<Session, AuthError>,
        X: FnOnce(String) -> ExchangeOutcome,
    >(&mut self, key: &K, now: u64, establish: E, exchange: X) -> (r: Result<String, TokenError>)
        requires
            can_serve(
                old(self)@,
                key.id(),
                key.tenant_text(),
                key.client_text(),
                key.scope_set(),
                now,
                establish,
                exchange,
            ),
        ensures
            token_served(old(self)@, final(self)@, *key, r, now, establish, exchange),
    {
        if self.contains_key(key) {
            match self.held_token(key, now, exchange) {
                Some(told) => told,
                None => Err(TokenError::Auth(AuthError::NetworkFailure)),
            }
        } else {
            match key.begin_flow() {
                Err(e) => Err(TokenError::Config(e)),
                Ok(flow) => {
                    let established = establish(flow);
                    match established {
                        Err(e) => Err(TokenError::Auth(e)),
                        Ok(mut session) => {
                            let told = session.secret(now, exchange);
                            self.insert_if_absent(key.duplicate(), session);
                            match told {
                                Ok(secret) => Ok(secret),
                                Err(e) => Err(TokenError::Auth(e)),
                            }
                        },
                    }
                },
            }
        }
    }
}

/// A call for the token of one identity leaves the holders of all others as
/// they were.
pub proof fn lemma_other_holders_untouched<
    K: Identity,
    E: FnOnce(DeviceFlow) -> Result<Session, AuthError>,
    X: FnOnce(String) -> ExchangeOutcome,
>(
    before: Map<K::Id, SessionState>,
    after: Map<K::Id, SessionState>,
    key: K,
    other: K::Id,
    r: Result<String, TokenError>,
    now: u64,
    establish: E,
    exchange: X,
)
    requires
        token_served(before, after, key, r, now, establish, exchange),
        other != key.id(),
    ensures
        after.contains_key(other) == before.contains_key(other),
        before.contains_key(other) ==> after[other] == before[other],
{
}

/// A call for a token takes no holder away.
pub proof fn lemma_holders_stay<
    K: Identity,
    E: FnOnce(DeviceFlow) -> Result<Session, AuthError>,
    X: FnOnce(String) -> ExchangeOutcome,
>(
    before: Map<K::Id, SessionState>,
    after: Map<K::Id, SessionState>,
    key: K,
    r: Result<String, TokenError>,
    now: u64,
    establish: E,
    exchange: X,
)
    requires
        token_served(before, after, key, r, now, establish, exchange),
    ensures
        forall|id: K::Id| before.contains_key(id) ==> after.contains_key(id),
{
}

/// An identity that has a holder is served from that holder: no sign-in is
/// begun for it, and no holder is added to the cache.
pub proof fn lemma_holder_is_reused<
    K: Identity,
    E: FnOnce(DeviceFlow) -> Result<Session, AuthError>,
    X: FnOnce(String) -> ExchangeOutcome,
>(
    before: Map<K::Id, SessionState>,
    after: Map<K::Id, SessionState>,
    key: K,
    r: Result<String, TokenError>,
    now: u64,
    establish: E,
    exchange: X,
)
    requires
        token_served(before, after, key, r, now, establish, exchange),
        before.contains_key(key.id()),
    ensures
        served(before, after, key.id(), before[key.id()], r, now, exchange),
        after.dom() == before.dom(),
{
}

/// An identity that was handed a token has a holder from then on, so that the
/// next call for it finds that holder.
pub proof fn lemma_served_identity_has_holder<
    K: Identity,
    E: FnOnce(DeviceFlow) -> Result<Session, AuthError>,
    X: FnOnce(String) -> ExchangeOutcome,
>(
    before: Map<K::Id, SessionState>,
    after: Map<K::Id, SessionState>,
    key: K,
    r: Result<String, TokenError>,
    now: u64,
    establish: E,
    exchange: X,
)
    requires
        token_served(before, after, key, r, now, establish, exchange),
        r is Ok,
    ensures
        after.contains_key(key.id()),
        after.dom() == before.dom().insert(key.id()),
{
}

/// Of two calls for the token of one identity that are taken in turn, only
/// the first can sign in: once a call has handed out a token, the next call
/// for the same identity is served from the holder that is there, whatever
/// its own sign-in would bring, and adds no holder.
pub proof fn lemma_one_sign_in_for_calls_in_turn<
    K: Identity,
    E1: FnOnce(DeviceFlow) -> Result<Session, AuthError>,
    X1: FnOnce(String) -> ExchangeOutcome,
    E2: FnOnce(DeviceFlow) -> Result<Session, AuthError>,
    X2: FnOnce(String) -> ExchangeOutcome,
>(
    start: Map<K::Id, SessionState>,
    between: Map<K::Id, SessionState>,
    end: Map<K::Id, SessionState>,
    first: K,
    second: K,
    first_told: Result<String, TokenError>,
    second_told: Result<String, TokenError>,
    first_now: u64,
    second_now: u64,
    first_establish: E1,
    first_exchange: X1,
    second_establish: E2,
    second_exchange: X2,
)
    requires
        first.id() == second.id(),
        token_served(start, between, first, first_told, first_now, first_establish, first_exchange),
        first_told is Ok,
        token_served(
            between,
            end,
            second,
            second_told,
            second_now,
            second_establish,
            second_exchange,
        ),
    ensures
        between.dom() == start.dom().insert(first.id()),
        served(
            between,
            end,
            second.id(),
            between[second.id()],
            second_told,
            second_now,
            second_exchange,
        ),
        end.dom() == between.dom(),
{
    lemma_served_identity_has_holder(
        start,
        between,
        first,
        first_told,
        first_now,
        first_establish,
        first_exchange,
    );
    lemma_holder_is_reused(
        between,
        end,
        second,
        second_told,
        second_now,
        second_establish,
        second_exchange,
    );
}

} // verus!
