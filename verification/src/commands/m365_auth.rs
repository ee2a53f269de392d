//! The command that signs the sessions of a run in.

use crate::auth::{AuthScope, AuthScopeView, Session, SessionStore};
use crate::azure::common::CommandError;
use crate::cache::{can_serve, lemma_other_holders_untouched, token_served, TokenError};
use crate::azure::output::{field_views, Field, FieldValue, FieldValueView, FieldView};
use crate::client::auth::{ExchangeOutcome, SessionState};
use crate::error::AuthError;
use crate::oauth::DeviceFlow;
use crate::text::{clone_strings, join2, str_eq, views};
use crate::types::json::JsonNumber;
use vstd::prelude::*;
use vstd::string::*;

verus! {

/// A value of an attribute of a command.
#[derive(Debug)]
pub enum AttributeValue {
    Null,
    Bool(bool),
    Number(JsonNumber),
    String(String),
    Array(Vec<AttributeValue>),
    /// An object: its members by their names, in the order in which they
    /// were given.
    Object(Vec<(String, AttributeValue)>),
}

/// Why the attributes name no sessions.
#[derive(Debug, Clone, Copy, PartialEq, Eq, Structural)]
pub enum AttributeError {
    MissingSessions,
    SessionsNotAnArray,
    SessionNotAnObject,
    MissingClientId,
    MissingTenantId,
    MissingScopes,
    ScopesNotAnArray,
    ScopeNotAString,
}

impl AttributeError {
    /// What the error says.
    pub open spec fn text(self) -> Seq<char> {
        match self {
            AttributeError::MissingSessions => "Missing required attribute: sessions"@,
            AttributeError::SessionsNotAnArray => "sessions must be an array"@,
            AttributeError::SessionNotAnObject => "Each session must be an object"@,
            AttributeError::MissingClientId => "Missing client_id in session"@,
            AttributeError::MissingTenantId => "Missing tenant_id in session"@,
            AttributeError::MissingScopes => "Missing scopes in session"@,
            AttributeError::ScopesNotAnArray => "scopes must be an array"@,
            AttributeError::ScopeNotAString => "scope must be a string"@,
        }
    }

    /// What the error says.
    pub fn message(&self) -> (text: String)
        ensures
            text@ == self.text(),
    {
        match self {
            AttributeError::MissingSessions => String::from_str(
                "Missing required attribute: sessions",
            ),
            AttributeError::SessionsNotAnArray => String::from_str("sessions must be an array"),
            AttributeError::SessionNotAnObject => String::from_str(
                "Each session must be an object",
            ),
            AttributeError::MissingClientId => String::from_str("Missing client_id in session"),
            AttributeError::MissingTenantId => String::from_str("Missing tenant_id in session"),
            AttributeError::MissingScopes => String::from_str("Missing scopes in session"),
            AttributeError::ScopesNotAnArray => String::from_str("scopes must be an array"),
            AttributeError::ScopeNotAString => String::from_str("scope must be a string"),
        }
    }
}

/// The index of the first member of the given name.
pub open spec fn member_index(members: Seq<(String, AttributeValue)>, name: Seq<char>) -> Option<
    int,
>
    decreases members.len(),
{
    if members.len() == 0 {
        None
    } else if members[0].0@ == name {
        Some(0)
    } else {
        match member_index(members.drop_first(), name) {
            Some(i) => Some(i + 1),
            None => None,
        }
    }
}

/// The first member of the given name.
pub open spec fn member(members: Seq<(String, AttributeValue)>, name: Seq<char>) -> Option<
    AttributeValue,
> {
    match member_index(members, name) {
        Some(i) => Some(members[i].1),
        None => None,
    }
}

/// A prefix without a member of the name, followed by one, finds that one.
pub proof fn lemma_member_index_is(
    members: Seq<(String, AttributeValue)>,
    name: Seq<char>,
    at: int,
)
    requires
        0 <= at <= members.len(),
        forall|i: int| 0 <= i < at ==> (#[trigger] members[i]).0@ != name,
        at < members.len() ==> members[at].0@ == name,
    ensures
        member_index(members, name) == if at < members.len() {
            Some(at)
        } else {
            None::<int>
        },
    decreases at,
{
    if at > 0 {
        let rest = members.drop_first();
        lemma_member_index_is(rest, name, at - 1);
    }
}

/// The first member of the given name.
pub fn lookup<'a>(members: &'a Vec<(String, AttributeValue)>, name: &str) -> (value: Option<
    &'a AttributeValue,
>)
    ensures
        match member(members@, name@) {
            Some(v) => value == Some(&v),
            None => value is None,
        },
{
    let mut i: usize = 0;
    while i < members.len()
        invariant
            i <= members.len(),
            forall|k: int| 0 <= k < i ==> (#[trigger] members@[k]).0@ != name@,
        decreases members.len() - i,
    {
        if str_eq(members[i].0.as_str(), name) {
            proof {
                lemma_member_index_is(members@, name@, i as int);
            }
            return Some(&members[i].1);
        }
        i = i + 1;
    }
    proof {
        lemma_member_index_is(members@, name@, i as int);
    }
    None
}

/// What a session is signed in with.
#[derive(Debug)]
pub struct SessionConfig {
    pub client_id: String,
    pub tenant_id: String,
    pub scopes: Vec<String>,
}

/// A text that a member holds, where the member is there and holds a text.
pub open spec fn text_member(members: Seq<(String, AttributeValue)>, name: Seq<char>) -> Option<
    String,
> {
    match member(members, name) {
        Some(AttributeValue::String(text)) => Some(text),
        _ => None,
    }
}

/// The scopes that the values of an array name: the texts, where all are
/// texts.
pub open spec fn scopes_named(values: Seq<AttributeValue>) -> Option<Seq<String>>
    decreases values.len(),
{
    if values.len() == 0 {
        Some(Seq::empty())
    } else {
        match scopes_named(values.drop_last()) {
            None => None,
            Some(before) => match values.last() {
                AttributeValue::String(text) => Some(before.push(text)),
                _ => None,
            },
        }
    }
}

/// What a value names as a session: an object with a client and a tenant
/// that are texts and with scopes that are an array of texts. The first thing
/// amiss, in that order, is the error.
pub open spec fn session_named(value: AttributeValue) -> Result<
    (String, String, Seq<String>),
    AttributeError,
> {
    match value {
        AttributeValue::Object(members) => match text_member(members@, "client_id"@) {
            None => Err(AttributeError::MissingClientId),
            Some(client_id) => match text_member(members@, "tenant_id"@) {
                None => Err(AttributeError::MissingTenantId),
                Some(tenant_id) => match member(members@, "scopes"@) {
                    None => Err(AttributeError::MissingScopes),
                    Some(AttributeValue::Array(values)) => match scopes_named(values@) {
                        Some(scopes) => Ok((client_id, tenant_id, scopes)),
                        None => Err(AttributeError::ScopeNotAString),
                    },
                    Some(_) => Err(AttributeError::ScopesNotAnArray),
                },
            },
        },
        _ => Err(AttributeError::SessionNotAnObject),
    }
}

/// A session configuration holds what a value names.
pub open spec fn config_is(config: SessionConfig, named: (String, String, Seq<String>)) -> bool {
    config.client_id == named.0 && config.tenant_id == named.1 && config.scopes@ == named.2
}

/// The sessions that the values of an array name, up to the first that names
/// none, whose error it is.
pub open spec fn sessions_named(values: Seq<AttributeValue>) -> Result<
    Seq<(String, String, Seq<String>)>,
    AttributeError,
>
    decreases values.len(),
{
    if values.len() == 0 {
        Ok(Seq::empty())
    } else {
        match sessions_named(values.drop_last()) {
            Err(e) => Err(e),
            Ok(before) => match session_named(values.last()) {
                Err(e) => Err(e),
                Ok(session) => Ok(before.push(session)),
            },
        }
    }
}

/// What the attributes of the command name: the sessions of the array
/// `sessions`.
pub open spec fn command_named(attributes: Seq<(String, AttributeValue)>) -> Result<
    Seq<(String, String, Seq<String>)>,
    AttributeError,
> {
    match member(attributes, "sessions"@) {
        None => Err(AttributeError::MissingSessions),
        Some(AttributeValue::Array(values)) => sessions_named(values@),
        Some(_) => Err(AttributeError::SessionsNotAnArray),
    }
}

/// The configurations hold what the values name, one by one.
pub open spec fn configs_are(
    configs: Seq<SessionConfig>,
    named: Seq<(String, String, Seq<String>)>,
) -> bool {
    configs.len() == named.len() && forall|i: int|
        0 <= i < configs.len() ==> config_is(#[trigger] configs[i], named[i])
}

fn read_text<'a>(members: &'a Vec<(String, AttributeValue)>, name: &str) -> (text: Option<
    &'a String,
>)
    ensures
        match text_member(members@, name@) {
            Some(t) => text == Some(&t),
            None => text is None,
        },
{
    match lookup(members, name) {
        Some(AttributeValue::String(text)) => Some(text),
        _ => None,
    }
}

fn read_scopes(values: &Vec<AttributeValue>) -> (scopes: Option<Vec<String>>)
    ensures
        match scopes_named(values@) {
            Some(named) => scopes matches Some(v) && v@ == named,
            None => scopes is None,
        },
{
    let mut scopes: Vec<String> = Vec::new();
    let mut i: usize = 0;
    while i < values.len()
        invariant
            i <= values.len(),
            scopes_named(values@.take(i as int)) == Some(scopes@),
        decreases values.len() - i,
    {
        proof {
            let upto = values@.take(i + 1);
            assert(upto.drop_last() =~= values@.take(i as int));
        }
        match &values[i] {
            AttributeValue::String(text) => {
                scopes.push(text.clone());
            },
            _ => {
                proof {
                    lemma_scopes_stay_unnamed(values@, i + 1);
                }
                return None;
            },
        }
        i = i + 1;
    }
    assert(values@.take(values.len() as int) =~= values@);
    Some(scopes)
}

/// Scopes that a prefix does not name, the whole does not name.
pub proof fn lemma_scopes_stay_unnamed(values: Seq<AttributeValue>, upto: int)
    requires
        0 <= upto <= values.len(),
        scopes_named(values.take(upto)) is None,
    ensures
        scopes_named(values) is None,
    decreases values.len() - upto,
{
    if upto < values.len() {
        let next = values.take(upto + 1);
        assert(next.drop_last() =~= values.take(upto));
        lemma_scopes_stay_unnamed(values, upto + 1);
    } else {
        assert(values.take(upto) =~= values);
    }
}

/// An error in a prefix of the sessions is the error of the whole.
pub proof fn lemma_sessions_stay_unnamed(values: Seq<AttributeValue>, upto: int)
    requires
        0 <= upto <= values.len(),
        sessions_named(values.take(upto)) is Err,
    ensures
        sessions_named(values) == sessions_named(values.take(upto)),
    decreases values.len() - upto,
{
    if upto < values.len() {
        let next = values.take(upto + 1);
        assert(next.drop_last() =~= values.take(upto));
        lemma_sessions_stay_unnamed(values, upto + 1);
    } else {
        assert(values.take(upto) =~= values);
    }
}

fn read_session(value: &AttributeValue) -> (r: Result<SessionConfig, AttributeError>)
    ensures
        match session_named(*value) {
            Ok(named) => r matches Ok(config) && config_is(config, named),
            Err(e) => r matches Err(told) && told == e,
        },
{
    let members = match value {
        AttributeValue::Object(members) => members,
        _ => {
            return Err(AttributeError::SessionNotAnObject);
        },
    };
    let client_id = match read_text(members, "client_id") {
        Some(text) => text.clone(),
        None => {
            return Err(AttributeError::MissingClientId);
        },
    };
    let tenant_id = match read_text(members, "tenant_id") {
        Some(text) => text.clone(),
        None => {
            return Err(AttributeError::MissingTenantId);
        },
    };
    let values = match lookup(members, "scopes") {
        None => {
            return Err(AttributeError::MissingScopes);
        },
        Some(AttributeValue::Array(values)) => values,
        Some(_) => {
            return Err(AttributeError::ScopesNotAnArray);
        },
    };
    match read_scopes(values) {
        Some(scopes) => Ok(SessionConfig { client_id, tenant_id, scopes }),
        None => Err(AttributeError::ScopeNotAString),
    }
}

/// Signs the sessions of a run in.
#[derive(Debug)]
pub struct M365AuthCommand {
    sessions: Vec<SessionConfig>,
}

impl M365AuthCommand {
    /// The sessions that the command signs in.
    pub closed spec fn configs(&self) -> Seq<SessionConfig> {
        self.sessions@
    }

    /// The sessions that the command signs in.
    pub fn sessions(&self) -> (sessions: &Vec<SessionConfig>)
        ensures
            sessions@ == self.configs(),
    {
        &self.sessions
    }

    /// The command for the attributes given: the sessions that the array
    /// `sessions` names, or the error of the first thing amiss.
    #[verifier::loop_isolation(false)]
    pub fn from_attributes(attributes: &Vec<(String, AttributeValue)>) -> (r: Result<
        Self,
        AttributeError,
    >)
        ensures
            match command_named(attributes@) {
                Ok(named) => r matches Ok(command) && configs_are(command.configs(), named),
                Err(e) => r matches Err(told) && told == e,
            },
    {
        let values = match lookup(attributes, "sessions") {
            None => {
                return Err(AttributeError::MissingSessions);
            },
            Some(AttributeValue::Array(values)) => values,
            Some(_) => {
                return Err(AttributeError::SessionsNotAnArray);
            },
        };
        let mut sessions: Vec<SessionConfig> = Vec::new();
        let mut i: usize = 0;
        while i < values.len()
            invariant
                i <= values.len(),
                sessions_named(values@.take(i as int)) matches Ok(named) && configs_are(
                    sessions@,
                    named,
                ),
            decreases values.len() - i,
        {
            proof {
                let upto = values@.take(i + 1);
                assert(upto.drop_last() =~= values@.take(i as int));
            }
            match read_session(&values[i]) {
                Ok(config) => {
                    sessions.push(config);
                },
                Err(e) => {
                    proof {
                        lemma_sessions_stay_unnamed(values@, i + 1);
                    }
                    return Err(e);
                },
            }
            i = i + 1;
        }
        assert(values@.take(values.len() as int) =~= values@);
        Ok(M365AuthCommand { sessions })
    }
}

/// What the user is told before a session is signed in.
pub open spec fn announcement_of(tenant_id: Seq<char>, client_id: Seq<char>) -> Seq<char> {
    "Initializing session for tenant: "@ + tenant_id + ", client: "@ + client_id
}

/// The identity of the session of a configuration.
pub open spec fn identity_of(config: SessionConfig) -> AuthScopeView {
    AuthScopeView {
        client_id: config.client_id@,
        tenant_id: config.tenant_id@,
        scopes: views(config.scopes@).to_set(),
    }
}

/// What the command reports: the number of sessions that were signed in.
pub open spec fn initialized_fields(count: u64) -> Seq<FieldView> {
    seq![FieldView { name: "sessions_initialized"@, value: FieldValueView::Unsigned(count) }]
}

/// The holders of a store, none where there is no store.
pub open spec fn holders(store: Option<SessionStore>) -> Map<AuthScopeView, SessionState> {
    match store {
        Some(s) => s@,
        None => Map::empty(),
    }
}

/// None of the configurations is for the identity.
pub open spec fn named_by_none(configs: Seq<SessionConfig>, id: AuthScopeView) -> bool {
    forall|i: int| 0 <= i < configs.len() ==> identity_of(#[trigger] configs[i]) != id
}

/// None of the configurations before place `upto` is for the identity.
pub open spec fn not_named_before(configs: Seq<SessionConfig>, upto: int, id: AuthScopeView) -> bool {
    forall|k: int| 0 <= k < upto ==> identity_of(#[trigger] configs[k]) != id
}

/// The configuration at place `i` is the first for its identity.
pub open spec fn first_of_its_identity(configs: Seq<SessionConfig>, i: int) -> bool {
    not_named_before(configs, i, identity_of(configs[i]))
}

/// Two of the configurations are for one identity.
pub open spec fn has_repeats(configs: Seq<SessionConfig>) -> bool {
    exists|i: int| 0 <= i < configs.len() && !#[trigger] first_of_its_identity(configs, i)
}

/// The text is what the user is told of one of the sessions.
pub open spec fn announces(configs: Seq<SessionConfig>, text: Seq<char>) -> bool {
    exists|i: int|
        0 <= i < configs.len() && text == announcement_of(
            (#[trigger] configs[i]).tenant_id@,
            configs[i].client_id@,
        )
}

/// The closures can be called with what the sign-in of the session of a
/// configuration hands them, as [`can_serve`] says, when the holders are
/// `holders`.
pub open spec fn session_can_be_served<
    E: FnOnce(DeviceFlow) -> Result<Session, AuthError>,
    X: FnOnce(String) -> ExchangeOutcome,
>(
    config: SessionConfig,
    holders: Map<AuthScopeView, SessionState>,
    now: u64,
    establish: E,
    exchange: X,
) -> bool {
    can_serve(
        holders,
        identity_of(config),
        config.tenant_id@,
        config.client_id@,
        views(config.scopes@).to_set(),
        now,
        establish,
        exchange,
    )
}

/// The closures can be called with what a run of the command hands them, and
/// no more is asked of them. `notify` is called with the texts of the
/// sessions. For each identity, the closures of the sign-in are called as the
/// holders before the run ask: for an identity that has a holder nobody is
/// signed in. Only where two sessions are for one identity, the second finds
/// the holder as the first left it, and `exchange` must take whatever refresh
/// token that holder has.
pub open spec fn run_can_be_made<
    E: FnOnce(DeviceFlow) -> Result<Session, AuthError>,
    X: FnOnce(String) -> ExchangeOutcome,
    N: Fn(String) -> bool,
>(
    configs: Seq<SessionConfig>,
    start: Map<AuthScopeView, SessionState>,
    now: u64,
    establish: E,
    exchange: X,
    notify: N,
) -> bool {
    &&& forall|text: String|
        announces(configs, text@) ==> #[trigger] call_requires(notify, (text,))
    &&& forall|i: int|
        0 <= i < configs.len() && first_of_its_identity(configs, i)
            ==> #[trigger] session_can_be_served(configs[i], start, now, establish, exchange)
    &&& has_repeats(configs) ==> forall|refresh_token: String|
        call_requires(exchange, (refresh_token,))
}

/// The user was told of the session of a configuration through `notify`,
/// which said whether the text was delivered.
pub open spec fn announced<N: Fn(String) -> bool>(
    config: SessionConfig,
    notify: N,
    delivered: bool,
) -> bool {
    exists|text: String|
        #![trigger call_ensures(notify, (text,), delivered)]
        text@ == announcement_of(config.tenant_id@, config.client_id@) && call_ensures(
            notify,
            (text,),
            delivered,
        )
}

/// The store was asked for the token of the session of a configuration, as
/// [`SessionStore::get_secret`] says: `before` and `after` are the holders
/// around the call, `served` is what it handed out.
pub open spec fn session_served<
    E: FnOnce(DeviceFlow) -> Result<Session, AuthError>,
    X: FnOnce(String) -> ExchangeOutcome,
>(
    config: SessionConfig,
    before: Map<AuthScopeView, SessionState>,
    after: Map<AuthScopeView, SessionState>,
    served: Result<String, TokenError>,
    now: u64,
    establish: E,
    exchange: X,
) -> bool {
    exists|scope: AuthScope|
        #![trigger token_served(before, after, scope, served, now, establish, exchange)]
        {
            &&& scope.client_id@ == config.client_id@
            &&& scope.tenant_id@ == config.tenant_id@
            &&& scope.scopes@ == config.scopes@
            &&& token_served(before, after, scope, served, now, establish, exchange)
        }
}

/// The first `count` sessions were signed in, in their order, which took the
/// holders from `start` to `end`: of each the user was told, the text was
/// delivered, and the store handed out a token.
pub open spec fn signed_in<
    E: FnOnce(DeviceFlow) -> Result<Session, AuthError>,
    X: FnOnce(String) -> ExchangeOutcome,
    N: Fn(String) -> bool,
>(
    configs: Seq<SessionConfig>,
    count: int,
    start: Map<AuthScopeView, SessionState>,
    end: Map<AuthScopeView, SessionState>,
    now: u64,
    establish: E,
    exchange: X,
    notify: N,
) -> bool
    decreases count,
{
    if count <= 0 {
        end == start
    } else {
        exists|mid: Map<AuthScopeView, SessionState>, token: String|
            #![trigger session_served(configs[count - 1], mid, end, Ok::<String, TokenError>(token), now, establish, exchange)]
            {
                &&& signed_in(configs, count - 1, start, mid, now, establish, exchange, notify)
                &&& announced(configs[count - 1], notify, true)
                &&& session_served(
                    configs[count - 1],
                    mid,
                    end,
                    Ok::<String, TokenError>(token),
                    now,
                    establish,
                    exchange,
                )
            }
    }
}

/// The run stopped at the session of a configuration, which took the holders
/// from `before` to `after`. Either the text for the user was not delivered:
/// then the store was not asked, and the error says so. Or it was delivered
/// and the store handed out no token: then the error names the tenant and
/// carries the error of the store as it came.
pub open spec fn stopped_at<
    E: FnOnce(DeviceFlow) -> Result<Session, AuthError>,
    X: FnOnce(String) -> ExchangeOutcome,
    N: Fn(String) -> bool,
>(
    config: SessionConfig,
    before: Map<AuthScopeView, SessionState>,
    after: Map<AuthScopeView, SessionState>,
    e: CommandError,
    now: u64,
    establish: E,
    exchange: X,
    notify: N,
) -> bool {
    ||| announced(config, notify, false) && after == before && e == CommandError::Notify
    ||| announced(config, notify, true) && exists|cause: TokenError|
        #![trigger session_served(config, before, after, Err::<String, TokenError>(cause), now, establish, exchange)]
        {
            &&& session_served(
                config,
                before,
                after,
                Err::<String, TokenError>(cause),
                now,
                establish,
                exchange,
            )
            &&& session_failed(e, config.tenant_id@, cause)
        }
}

/// An error is that of a session of a tenant that could not be signed in,
/// with its cause.
pub open spec fn session_failed(e: CommandError, tenant: Seq<char>, cause: TokenError) -> bool {
    e matches CommandError::SessionFailed { tenant_id, cause: told } && tenant_id@ == tenant
        && told == cause
}

/// What the whole run of the command comes to: all sessions were signed in
/// and their number is reported; or the sessions before one were signed in
/// and the run stopped at that one.
pub open spec fn run_is<
    E: FnOnce(DeviceFlow) -> Result<Session, AuthError>,
    X: FnOnce(String) -> ExchangeOutcome,
    N: Fn(String) -> bool,
>(
    configs: Seq<SessionConfig>,
    start: Map<AuthScopeView, SessionState>,
    end: Map<AuthScopeView, SessionState>,
    r: Result<Vec<Field>, CommandError>,
    now: u64,
    establish: E,
    exchange: X,
    notify: N,
) -> bool {
    match r {
        Ok(fields) => field_views(fields@) == initialized_fields(configs.len() as u64)
            && signed_in(configs, configs.len() as int, start, end, now, establish, exchange, notify),
        Err(e) => exists|at: int, mid: Map<AuthScopeView, SessionState>|
            #![trigger signed_in(configs, at, start, mid, now, establish, exchange, notify)]
            {
                &&& 0 <= at < configs.len()
                &&& signed_in(configs, at, start, mid, now, establish, exchange, notify)
                &&& stopped_at(configs[at], mid, end, e, now, establish, exchange, notify)
            },
    }
}

impl SessionConfig {
    /// What the user is told before the session is signed in.
    pub fn announcement(&self) -> (text: String)
        ensures
            text@ == announcement_of(self.tenant_id@, self.client_id@),
    {
        join2("Initializing session for tenant: ", self.tenant_id.as_str()).concat(
            ", client: ",
        ).concat(self.client_id.as_str())
    }

    /// The scope by which the session is kept in the store.
    pub fn scope(&self) -> (scope: AuthScope)
        ensures
            scope@ == identity_of(*self),
            scope.scopes@ == self.scopes@,
            scope.client_id@ == self.client_id@,
            scope.tenant_id@ == self.tenant_id@,
    {
        AuthScope {
            client_id: self.client_id.clone(),
            tenant_id: self.tenant_id.clone(),
            scopes: clone_strings(&self.scopes),
        }
    }

    /// What the sign-in of the session comes to, by what the store handed
    /// out: a token is success; an error is handed on with the name of the
    /// tenant.
    pub fn outcome(&self, served: &Result<String, TokenError>) -> (r: Result<(), CommandError>)
        ensures
            r is Ok <==> served is Ok,
            *served matches Err(cause) ==> r matches Err(e) && session_failed(
                e,
                self.tenant_id@,
                cause,
            ),
    {
        match served {
            Ok(_) => Ok(()),
            Err(cause) => Err(
                CommandError::SessionFailed { tenant_id: self.tenant_id.clone(), cause: *cause },
            ),
        }
    }
}

impl M365AuthCommand {
    /// What the command reports.
    pub fn report(count: u64) -> (fields: Vec<Field>)
        ensures
            field_views(fields@) == initialized_fields(count),
    {
        let mut fields: Vec<Field> = Vec::new();
        fields.push(
            Field {
                name: String::from_str("sessions_initialized"),
                value: FieldValue::Unsigned(count),
            },
        );
        fields
    }

    /// Runs the command. A store is set up unless there is one. Then the
    /// sessions are signed in, in their order: the user is told of each
    /// through `notify`, and the store is asked for its token as
    /// [`SessionStore::get_secret`] says. The first session whose text is not
    /// delivered or that the store hands no token for ends the run with its
    /// error; those before it stay signed in. At the end the number of
    /// sessions is reported. The holders of identities that the command does
    /// not name stay as they were.
    #[verifier::loop_isolation(false)]
    pub fn execute<
        E: Fn(DeviceFlow) -> Result<Session, AuthError> + Copy,
        X: Fn(String) -> ExchangeOutcome + Copy,
        N: Fn(String) -> bool,
    >(
        &self,
        store: &mut Option<SessionStore>,
        now: u64,
        establish: E,
        exchange: X,
        notify: &N,
    ) -> (r: Result<Vec<Field>, CommandError>)
        requires
            run_can_be_made(
                self.configs(),
                holders(*old(store)),
                now,
                establish,
                exchange,
                *notify,
            ),
        ensures
            *final(store) is Some,
            run_is(
                self.configs(),
                holders(*old(store)),
                holders(*final(store)),
                r,
                now,
                establish,
                exchange,
                *notify,
            ),
            forall|id: AuthScopeView|
                holders(*old(store)).contains_key(id) ==> holders(*final(store)).contains_key(id),
            forall|id: AuthScopeView|
                holders(*old(store)).contains_key(id) && named_by_none(self.configs(), id)
                    ==> holders(*final(store))[id] == holders(*old(store))[id],
            r is Ok ==> forall|i: int|
                0 <= i < self.configs().len() ==> holders(*final(store)).contains_key(
                    identity_of(#[trigger] self.configs()[i]),
                ),
    {
        let mut held = match store.take() {
            Some(held) => held,
            None => SessionStore::default(),
        };
        let ghost start = held@;
        let mut count: u64 = 0;
        let mut i: usize = 0;
        while i < self.sessions.len()
            invariant
                i <= self.sessions.len(),
                count == i,
                *store is None,
                start == holders(*old(store)),
                run_can_be_made(self.configs(), start, now, establish, exchange, *notify),
                forall|id: AuthScopeView|
                    start.contains_key(id) && not_named_before(self.configs(), i as int, id)
                        ==> held@[id] == start[id],
                forall|id: AuthScopeView|
                    held@.contains_key(id) ==> start.contains_key(id) || !not_named_before(
                        self.configs(),
                        i as int,
                        id,
                    ),
                signed_in(
                    self.configs(),
                    i as int,
                    start,
                    held@,
                    now,
                    establish,
                    exchange,
                    *notify,
                ),
                forall|id: AuthScopeView| start.contains_key(id) ==> held@.contains_key(id),
                forall|id: AuthScopeView|
                    start.contains_key(id) && named_by_none(self.configs(), id) ==> held@[id]
                        == start[id],
                forall|k: int|
                    0 <= k < i ==> held@.contains_key(identity_of(#[trigger] self.sessions@[k])),
            decreases self.sessions.len() - i,
        {
            let config = &self.sessions[i];
            let ghost before = held@;
            let text = config.announcement();
            let ghost said = text;
            assert(announces(self.configs(), said@)) by {
                assert(self.configs()[i as int] == *config);
            }
            let delivered = notify(text);
            assert(call_ensures(*notify, (said,), delivered));
            assert(announced(*config, *notify, delivered));
            if !delivered {
                *store = Some(held);
                assert(stopped_at(
                    self.configs()[i as int],
                    before,
                    before,
                    CommandError::Notify,
                    now,
                    establish,
                    exchange,
                    *notify,
                ));
                return Err(CommandError::Notify);
            }
            let scope = config.scope();
            proof {
                let id = identity_of(*config);
                assert(self.configs()[i as int] == *config);
                if first_of_its_identity(self.configs(), i as int) {
                    assert(session_can_be_served(
                        self.configs()[i as int],
                        start,
                        now,
                        establish,
                        exchange,
                    ));
                } else {
                    assert(has_repeats(self.configs()));
                }
            }
            let served = held.get_secret(&scope, now, establish, exchange);
            proof {
                assert forall|id: AuthScopeView|
                    start.contains_key(id) && not_named_before(
                        self.configs(),
                        i + 1,
                        id,
                    ) implies held@[id] == start[id] by {
                    assert(identity_of(self.configs()[i as int]) != id);
                    assert(not_named_before(self.configs(), i as int, id));
                    lemma_other_holders_untouched(
                        before,
                        held@,
                        scope,
                        id,
                        served,
                        now,
                        establish,
                        exchange,
                    );
                }
                assert forall|id: AuthScopeView| held@.contains_key(id) implies start.contains_key(
                    id,
                ) || !not_named_before(self.configs(), i + 1, id) by {
                    if id != scope@ {
                        lemma_other_holders_untouched(
                            before,
                            held@,
                            scope,
                            id,
                            served,
                            now,
                            establish,
                            exchange,
                        );
                        if !start.contains_key(id) {
                            assert(!not_named_before(self.configs(), i as int, id));
                        }
                    } else {
                        assert(identity_of(self.configs()[i as int]) == id);
                    }
                }
            }
            assert(session_served(*config, before, held@, served, now, establish, exchange));
            match config.outcome(&served) {
                Ok(()) => {
                    count = count + 1;
                },
                Err(e) => {
                    *store = Some(held);
                    assert(stopped_at(
                        self.configs()[i as int],
                        before,
                        holders(*store),
                        e,
                        now,
                        establish,
                        exchange,
                        *notify,
                    ));
                    return Err(e);
                },
            }
            proof {
                let token = served->Ok_0;
                assert(self.configs()[i + 1 - 1] == *config);
                assert(session_served(
                    self.configs()[i + 1 - 1],
                    before,
                    held@,
                    Ok::<String, TokenError>(token),
                    now,
                    establish,
                    exchange,
                ));
            }
            assert(signed_in(
                self.configs(),
                i + 1,
                start,
                held@,
                now,
                establish,
                exchange,
                *notify,
            ));
            i = i + 1;
        }
        *store = Some(held);
        Ok(M365AuthCommand::report(count))
    }
}

} // verus!
