//! What the Azure commands share: the scopes that they ask tokens for, the
//! attributes that they take, and how they read a response.

use crate::auth::{AuthScope, AuthScopeView, Session, SessionStore};
use crate::cache::{can_serve, token_served, TokenError};
use crate::client::auth::{bearer_of, ExchangeOutcome};
use crate::error::AuthError;
use crate::http::{is_success, status_is_success, Method};
use crate::oauth::DeviceFlow;
use crate::text::{join2, join3, views};
use vstd::prelude::*;
use vstd::string::*;

verus! {

/// The scope of the Azure Management API.
pub const AZURE_MANAGEMENT_SCOPE: &'static str = "https://management.azure.com/.default";

/// The scope of the Azure Log Analytics API.
pub const AZURE_LOG_ANALYTICS_SCOPE: &'static str = "https://api.loganalytics.azure.com/.default";

pub open spec fn management_scope_name() -> Seq<char> {
    "https://management.azure.com/.default"@
}

pub open spec fn log_analytics_scope_name() -> Seq<char> {
    "https://api.loganalytics.azure.com/.default"@
}

/// The type of the value of an attribute.
#[derive(Debug, Clone, Copy, PartialEq, Eq, Structural)]
pub enum ScalarType {
    String,
    Number,
    Bool,
}

/// What a command tells of an attribute that it takes.
#[derive(Debug, Clone, Copy, PartialEq, Eq)]
pub struct AttributeSpec {
    pub name: &'static str,
    pub scalar: ScalarType,
    pub required: bool,
    pub hint: &'static str,
}

/// An [`AttributeSpec`] as a plain value.
pub struct AttributeSpecView {
    pub name: Seq<char>,
    pub scalar: ScalarType,
    pub required: bool,
    pub hint: Seq<char>,
}

impl View for AttributeSpec {
    type V = AttributeSpecView;

    open spec fn view(&self) -> AttributeSpecView {
        AttributeSpecView {
            name: self.name@,
            scalar: self.scalar,
            required: self.required,
            hint: self.hint@,
        }
    }
}

/// A text attribute.
pub open spec fn text_attribute(name: Seq<char>, required: bool, hint: Seq<char>) -> AttributeSpecView {
    AttributeSpecView { name, scalar: ScalarType::String, required, hint }
}

/// The client of the app registration.
pub fn client_id_attribute() -> (spec: AttributeSpec)
    ensures
        spec@ == text_attribute("client_id"@, true, "Azure AD App Registration Client ID"@),
{
    AttributeSpec {
        name: "client_id",
        scalar: ScalarType::String,
        required: true,
        hint: "Azure AD App Registration Client ID",
    }
}

/// The tenant.
pub fn tenant_id_attribute() -> (spec: AttributeSpec)
    ensures
        spec@ == text_attribute("tenant_id"@, true, "Azure AD Tenant ID"@),
{
    AttributeSpec {
        name: "tenant_id",
        scalar: ScalarType::String,
        required: true,
        hint: "Azure AD Tenant ID",
    }
}

/// The Sentinel workspace that a command works on.
pub fn sentinel_target_attribute() -> (spec: AttributeSpec)
    ensures
        spec@ == text_attribute(
            "target"@,
            true,
            "Resource path: /subscriptions/{sub}/resourceGroups/{rg}/providers/Microsoft.OperationalInsights/workspaces/{ws}/"@,
        ),
{
    AttributeSpec {
        name: "target",
        scalar: ScalarType::String,
        required: true,
        hint: "Resource path: /subscriptions/{sub}/resourceGroups/{rg}/providers/Microsoft.OperationalInsights/workspaces/{ws}/",
    }
}

/// The incident that a command works on.
pub fn incident_id_attribute() -> (spec: AttributeSpec)
    ensures
        spec@ == text_attribute("incident_id"@, true, "Incident ID (GUID format)"@),
{
    AttributeSpec {
        name: "incident_id",
        scalar: ScalarType::String,
        required: true,
        hint: "Incident ID (GUID format)",
    }
}

/// The Log Analytics workspace that a query runs against.
pub fn workspace_id_attribute() -> (spec: AttributeSpec)
    ensures
        spec@ == text_attribute("workspace_id"@, true, "Log Analytics Workspace ID (GUID)"@),
{
    AttributeSpec {
        name: "workspace_id",
        scalar: ScalarType::String,
        required: true,
        hint: "Log Analytics Workspace ID (GUID)",
    }
}

/// The query.
pub fn query_attribute() -> (spec: AttributeSpec)
    ensures
        spec@ == text_attribute("query"@, true, "Kusto Query Language (KQL) query"@),
{
    AttributeSpec {
        name: "query",
        scalar: ScalarType::String,
        required: true,
        hint: "Kusto Query Language (KQL) query",
    }
}

/// The timespan of a query; it may be left out.
pub fn timespan_attribute() -> (spec: AttributeSpec)
    ensures
        spec@ == text_attribute(
            "timespan"@,
            false,
            "ISO 8601 duration (e.g., 'PT1H' for 1 hour, 'P1D' for 1 day)"@,
        ),
{
    AttributeSpec {
        name: "timespan",
        scalar: ScalarType::String,
        required: false,
        hint: "ISO 8601 duration (e.g., 'PT1H' for 1 hour, 'P1D' for 1 day)",
    }
}

/// The resource that a resource-scoped query runs against.
pub fn resource_path_attribute() -> (spec: AttributeSpec)
    ensures
        spec@ == text_attribute(
            "resource_path"@,
            true,
            "Azure resource path (e.g., /subscriptions/{sub}/resourceGroups/{rg}/providers/...)"@,
        ),
{
    AttributeSpec {
        name: "resource_path",
        scalar: ScalarType::String,
        required: true,
        hint: "Azure resource path (e.g., /subscriptions/{sub}/resourceGroups/{rg}/providers/...)",
    }
}

/// The API that a token is asked for.
#[derive(Debug, Clone, Copy, PartialEq, Eq, Structural)]
pub enum TokenAudience {
    AzureManagement,
    LogAnalytics,
}

/// Why a command could not get its token or was turned down by the service.
#[derive(Debug, Clone, PartialEq, Eq)]
pub enum CommandError {
    /// No HTTP client was set up before the command ran.
    HttpClientMissing,
    /// No session store was set up before the command ran.
    SessionStoreMissing,
    /// The session store handed out no token for an API; the cause is the
    /// error of the sign-in or the refresh, as it came.
    TokenUnavailable(TokenAudience, TokenError),
    /// The service answered with a status that reports no success.
    Unsuccessful { operation: String, status: String, body: String },
    /// An attribute of the command names nothing of its kind.
    InvalidAttribute { attribute: String, reason: String },
    /// The request did not reach the service or the response did not arrive.
    Transport,
    /// The body of the response is not of the expected shape.
    Decode,
    /// No session could be set up for a tenant; the cause is the error of the
    /// sign-in or the refresh, as it came.
    SessionFailed { tenant_id: String, cause: TokenError },
    /// A value of the command names nothing of its kind; the message says
    /// which and why.
    InvalidValue { message: String },
    /// An entity could not be written as JSON.
    Serialize,
    /// The user could not be told of what the command does.
    Notify,
}

/// What the call of a command carries where it carries no body.
#[derive(Debug, Clone, Copy, PartialEq, Eq, Structural)]
pub struct NoBody;

/// What the error for a missing token says.
pub open spec fn token_unavailable_text(audience: TokenAudience) -> Seq<char> {
    match audience {
        TokenAudience::AzureManagement => "Failed to get auth token for Azure Management API"@,
        TokenAudience::LogAnalytics => "Failed to get auth token for Log Analytics API"@,
    }
}

/// What the error for a failed operation says: the operation, the status as
/// the transport prints it, and the body as it came.
pub open spec fn unsuccessful_text(operation: Seq<char>, status: Seq<char>, body: Seq<char>) -> Seq<
    char,
> {
    "Failed to "@ + operation + ": "@ + status + " - "@ + body
}

/// What the error for an attribute says: the attribute and what is wrong
/// with its value.
pub open spec fn invalid_attribute_text(attribute: Seq<char>, reason: Seq<char>) -> Seq<char> {
    "Invalid "@ + attribute + ": "@ + reason
}

/// What the error for a session that could not be set up says.
pub open spec fn session_failed_text(tenant_id: Seq<char>) -> Seq<char> {
    "Failed to authenticate session for tenant: "@ + tenant_id
}

impl CommandError {
    /// What the error says.
    pub open spec fn text(self) -> Seq<char> {
        match self {
            CommandError::HttpClientMissing => "HTTP client not found. Run M365AuthCommand first."@,
            CommandError::SessionStoreMissing =>
                "SessionStore not found. Run M365AuthCommand first."@,
            CommandError::TokenUnavailable(audience, _) => token_unavailable_text(audience),
            CommandError::Unsuccessful { operation, status, body } => unsuccessful_text(
                operation@,
                status@,
                body@,
            ),
            CommandError::InvalidAttribute { attribute, reason } => invalid_attribute_text(
                attribute@,
                reason@,
            ),
            CommandError::Transport => "The request could not be sent"@,
            CommandError::Decode => "The response has not the expected shape"@,
            CommandError::SessionFailed { tenant_id, .. } => session_failed_text(tenant_id@),
            CommandError::InvalidValue { message } => message@,
            CommandError::Serialize => "The properties could not be written as JSON"@,
            CommandError::Notify => "The notification could not be delivered"@,
        }
    }

    /// What the error says.
    pub fn message(&self) -> (text: String)
        ensures
            text@ == self.text(),
    {
        match self {
            CommandError::HttpClientMissing => String::from_str(
                "HTTP client not found. Run M365AuthCommand first.",
            ),
            CommandError::SessionStoreMissing => String::from_str(
                "SessionStore not found. Run M365AuthCommand first.",
            ),
            CommandError::TokenUnavailable(audience, _) => match audience {
                TokenAudience::AzureManagement => String::from_str(
                    "Failed to get auth token for Azure Management API",
                ),
                TokenAudience::LogAnalytics => String::from_str(
                    "Failed to get auth token for Log Analytics API",
                ),
            },
            CommandError::Unsuccessful { operation, status, body } => {
                join3("Failed to ", operation.as_str(), ": ").concat(status.as_str()).concat(
                    " - ",
                ).concat(body.as_str())
            },
            CommandError::InvalidAttribute { attribute, reason } => {
                join3("Invalid ", attribute.as_str(), ": ").concat(reason.as_str())
            },
            CommandError::Transport => String::from_str("The request could not be sent"),
            CommandError::Decode => String::from_str("The response has not the expected shape"),
            CommandError::SessionFailed { tenant_id, .. } => {
                String::from_str("Failed to authenticate session for tenant: ").concat(
                    tenant_id.as_str(),
                )
            },
            CommandError::InvalidValue { message } => message.clone(),
            CommandError::Serialize => String::from_str(
                "The properties could not be written as JSON",
            ),
            CommandError::Notify => String::from_str("The notification could not be delivered"),
        }
    }
}

/// The scope by which a command asks for the token of an API.
pub fn token_scope(client_id: &str, tenant_id: &str, audience: TokenAudience) -> (scope: AuthScope)
    ensures
        scope.client_id@ == client_id@,
        scope.tenant_id@ == tenant_id@,
        views(scope.scopes@) == seq![
            match audience {
                TokenAudience::AzureManagement => management_scope_name(),
                TokenAudience::LogAnalytics => log_analytics_scope_name(),
            },
        ],
{
    let mut scopes: Vec<String> = Vec::new();
    match audience {
        TokenAudience::AzureManagement => {
            scopes.push(String::from_str("https://management.azure.com/.default"));
        },
        TokenAudience::LogAnalytics => {
            scopes.push(String::from_str("https://api.loganalytics.azure.com/.default"));
        },
    }
    AuthScope {
        client_id: String::from_str(client_id),
        tenant_id: String::from_str(tenant_id),
        scopes,
    }
}

/// The name of the scope by which the token of an API is asked for.
pub open spec fn audience_scope_name(audience: TokenAudience) -> Seq<char> {
    match audience {
        TokenAudience::AzureManagement => management_scope_name(),
        TokenAudience::LogAnalytics => log_analytics_scope_name(),
    }
}

/// The closures can be called with what asking the session store for the
/// token of a scope hands them, as [`can_serve`] says, and no more is asked of
/// them: nothing where the HTTP client or the store is missing.
pub open spec fn scope_token_can_be_got<
    E: FnOnce(DeviceFlow) -> Result<Session, AuthError>,
    X: FnOnce(String) -> ExchangeOutcome,
>(
    http_present: bool,
    store: Option<SessionStore>,
    scope: AuthScopeView,
    now: u64,
    establish: E,
    exchange: X,
) -> bool {
    http_present ==> (store matches Some(held) ==> can_serve(
        held@,
        scope,
        scope.tenant_id,
        scope.client_id,
        scope.scopes,
        now,
        establish,
        exchange,
    ))
}

/// As [`scope_token_can_be_got`], for the scope by which a client of a
/// tenant asks for the token of an API.
pub open spec fn token_can_be_got<
    E: FnOnce(DeviceFlow) -> Result<Session, AuthError>,
    X: FnOnce(String) -> ExchangeOutcome,
>(
    http_present: bool,
    store: Option<SessionStore>,
    client_id: Seq<char>,
    tenant_id: Seq<char>,
    audience: TokenAudience,
    now: u64,
    establish: E,
    exchange: X,
) -> bool {
    scope_token_can_be_got(
        http_present,
        store,
        AuthScopeView {
            client_id,
            tenant_id,
            scopes: seq![audience_scope_name(audience)].to_set(),
        },
        now,
        establish,
        exchange,
    )
}

/// What asking the session store for a token comes to, where the HTTP client
/// and the store may both be missing: the HTTP client is looked for first,
/// then the store; then the store is asked as
/// [`SessionStore::get_secret`] says, and where it hands out no token the
/// error names the API and carries the cause.
pub open spec fn token_got<
    E: FnOnce(DeviceFlow) -> Result<Session, AuthError>,
    X: FnOnce(String) -> ExchangeOutcome,
>(
    http_present: bool,
    before: Option<SessionStore>,
    after: Option<SessionStore>,
    scope: AuthScope,
    audience: TokenAudience,
    r: Result<String, CommandError>,
    now: u64,
    establish: E,
    exchange: X,
) -> bool {
    if !http_present {
        after == before && r == Err::<String, CommandError>(CommandError::HttpClientMissing)
    } else {
        match before {
            None => after is None && r == Err::<String, CommandError>(
                CommandError::SessionStoreMissing,
            ),
            Some(store) => after matches Some(then) && exists|served: Result<String, TokenError>|
                #![trigger token_served(store@, then@, scope, served, now, establish, exchange)]
                {
                    &&& token_served(store@, then@, scope, served, now, establish, exchange)
                    &&& match served {
                        Ok(token) => r == Ok::<String, CommandError>(token),
                        Err(cause) => r == Err::<String, CommandError>(
                            CommandError::TokenUnavailable(audience, cause),
                        ),
                    }
                },
        }
    }
}

/// The token of an API for a command, from the session store of the run.
pub fn get_token<
    E: FnOnce(DeviceFlow) -> Result<Session, AuthError>,
    X: FnOnce(String) -> ExchangeOutcome,
>(
    http_present: bool,
    store: &mut Option<SessionStore>,
    scope: &AuthScope,
    audience: TokenAudience,
    now: u64,
    establish: E,
    exchange: X,
) -> (r: Result<String, CommandError>)
    requires
        scope_token_can_be_got(http_present, *old(store), scope@, now, establish, exchange),
    ensures
        token_got(
            http_present,
            *old(store),
            *final(store),
            *scope,
            audience,
            r,
            now,
            establish,
            exchange,
        ),
{
    if !http_present {
        return Err(CommandError::HttpClientMissing);
    }
    let ghost mut before: Map<crate::auth::AuthScopeView, crate::client::auth::SessionState> =
        Map::empty();
    let ghost mut after: Map<crate::auth::AuthScopeView, crate::client::auth::SessionState> =
        Map::empty();
    let ghost mut told: Result<String, TokenError> = Err(TokenError::Auth(AuthError::NetworkFailure));
    let r = match store {
        None => Err(CommandError::SessionStoreMissing),
        Some(held) => {
            proof {
                before = held@;
            }
            let served = held.get_secret(scope, now, establish, exchange);
            proof {
                after = held@;
                told = served;
            }
            match served {
                Ok(token) => Ok(token),
                Err(cause) => Err(CommandError::TokenUnavailable(audience, cause)),
            }
        },
    };
    proof {
        if *old(store) is Some {
            assert((*store)->0@ == after);
        }
    }
    r
}

/// The token of the Azure Management API for a command.
pub fn get_azure_management_token<
    E: FnOnce(DeviceFlow) -> Result<Session, AuthError>,
    X: FnOnce(String) -> ExchangeOutcome,
>(
    http_present: bool,
    store: &mut Option<SessionStore>,
    client_id: &str,
    tenant_id: &str,
    now: u64,
    establish: E,
    exchange: X,
) -> (r: Result<String, CommandError>)
    requires
        token_can_be_got(
            http_present,
            *old(store),
            client_id@,
            tenant_id@,
            TokenAudience::AzureManagement,
            now,
            establish,
            exchange,
        ),
    ensures
        management_token_got(
            http_present,
            *old(store),
            *final(store),
            client_id@,
            tenant_id@,
            r,
            now,
            establish,
            exchange,
        ),
{
    let scope = token_scope(client_id, tenant_id, TokenAudience::AzureManagement);
    get_token(
        http_present,
        store,
        &scope,
        TokenAudience::AzureManagement,
        now,
        establish,
        exchange,
    )
}

/// The token of the Log Analytics API for a command.
pub fn get_log_analytics_token<
    E: FnOnce(DeviceFlow) -> Result<Session, AuthError>,
    X: FnOnce(String) -> ExchangeOutcome,
>(
    http_present: bool,
    store: &mut Option<SessionStore>,
    client_id: &str,
    tenant_id: &str,
    now: u64,
    establish: E,
    exchange: X,
) -> (r: Result<String, CommandError>)
    requires
        token_can_be_got(
            http_present,
            *old(store),
            client_id@,
            tenant_id@,
            TokenAudience::LogAnalytics,
            now,
            establish,
            exchange,
        ),
    ensures
        exists|scope: AuthScope|
            #![trigger scope.scopes@]
            {
                &&& scope.client_id@ == client_id@
                &&& scope.tenant_id@ == tenant_id@
                &&& views(scope.scopes@) == seq![log_analytics_scope_name()]
                &&& token_got(
                    http_present,
                    *old(store),
                    *final(store),
                    scope,
                    TokenAudience::LogAnalytics,
                    r,
                    now,
                    establish,
                    exchange,
                )
            },
{
    let scope = token_scope(client_id, tenant_id, TokenAudience::LogAnalytics);
    get_token(
        http_present,
        store,
        &scope,
        TokenAudience::LogAnalytics,
        now,
        establish,
        exchange,
    )
}

/// The error for an attribute whose value names nothing of its kind.
pub fn invalid_attribute(attribute: &str, reason: String) -> (e: CommandError)
    ensures
        e.text() == invalid_attribute_text(attribute@, reason@),
{
    CommandError::InvalidAttribute { attribute: String::from_str(attribute), reason }
}

/// Reads the status of a response: success lets the response through; any
/// other status is an error that names the operation, the status as the
/// transport prints it, and the body as it came.
pub fn check_response_success(status: u16, status_text: &str, body: &str, operation: &str) -> (r:
    Result<(), CommandError>)
    ensures
        r is Ok <==> is_success(status),
        r matches Err(e) ==> e.text() == unsuccessful_text(operation@, status_text@, body@),
{
    if status_is_success(status) {
        Ok(())
    } else {
        Err(
            CommandError::Unsuccessful {
                operation: String::from_str(operation),
                status: String::from_str(status_text),
                body: String::from_str(body),
            },
        )
    }
}

/// A call of the Azure Management API as it goes out.
pub struct ManagementCall<B> {
    pub method: Method,
    pub url: String,
    /// The value of the `Authorization` header.
    pub authorization: String,
    /// Whether the call says that it carries JSON.
    pub json: bool,
    /// The body, where the call has one; it goes out as JSON.
    pub body: Option<B>,
}

/// A [`ManagementCall`] as a plain value.
pub struct ManagementCallView<B> {
    pub method: Method,
    pub url: Seq<char>,
    pub authorization: Seq<char>,
    pub json: bool,
    pub body: Option<B>,
}

impl<B> View for ManagementCall<B> {
    type V = ManagementCallView<B>;

    open spec fn view(&self) -> ManagementCallView<B> {
        ManagementCallView {
            method: self.method,
            url: self.url@,
            authorization: self.authorization@,
            json: self.json,
            body: self.body,
        }
    }
}

impl<B> ManagementCall<B> {
    /// A call that carries a token.
    pub fn new(method: Method, url: String, token: &str, json: bool, body: Option<B>) -> (call:
        Self)
        ensures
            call@ == call_with(method, url@, json, body, token@),
    {
        ManagementCall { method, url, authorization: join2("Bearer ", token), json, body }
    }
}

/// The call of a command with a token.
pub open spec fn call_with<B>(
    method: Method,
    url: Seq<char>,
    json: bool,
    body: Option<B>,
    token: Seq<char>,
) -> ManagementCallView<B> {
    ManagementCallView { method, url, authorization: bearer_of(token), json, body }
}

/// What came back for a call whose response is read as a shape.
pub enum CommandReply<T> {
    /// No response arrived.
    Failed,
    /// A response arrived. `status_text` is the status as the transport
    /// prints it; `decoded` holds the body read as the expected shape, where
    /// it has that shape.
    Answered { status: u16, status_text: String, body: String, decoded: Option<T> },
}

/// What came back for a call of whose response only the status counts.
pub enum StatusReply {
    /// No response arrived.
    Failed,
    /// A response arrived. `status_text` is the status as the transport
    /// prints it.
    Answered { status: u16, status_text: String, body: String },
}

/// What a reply comes to: the decoded body of a response that reports
/// success; or the error of a response that reports none, which names the
/// operation, the status and the body; or the error of a missing response or
/// of a body of another shape.
pub open spec fn reply_value<T>(reply: CommandReply<T>, operation: Seq<char>) -> Result<
    T,
    Seq<char>,
> {
    match reply {
        CommandReply::Failed => Err(CommandError::Transport.text()),
        CommandReply::Answered { status, status_text, body, decoded } => if !is_success(status) {
            Err(unsuccessful_text(operation, status_text@, body@))
        } else {
            match decoded {
                Some(value) => Ok(value),
                None => Err(CommandError::Decode.text()),
            }
        },
    }
}

/// What a reply comes to where only the status counts.
pub open spec fn reply_status(reply: StatusReply, operation: Seq<char>) -> Result<(), Seq<char>> {
    match reply {
        StatusReply::Failed => Err(CommandError::Transport.text()),
        StatusReply::Answered { status, status_text, body } => if !is_success(status) {
            Err(unsuccessful_text(operation, status_text@, body@))
        } else {
            Ok(())
        },
    }
}

/// A result with its error as the text that it says.
pub open spec fn said<T>(r: Result<T, CommandError>) -> Result<T, Seq<char>> {
    match r {
        Ok(value) => Ok(value),
        Err(e) => Err(e.text()),
    }
}

/// Reads a reply as [`reply_value`] says.
pub fn read_command_reply<T>(reply: CommandReply<T>, operation: &str) -> (r: Result<T, CommandError>)
    ensures
        said(r) == reply_value(reply, operation@),
{
    match reply {
        CommandReply::Failed => Err(CommandError::Transport),
        CommandReply::Answered { status, status_text, body, decoded } => {
            match check_response_success(status, status_text.as_str(), body.as_str(), operation) {
                Err(e) => Err(e),
                Ok(()) => match decoded {
                    Some(value) => Ok(value),
                    None => Err(CommandError::Decode),
                },
            }
        },
    }
}

/// Reads a reply as [`reply_status`] says.
pub fn read_status_reply(reply: StatusReply, operation: &str) -> (r: Result<(), CommandError>)
    ensures
        said(r) == reply_status(reply, operation@),
{
    match reply {
        StatusReply::Failed => Err(CommandError::Transport),
        StatusReply::Answered { status, status_text, body } => check_response_success(
            status,
            status_text.as_str(),
            body.as_str(),
            operation,
        ),
    }
}

/// The store may hand this token out to the client of a tenant for an API,
/// when it is asked with these closures as [`token_got`] says.
pub open spec fn token_may_be_got<
    E: FnOnce(DeviceFlow) -> Result<Session, AuthError>,
    X: FnOnce(String) -> ExchangeOutcome,
>(
    http_present: bool,
    store: Option<SessionStore>,
    client_id: Seq<char>,
    tenant_id: Seq<char>,
    audience: TokenAudience,
    token: Seq<char>,
    now: u64,
    establish: E,
    exchange: X,
) -> bool {
    exists|scope: AuthScope, after: Option<SessionStore>, secret: String|
        #![trigger token_got(http_present, store, after, scope, audience, Ok::<String, CommandError>(secret), now, establish, exchange)]
        {
            &&& scope.client_id@ == client_id
            &&& scope.tenant_id@ == tenant_id
            &&& views(scope.scopes@) == seq![audience_scope_name(audience)]
            &&& secret@ == token
            &&& token_got(
                http_present,
                store,
                after,
                scope,
                audience,
                Ok::<String, CommandError>(secret),
                now,
                establish,
                exchange,
            )
        }
}

/// `send` can be called with the call that `call_of` names for a token that
/// the store may hand out, and nothing more is asked of it: without a token
/// nothing can be sent.
pub open spec fn call_can_be_sent<
    C: View,
    R,
    E: FnOnce(DeviceFlow) -> Result<Session, AuthError>,
    X: FnOnce(String) -> ExchangeOutcome,
    F: FnOnce(C) -> R,
>(
    http_present: bool,
    store: Option<SessionStore>,
    client_id: Seq<char>,
    tenant_id: Seq<char>,
    audience: TokenAudience,
    call_of: spec_fn(Seq<char>) -> C::V,
    now: u64,
    establish: E,
    exchange: X,
    send: F,
) -> bool {
    forall|call: C|
        (exists|token: Seq<char>|
            call@ == #[trigger] call_of(token) && token_may_be_got(
                http_present,
                store,
                client_id,
                tenant_id,
                audience,
                token,
                now,
                establish,
                exchange,
            )) ==> #[trigger] call_requires(send, (call,))
}

/// The token of the Azure Management API was got for the client and the
/// tenant, as [`token_got`] says, and `token` is what came of it.
pub open spec fn management_token_got<
    E: FnOnce(DeviceFlow) -> Result<Session, AuthError>,
    X: FnOnce(String) -> ExchangeOutcome,
>(
    http_present: bool,
    before: Option<SessionStore>,
    after: Option<SessionStore>,
    client_id: Seq<char>,
    tenant_id: Seq<char>,
    token: Result<String, CommandError>,
    now: u64,
    establish: E,
    exchange: X,
) -> bool {
    exists|scope: AuthScope|
        #![trigger scope.scopes@]
        {
            &&& scope.client_id@ == client_id
            &&& scope.tenant_id@ == tenant_id
            &&& views(scope.scopes@) == seq![management_scope_name()]
            &&& token_got(
                http_present,
                before,
                after,
                scope,
                TokenAudience::AzureManagement,
                token,
                now,
                establish,
                exchange,
            )
        }
}

/// What running a command against the Azure Management API comes to. The
/// token is got first; without it the command fails with the error of that.
/// With it, `send` was handed the call that `call_of` names for the token, and
/// `r` is what its reply comes to.
pub open spec fn command_run<
    B,
    T,
    E: FnOnce(DeviceFlow) -> Result<Session, AuthError>,
    X: FnOnce(String) -> ExchangeOutcome,
    F: FnOnce(ManagementCall<B>) -> CommandReply<T>,
>(
    http_present: bool,
    before: Option<SessionStore>,
    after: Option<SessionStore>,
    client_id: Seq<char>,
    tenant_id: Seq<char>,
    call_of: spec_fn(Seq<char>) -> ManagementCallView<B>,
    operation: Seq<char>,
    r: Result<T, CommandError>,
    now: u64,
    establish: E,
    exchange: X,
    send: F,
) -> bool {
    exists|token: Result<String, CommandError>|
        #![trigger management_token_got(http_present, before, after, client_id, tenant_id, token, now, establish, exchange)]
        {
            &&& management_token_got(
                http_present,
                before,
                after,
                client_id,
                tenant_id,
                token,
                now,
                establish,
                exchange,
            )
            &&& match token {
                Err(e) => r == Err::<T, CommandError>(e),
                Ok(secret) => exists|call: ManagementCall<B>, reply: CommandReply<T>|
                    #![trigger call_ensures(send, (call,), reply)]
                    {
                        &&& call@ == call_of(secret@)
                        &&& call_ensures(send, (call,), reply)
                        &&& said(r) == reply_value(reply, operation)
                    },
            }
        }
}

/// As [`command_run`], for a command of whose response only the status
/// counts.
pub open spec fn status_command_run<
    B,
    E: FnOnce(DeviceFlow) -> Result<Session, AuthError>,
    X: FnOnce(String) -> ExchangeOutcome,
    F: FnOnce(ManagementCall<B>) -> StatusReply,
>(
    http_present: bool,
    before: Option<SessionStore>,
    after: Option<SessionStore>,
    client_id: Seq<char>,
    tenant_id: Seq<char>,
    call_of: spec_fn(Seq<char>) -> ManagementCallView<B>,
    operation: Seq<char>,
    r: Result<(), CommandError>,
    now: u64,
    establish: E,
    exchange: X,
    send: F,
) -> bool {
    exists|token: Result<String, CommandError>|
        #![trigger management_token_got(http_present, before, after, client_id, tenant_id, token, now, establish, exchange)]
        {
            &&& management_token_got(
                http_present,
                before,
                after,
                client_id,
                tenant_id,
                token,
                now,
                establish,
                exchange,
            )
            &&& match token {
                Err(e) => r == Err::<(), CommandError>(e),
                Ok(secret) => exists|call: ManagementCall<B>, reply: StatusReply|
                    #![trigger call_ensures(send, (call,), reply)]
                    {
                        &&& call@ == call_of(secret@)
                        &&& call_ensures(send, (call,), reply)
                        &&& said(r) == reply_status(reply, operation)
                    },
            }
        }
}

/// Runs a command against the Azure Management API: gets the token, hands
/// the call to `send`, and reads the reply.
pub fn run_command<
    B,
    T,
    E: FnOnce(DeviceFlow) -> Result<Session, AuthError>,
    X: FnOnce(String) -> ExchangeOutcome,
    F: FnOnce(ManagementCall<B>) -> CommandReply<T>,
>(
    http_present: bool,
    store: &mut Option<SessionStore>,
    client_id: &str,
    tenant_id: &str,
    method: Method,
    url: String,
    json: bool,
    body: Option<B>,
    operation: &str,
    now: u64,
    establish: E,
    exchange: X,
    send: F,
) -> (r: Result<T, CommandError>)
    requires
        token_can_be_got(
            http_present,
            *old(store),
            client_id@,
            tenant_id@,
            TokenAudience::AzureManagement,
            now,
            establish,
            exchange,
        ),
        call_can_be_sent(
            http_present,
            *old(store),
            client_id@,
            tenant_id@,
            TokenAudience::AzureManagement,
            |token: Seq<char>| call_with(method, url@, json, body, token),
            now,
            establish,
            exchange,
            send,
        ),
    ensures
        command_run(
            http_present,
            *old(store),
            *final(store),
            client_id@,
            tenant_id@,
            |token: Seq<char>| call_with(method, url@, json, body, token),
            operation@,
            r,
            now,
            establish,
            exchange,
            send,
        ),
{
    let token = get_azure_management_token(
        http_present,
        store,
        client_id,
        tenant_id,
        now,
        establish,
        exchange,
    );
    match token {
        Err(e) => Err(e),
        Ok(secret) => {
            let ghost call_of = |token: Seq<char>| call_with(method, url@, json, body, token);
            let call = ManagementCall::new(method, url, secret.as_str(), json, body);
            proof {
                assert(call@ == call_of(secret@));
                assert(token_may_be_got(
                    http_present,
                    *old(store),
                    client_id@,
                    tenant_id@,
                    TokenAudience::AzureManagement,
                    secret@,
                    now,
                    establish,
                    exchange,
                ));
            }
            let reply = send(call);
            read_command_reply(reply, operation)
        },
    }
}

/// Runs a command of whose response only the status counts.
pub fn run_status_command<
    B,
    E: FnOnce(DeviceFlow) -> Result<Session, AuthError>,
    X: FnOnce(String) -> ExchangeOutcome,
    F: FnOnce(ManagementCall<B>) -> StatusReply,
>(
    http_present: bool,
    store: &mut Option<SessionStore>,
    client_id: &str,
    tenant_id: &str,
    method: Method,
    url: String,
    json: bool,
    body: Option<B>,
    operation: &str,
    now: u64,
    establish: E,
    exchange: X,
    send: F,
) -> (r: Result<(), CommandError>)
    requires
        token_can_be_got(
            http_present,
            *old(store),
            client_id@,
            tenant_id@,
            TokenAudience::AzureManagement,
            now,
            establish,
            exchange,
        ),
        call_can_be_sent(
            http_present,
            *old(store),
            client_id@,
            tenant_id@,
            TokenAudience::AzureManagement,
            |token: Seq<char>| call_with(method, url@, json, body, token),
            now,
            establish,
            exchange,
            send,
        ),
    ensures
        status_command_run(
            http_present,
            *old(store),
            *final(store),
            client_id@,
            tenant_id@,
            |token: Seq<char>| call_with(method, url@, json, body, token),
            operation@,
            r,
            now,
            establish,
            exchange,
            send,
        ),
{
    let token = get_azure_management_token(
        http_present,
        store,
        client_id,
        tenant_id,
        now,
        establish,
        exchange,
    );
    match token {
        Err(e) => Err(e),
        Ok(secret) => {
            let ghost call_of = |token: Seq<char>| call_with(method, url@, json, body, token);
            let call = ManagementCall::new(method, url, secret.as_str(), json, body);
            proof {
                assert(call@ == call_of(secret@));
                assert(token_may_be_got(
                    http_present,
                    *old(store),
                    client_id@,
                    tenant_id@,
                    TokenAudience::AzureManagement,
                    secret@,
                    now,
                    establish,
                    exchange,
                ));
            }
            let reply = send(call);
            read_status_reply(reply, operation)
        },
    }
}

} // verus!
