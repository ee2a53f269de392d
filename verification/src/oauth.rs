//! The OAuth2 client configuration of a tenant and the device-code sign-in
//! that yields a first token.

use crate::client::auth::{Session, Token};
use crate::error::{AuthError, ConfigError};
use crate::text::{clone_strings, join3};
use vstd::prelude::*;
use vstd::string::*;

verus! {

/// Whether `oauth2::AuthUrl::new` accepts a text as a URL.
pub uninterp spec fn auth_url_parses(url: Seq<char>) -> bool;

/// Whether `oauth2::TokenUrl::new` accepts a text as a URL.
pub uninterp spec fn token_url_parses(url: Seq<char>) -> bool;

/// Whether `oauth2::DeviceAuthorizationUrl::new` accepts a text as a URL.
pub uninterp spec fn device_url_parses(url: Seq<char>) -> bool;

/// Calls `oauth2::AuthUrl::new`, which parses the text as a URL and keeps
/// it where that succeeds. Says whether it did; that depends on the text
/// alone.
#[verifier::external_body]
fn auth_url_ok(url: &str) -> (ok: bool)
    ensures
        ok == auth_url_parses(url@),
{
    oauth2::AuthUrl::new(url.to_string()).is_ok()
}

/// Calls `oauth2::TokenUrl::new`, which parses the text as a URL and keeps
/// it where that succeeds. Says whether it did; that depends on the text
/// alone.
#[verifier::external_body]
fn token_url_ok(url: &str) -> (ok: bool)
    ensures
        ok == token_url_parses(url@),
{
    oauth2::TokenUrl::new(url.to_string()).is_ok()
}

/// Calls `oauth2::DeviceAuthorizationUrl::new`, which parses the text as a
/// URL and keeps it where that succeeds. Says whether it did; that depends on
/// the text alone.
#[verifier::external_body]
fn device_url_ok(url: &str) -> (ok: bool)
    ensures
        ok == device_url_parses(url@),
{
    oauth2::DeviceAuthorizationUrl::new(url.to_string()).is_ok()
}

pub open spec fn login_host() -> Seq<char> {
    "https://login.microsoftonline.com/"@
}

/// The token endpoint of a tenant.
pub open spec fn token_endpoint_of(tenant: Seq<char>) -> Seq<char> {
    login_host() + tenant + "/oauth2/v2.0/token"@
}

/// The authorization endpoint of a tenant.
pub open spec fn authorization_endpoint_of(tenant: Seq<char>) -> Seq<char> {
    login_host() + tenant + "/oauth2/v2.0/authorize"@
}

/// The device-authorization endpoint of a tenant.
pub open spec fn device_authorization_endpoint_of(tenant: Seq<char>) -> Seq<char> {
    login_host() + tenant + "/oauth2/v2.0/devicecode"@
}

/// The three endpoints of a tenant are all URLs.
pub open spec fn endpoints_parse(tenant: Seq<char>) -> bool {
    &&& auth_url_parses(authorization_endpoint_of(tenant))
    &&& token_url_parses(token_endpoint_of(tenant))
    &&& device_url_parses(device_authorization_endpoint_of(tenant))
}

pub fn token_endpoint(tenant: &str) -> (url: String)
    ensures
        url@ == token_endpoint_of(tenant@),
{
    join3("https://login.microsoftonline.com/", tenant, "/oauth2/v2.0/token")
}

pub fn authorization_endpoint(tenant: &str) -> (url: String)
    ensures
        url@ == authorization_endpoint_of(tenant@),
{
    join3("https://login.microsoftonline.com/", tenant, "/oauth2/v2.0/authorize")
}

pub fn device_authorization_endpoint(tenant: &str) -> (url: String)
    ensures
        url@ == device_authorization_endpoint_of(tenant@),
{
    join3("https://login.microsoftonline.com/", tenant, "/oauth2/v2.0/devicecode")
}

/// The configuration of a public OAuth2 client for one tenant: no client
/// secret, the three endpoints of the tenant.
#[derive(Debug, Clone)]
pub struct OAuthConfig {
    pub authorization_endpoint: String,
    pub token_endpoint: String,
    pub device_authorization_endpoint: String,
    pub client_identity: String,
}

impl OAuthConfig {
    /// The configuration is the one of this tenant and client.
    pub open spec fn is_for(&self, tenant: Seq<char>, client: Seq<char>) -> bool {
        &&& self.authorization_endpoint@ == authorization_endpoint_of(tenant)
        &&& self.token_endpoint@ == token_endpoint_of(tenant)
        &&& self.device_authorization_endpoint@ == device_authorization_endpoint_of(tenant)
        &&& self.client_identity@ == client
    }

    /// The configuration for a tenant and a client, where the tenant's
    /// endpoints are URLs.
    pub fn for_tenant(tenant: &str, client: &str) -> (r: Result<OAuthConfig, ConfigError>)
        ensures
            r is Ok <==> endpoints_parse(tenant@),
            r matches Ok(config) ==> config.is_for(tenant@, client@),
            r matches Err(e) ==> e == ConfigError::MalformedEndpoint,
    {
        let authorization_endpoint = authorization_endpoint(tenant);
        if !auth_url_ok(authorization_endpoint.as_str()) {
            return Err(ConfigError::MalformedEndpoint);
        }
        let token_endpoint = token_endpoint(tenant);
        if !token_url_ok(token_endpoint.as_str()) {
            return Err(ConfigError::MalformedEndpoint);
        }
        let device_authorization_endpoint = device_authorization_endpoint(tenant);
        if !device_url_ok(device_authorization_endpoint.as_str()) {
            return Err(ConfigError::MalformedEndpoint);
        }
        Ok(
            OAuthConfig {
                authorization_endpoint,
                token_endpoint,
                device_authorization_endpoint,
                client_identity: String::from_str(client),
            },
        )
    }
}

/// What the request for a device code brought.
pub enum DeviceCodeOutcome {
    /// The server issued a code: where the user goes, and what to enter there.
    Issued { verification_uri: String, user_code: String },
    /// The request failed.
    Unreachable,
}

/// How the polling for a token ended.
pub enum SignInOutcome {
    /// The user signed in; the server granted a token.
    Granted(Token),
    /// The user refused consent.
    Denied,
    /// The device code ran out first.
    Expired,
    /// The polling broke off for another reason.
    Unreachable,
}

/// The text shown to the user: where to go and which code to enter.
pub open spec fn instruction_for(verification_uri: Seq<char>, user_code: Seq<char>) -> Seq<char> {
    "Open "@ + verification_uri + " and enter the code: "@ + user_code
}

/// A device-code sign-in that has not asked for its device code yet.
pub struct DeviceFlow {
    oauth: OAuthConfig,
    scopes: Vec<String>,
}

/// A device-code sign-in whose code was issued: the user is to be told once,
/// then the token endpoint is polled.
pub struct PendingSignIn {
    oauth: OAuthConfig,
    instruction: String,
}

impl DeviceFlow {
    pub closed spec fn oauth(&self) -> OAuthConfig {
        self.oauth
    }

    pub closed spec fn requested(&self) -> Seq<String> {
        self.scopes@
    }

    /// A sign-in for a tenant, a client and scopes, where the tenant's
    /// endpoints are URLs. The device code is to be asked for at
    /// `config().device_authorization_endpoint`, for `scopes()`.
    pub fn begin(tenant: &str, client: &str, scopes: &Vec<String>) -> (r: Result<
        DeviceFlow,
        ConfigError,
    >)
        ensures
            r is Ok <==> endpoints_parse(tenant@),
            r matches Ok(flow) ==> flow.oauth().is_for(tenant@, client@) && flow.requested()
                == scopes@,
            r matches Err(e) ==> e == ConfigError::MalformedEndpoint,
    {
        match OAuthConfig::for_tenant(tenant, client) {
            Ok(oauth) => Ok(DeviceFlow { oauth, scopes: clone_strings(scopes) }),
            Err(e) => Err(e),
        }
    }

    /// A sign-in with a configuration that is at hand, for scopes. Nothing
    /// is asked of the configuration: whether its endpoints are URLs is told
    /// where it is made, by [`OAuthConfig::for_tenant`].
    pub fn with_config(oauth: OAuthConfig, scopes: Vec<String>) -> (flow: DeviceFlow)
        ensures
            flow.oauth() == oauth,
            flow.requested() == scopes@,
    {
        DeviceFlow { oauth, scopes }
    }

    pub fn config(&self) -> (config: &OAuthConfig)
        ensures
            *config == self.oauth(),
    {
        &self.oauth
    }

    pub fn scopes(&self) -> (scopes: &Vec<String>)
        ensures
            scopes@ == self.requested(),
    {
        &self.scopes
    }

    /// Takes what the request for a device code brought. An issued code
    /// leads on to the sign-in, with the instruction for the user; a failed
    /// request ends the flow.
    pub fn on_device_code(self, outcome: DeviceCodeOutcome) -> (r: Result<PendingSignIn, AuthError>)
        ensures
            match outcome {
                DeviceCodeOutcome::Issued { verification_uri, user_code } => {
                    &&& r matches Ok(pending)
                    &&& pending.oauth() == self.oauth()
                    &&& pending.shown() == instruction_for(verification_uri@, user_code@)
                },
                DeviceCodeOutcome::Unreachable => r == Err::<PendingSignIn, AuthError>(
                    AuthError::NetworkFailure,
                ),
            },
    {
        match outcome {
            DeviceCodeOutcome::Issued { verification_uri, user_code } => {
                let head = join3("Open ", verification_uri.as_str(), " and enter the code: ");
                let instruction = head.concat(user_code.as_str());
                Ok(PendingSignIn { oauth: self.oauth, instruction })
            },
            DeviceCodeOutcome::Unreachable => Err(AuthError::NetworkFailure),
        }
    }
}

impl PendingSignIn {
    pub closed spec fn oauth(&self) -> OAuthConfig {
        self.oauth
    }

    pub closed spec fn shown(&self) -> Seq<char> {
        self.instruction@
    }

    pub fn config(&self) -> (config: &OAuthConfig)
        ensures
            *config == self.oauth(),
    {
        &self.oauth
    }

    /// The text to show to the user, once.
    pub fn instruction(&self) -> (text: &str)
        ensures
            text@ == self.shown(),
    {
        self.instruction.as_str()
    }

    /// Takes how the polling ended, at the time `now` of a clock that never
    /// runs backwards, in seconds. A granted token gives the token holder,
    /// issued at `now`; every other end is the error that names it.
    pub fn complete(self, outcome: SignInOutcome, now: u64) -> (r: Result<Session, AuthError>)
        ensures
            match outcome {
                SignInOutcome::Granted(token) => {
                    &&& r matches Ok(session)
                    &&& session@.oauth == self.oauth()
                    &&& session@.token == token
                    &&& session@.created == now
                },
                SignInOutcome::Denied => r matches Err(e) && e == AuthError::DeviceFlowDenied,
                SignInOutcome::Expired => r matches Err(e) && e == AuthError::DeviceFlowExpired,
                SignInOutcome::Unreachable => r matches Err(e) && e == AuthError::NetworkFailure,
            },
    {
        match outcome {
            SignInOutcome::Granted(token) => Ok(Session::holding(self.oauth, token, now)),
            SignInOutcome::Denied => Err(AuthError::DeviceFlowDenied),
            SignInOutcome::Expired => Err(AuthError::DeviceFlowExpired),
            SignInOutcome::Unreachable => Err(AuthError::NetworkFailure),
        }
    }
}

} // verus!
