//! The request for a token by client credentials, and the response to it.

use vstd::prelude::*;

verus! {

/// The endpoint of the authorization server.
pub const ENDPOINT: &'static str = "https://login.microsoftonline.com";

/// The resource that monitoring data is read from.
pub const DATA_RESOURCE_MONITORING: &'static str = "https://monitoring.azure.com";

pub open spec fn monitoring_resource() -> Seq<char> {
    "https://monitoring.azure.com"@
}

/// What a request for a token by client credentials carries.
#[derive(Debug)]
pub struct AuthRequestBuilder {
    pub tenant_id: u128,
    pub client_id: u128,
    pub client_secret: String,
    pub resource: &'static str,
}

impl AuthRequestBuilder {
    /// A request for a token for the monitoring resource.
    pub fn monitoring_azure<T1, T2, T3>(tenant_id: T1, client_id: T2, client_secret: T3) -> (builder:
        Self) where T1: Into<u128>, T2: Into<u128>, T3: Into<String>
        ensures
            call_ensures(T1::into, (tenant_id,), builder.tenant_id),
            call_ensures(T2::into, (client_id,), builder.client_id),
            call_ensures(T3::into, (client_secret,), builder.client_secret),
            builder.resource@ == monitoring_resource(),
    {
        AuthRequestBuilder {
            tenant_id: tenant_id.into(),
            client_id: client_id.into(),
            client_secret: client_secret.into(),
            resource: "https://monitoring.azure.com",
        }
    }
}

/// The response to a request for a token by client credentials.
#[derive(Debug)]
pub struct AuthResponse {
    pub token_type: String,
    pub expires_in: u64,
    pub ext_expires_in: u64,
    pub expires_on: u64,
    pub not_before: u64,
    pub resource: String,
    pub access_token: String,
}

} // verus!
