//! Requests and responses as plain values: what the library hands to a
//! transport and what it takes back.

use vstd::prelude::*;

verus! {

/// The HTTP methods that the library uses.
#[derive(Debug, Clone, Copy, PartialEq, Eq, Structural)]
pub enum Method {
    Get,
    Put,
    Post,
    Delete,
}

/// A request that carries a bearer token.
pub struct AuthorizedRequest {
    pub method: Method,
    pub url: String,
    /// The value of the `Authorization` header.
    pub authorization: String,
}

/// A status code that reports success: 200 to 299.
pub open spec fn is_success(status: u16) -> bool {
    200 <= status <= 299
}

pub fn status_is_success(status: u16) -> (ok: bool)
    ensures
        ok == is_success(status),
{
    200 <= status && status <= 299
}

} // verus!
