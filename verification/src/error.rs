//! The errors that the library hands to its callers.

use vstd::prelude::*;

verus! {

/// Why a token could not be obtained or kept fresh.
#[derive(Debug, Clone, Copy, PartialEq, Eq, Structural)]
pub enum AuthError {
    /// The user refused consent during the device-code sign-in.
    DeviceFlowDenied,
    /// The device code ran out before the user signed in.
    DeviceFlowExpired,
    /// A refresh is due and the held token carries no refresh token.
    NoRefreshToken,
    /// The authorization server turned the refresh token down.
    RefreshRejected,
    /// The exchange did not reach the authorization server or broke on the way.
    NetworkFailure,
}

/// Why a client configuration could not be built.
#[derive(Debug, Clone, Copy, PartialEq, Eq, Structural)]
pub enum ConfigError {
    /// The tenant identifier is not a UUID.
    MalformedTenant,
    /// The client identifier is not a UUID.
    MalformedClient,
    /// An endpoint built for the tenant is not a URL.
    MalformedEndpoint,
}

/// Why an API request gave no result.
#[derive(Debug, Clone, PartialEq, Eq)]
pub enum RequestError {
    /// The request did not reach the server or the response did not arrive.
    TransportFailure,
    /// The server answered with a status outside 200..=299.
    UnsuccessfulStatus { code: u16, body: String },
    /// The body of a successful response is not of the expected shape.
    DecodeFailure { expected_shape: String },
}

/// The plain content of a [`RequestError`].
pub enum RequestErrorView {
    TransportFailure,
    UnsuccessfulStatus { code: u16, body: Seq<char> },
    DecodeFailure { expected_shape: Seq<char> },
}

impl View for RequestError {
    type V = RequestErrorView;

    open spec fn view(&self) -> RequestErrorView {
        match *self {
            RequestError::TransportFailure => RequestErrorView::TransportFailure,
            RequestError::UnsuccessfulStatus { code, body } => RequestErrorView::UnsuccessfulStatus {
                code,
                body: body@,
            },
            RequestError::DecodeFailure { expected_shape } => RequestErrorView::DecodeFailure {
                expected_shape: expected_shape@,
            },
        }
    }
}

} // verus!
