//! The metadata of a workspace: its tables and functions.

use crate::apis::{answered, request_of, request_resource, ApiError, Reply, Request};
use crate::apis::log_analytics::LogAnalyticsWorkspace;
use crate::http::Method;
use crate::types::azure::log_analytics::MetadataResponse;
use vstd::prelude::*;

verus! {

pub open spec fn metadata_path() -> Seq<char> {
    "metadata"@
}

pub open spec fn metadata_shape() -> Seq<char> {
    "MetadataResponse"@
}

pub struct Metadata<'a> {
    pub scope: &'a LogAnalyticsWorkspace<'a>,
}

impl Metadata<'_> {
    /// The tables and functions of the workspace, with their schemas.
    pub fn get<F: FnOnce(Request) -> Reply<MetadataResponse>>(&self, send: F) -> (r: Result<
        MetadataResponse,
        ApiError,
    >)
        requires
            forall|request: Request| call_requires(send, (request,)),
        ensures
            answered(
                request_of(*self.scope, Method::Get, metadata_path()),
                metadata_shape(),
                r,
                send,
            ),
    {
        request_resource(self.scope, Method::Get, "metadata", "MetadataResponse", send)
    }
}

} // verus!
