//! Queries against a workspace.

use crate::apis::{answered_with, request_of, request_with, ApiError, Reply, Request};
use crate::apis::log_analytics::LogAnalyticsWorkspace;
use crate::http::Method;
use crate::types::azure::log_analytics::{QueryBody, QueryResponse};
use vstd::prelude::*;
use vstd::string::*;

verus! {

pub open spec fn query_path() -> Seq<char> {
    "query"@
}

pub open spec fn query_shape() -> Seq<char> {
    "QueryResponse"@
}

/// A parameter of a query string, as a plain value.
pub open spec fn parameter_views(parameters: Seq<(String, String)>) -> Seq<(Seq<char>, Seq<char>)> {
    parameters.map_values(|p: (String, String)| (p.0@, p.1@))
}

/// The parameters of a query by `Get`: the query, then the timespan where
/// there is one.
pub open spec fn query_parameters(query: Seq<char>, timespan: Option<Seq<char>>) -> Seq<
    (Seq<char>, Seq<char>),
> {
    match timespan {
        Some(span) => seq![("query"@, query), ("timespan"@, span)],
        None => seq![("query"@, query)],
    }
}

/// The view of a timespan.
pub open spec fn span_view(timespan: Option<&str>) -> Option<Seq<char>> {
    match timespan {
        Some(span) => Some(span@),
        None => None,
    }
}

pub struct Query<'a> {
    pub scope: &'a LogAnalyticsWorkspace<'a>,
}

impl Query<'_> {
    /// The parameters of a query by `Get`.
    pub fn parameters(query: &str, timespan: Option<&str>) -> (parameters: Vec<(String, String)>)
        ensures
            parameter_views(parameters@) == query_parameters(query@, span_view(timespan)),
    {
        let mut parameters: Vec<(String, String)> = Vec::new();
        parameters.push((String::from_str("query"), String::from_str(query)));
        match timespan {
            Some(span) => {
                parameters.push((String::from_str("timespan"), String::from_str(span)));
            },
            None => {},
        }
        parameters
    }

    /// Runs a query whose text and timespan travel in the query string: one
    /// `Get`, to which `send` adds the parameters.
    pub fn get<F: FnOnce(Request, &Vec<(String, String)>) -> Reply<QueryResponse>>(
        &self,
        query: &str,
        timespan: Option<&str>,
        send: F,
    ) -> (r: Result<QueryResponse, ApiError>)
        requires
            forall|request: Request, parameters: &Vec<(String, String)>|
                call_requires(send, (request, parameters)),
        ensures
            exists|parameters: &Vec<(String, String)>|
                #![trigger parameter_views(parameters@)]
                parameter_views(parameters@) == query_parameters(query@, span_view(timespan))
                    && answered_with(
                    request_of(*self.scope, Method::Get, query_path()),
                    parameters,
                    query_shape(),
                    r,
                    send,
                ),
    {
        let parameters = Query::parameters(query, timespan);
        request_with(
            self.scope,
            Method::Get,
            "query",
            &parameters,
            "QueryResponse",
            send,
        )
    }

    /// Runs a query whose text travels in the body: one `Post` of the body.
    pub fn execute<F: FnOnce(Request, &QueryBody) -> Reply<QueryResponse>>(
        &self,
        body: &QueryBody,
        send: F,
    ) -> (r: Result<QueryResponse, ApiError>)
        requires
            forall|request: Request| call_requires(send, (request, body)),
        ensures
            answered_with(
                request_of(*self.scope, Method::Post, query_path()),
                body,
                query_shape(),
                r,
                send,
            ),
    {
        request_with(self.scope, Method::Post, "query", body, "QueryResponse", send)
    }
}

} // verus!
