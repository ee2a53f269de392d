//! The incidents of a workspace, with their alerts and entities.

use crate::apis::{
    answered, delete_resource, deleted, fetched, fetched_with, get_resource, list_resources,
    listing_of, put_resource, request_of, request_resource, ApiError, BareReply, ListRun, Reply,
    Request,
};
use crate::apis::sentinel::SentinelWorkspace;
use crate::http::Method;
use crate::text::{join2, join3};
use crate::types::azure::common::ListResponse;
use crate::types::azure::sentinel::{CreateIncident, Incident};
use crate::types::azure::sentinel::raw::{
    AlertListResponse, EntityListResponse, IncidentResponse, SecurityAlert,
};
use vstd::prelude::*;
use vstd::string::*;

verus! {

pub open spec fn incidents_path() -> Seq<char> {
    "incidents"@
}

pub open spec fn incident_path(incident_id: Seq<char>) -> Seq<char> {
    "incidents/"@ + incident_id
}

pub open spec fn incident_alerts_path(incident_id: Seq<char>) -> Seq<char> {
    "incidents/"@ + incident_id + "/alerts"@
}

pub open spec fn incident_entities_path(incident_id: Seq<char>) -> Seq<char> {
    "incidents/"@ + incident_id + "/entities"@
}

pub open spec fn incident_shape() -> Seq<char> {
    "IncidentResponse"@
}

pub open spec fn alert_list_shape() -> Seq<char> {
    "AlertListResponse"@
}

pub open spec fn entity_list_shape() -> Seq<char> {
    "EntityListResponse"@
}

/// The alerts of a list of alerts, or the error in its place.
pub open spec fn alerts_of(full: Result<AlertListResponse, ApiError>) -> Result<
    Vec<SecurityAlert>,
    ApiError,
> {
    match full {
        Ok(list) => Ok(list.value),
        Err(e) => Err(e),
    }
}

/// The path of one incident.
pub fn incident_path_for(incident_id: &str) -> (path: String)
    ensures
        path@ == incident_path(incident_id@),
{
    join2("incidents/", incident_id)
}

/// The path of the alerts of an incident.
pub fn incident_alerts_path_for(incident_id: &str) -> (path: String)
    ensures
        path@ == incident_alerts_path(incident_id@),
{
    join3("incidents/", incident_id, "/alerts")
}

/// The path of the entities of an incident.
pub fn incident_entities_path_for(incident_id: &str) -> (path: String)
    ensures
        path@ == incident_entities_path(incident_id@),
{
    join3("incidents/", incident_id, "/entities")
}

pub struct Incidents<'a> {
    pub scope: &'a SentinelWorkspace<'a>,
}

impl Incidents<'_> {
    /// All incidents, from the replies to the requests of the list.
    pub fn list(&self, replies: Vec<Reply<ListResponse<IncidentResponse>>>) -> (run: ListRun<
        Incident,
    >)
        ensures
            listing_of(*self.scope, incidents_path(), incident_shape(), replies@, run),
    {
        list_resources(self.scope, "incidents", "IncidentResponse", replies)
    }

    /// One incident.
    pub fn get<F: FnOnce(Request) -> Reply<IncidentResponse>>(&self, incident_id: &str, send: F) -> (r:
        Result<Incident, ApiError>)
        requires
            forall|request: Request| call_requires(send, (request,)),
        ensures
            fetched(
                request_of(*self.scope, Method::Get, incident_path(incident_id@)),
                incident_shape(),
                r,
                send,
            ),
    {
        let path = incident_path_for(incident_id);
        get_resource(self.scope, path.as_str(), "IncidentResponse", send)
    }

    /// Creates an incident or changes it.
    pub fn create_or_update<F: FnOnce(Request, &CreateIncident) -> Reply<IncidentResponse>>(
        &self,
        incident_id: &str,
        body: &CreateIncident,
        send: F,
    ) -> (r: Result<Incident, ApiError>)
        requires
            forall|request: Request| call_requires(send, (request, body)),
        ensures
            fetched_with(
                request_of(*self.scope, Method::Put, incident_path(incident_id@)),
                body,
                incident_shape(),
                r,
                send,
            ),
    {
        let path = incident_path_for(incident_id);
        put_resource(self.scope, path.as_str(), body, "IncidentResponse", send)
    }

    /// Deletes an incident.
    pub fn delete<F: FnOnce(Request) -> BareReply>(&self, incident_id: &str, send: F) -> (r: Result<
        (),
        ApiError,
    >)
        requires
            forall|request: Request| call_requires(send, (request,)),
        ensures
            deleted(request_of(*self.scope, Method::Delete, incident_path(incident_id@)), r, send),
    {
        let path = incident_path_for(incident_id);
        delete_resource(self.scope, path.as_str(), send)
    }

    /// The alerts of an incident: one `Post` without a body, whose response
    /// is the list.
    pub fn list_alerts<F: FnOnce(Request) -> Reply<AlertListResponse>>(
        &self,
        incident_id: &str,
        send: F,
    ) -> (r: Result<Vec<SecurityAlert>, ApiError>)
        requires
            forall|request: Request| call_requires(send, (request,)),
        ensures
            exists|full: Result<AlertListResponse, ApiError>|
                #![trigger alerts_of(full)]
                r == alerts_of(full) && answered(
                    request_of(*self.scope, Method::Post, incident_alerts_path(incident_id@)),
                    alert_list_shape(),
                    full,
                    send,
                ),
    {
        let path = incident_alerts_path_for(incident_id);
        let full = request_resource(
            self.scope,
            Method::Post,
            path.as_str(),
            "AlertListResponse",
            send,
        );
        let ghost whole = full;
        let r = match full {
            Ok(list) => Ok(list.value),
            Err(e) => Err(e),
        };
        assert(r == alerts_of(whole));
        r
    }

    /// The entities of an incident: one `Post` without a body, whose
    /// response is the list with its metadata.
    pub fn list_entities<F: FnOnce(Request) -> Reply<EntityListResponse>>(
        &self,
        incident_id: &str,
        send: F,
    ) -> (r: Result<EntityListResponse, ApiError>)
        requires
            forall|request: Request| call_requires(send, (request,)),
        ensures
            answered(
                request_of(*self.scope, Method::Post, incident_entities_path(incident_id@)),
                entity_list_shape(),
                r,
                send,
            ),
    {
        let path = incident_entities_path_for(incident_id);
        request_resource(self.scope, Method::Post, path.as_str(), "EntityListResponse", send)
    }
}

} // verus!
