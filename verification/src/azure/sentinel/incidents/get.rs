//! Gets one incident and reports what it holds.

use crate::auth::{Session, SessionStore};
use crate::azure::common::{
    call_can_be_sent, call_with, command_run, invalid_attribute_text, run_command, token_can_be_got,
    CommandError, CommandReply, ManagementCall, NoBody, TokenAudience,
};
use crate::azure::output::{
    count_if, field_views, name_if, no_fields, push_count_if, push_name_if, push_text,
    push_text_if, text_field, text_if, Field, FieldView,
};
use crate::azure::sentinel::{
    names_workspace, resource_url_of, workspace_of, MalformedTarget, Target,
};
use crate::azure::sentinel::incidents::read_target;
use crate::azure::sentinel::incidents::types::{
    Incident, IncidentAdditionalData, IncidentOwnerInfo, IncidentProperties,
};
use crate::client::auth::ExchangeOutcome;
use crate::error::AuthError;
use crate::http::Method;
use crate::oauth::DeviceFlow;
use crate::text::segments;
use vstd::prelude::*;
use vstd::string::*;

verus! {

pub open spec fn get_operation() -> Seq<char> {
    "get incident"@
}

/// Gets one incident of a workspace.
#[derive(Debug)]
pub struct GetIncidentCommand {
    pub client_id: String,
    pub tenant_id: String,
    pub target: Target,
    pub incident_id: String,
}

/// What is reported of the owner of an incident.
pub open spec fn owner_fields(before: Seq<FieldView>, v: IncidentOwnerInfo) -> Seq<FieldView> {
    let f = before;
    let f = f + text_if("owner_object_id"@, v.object_id);
    let f = f + text_if("owner_email"@, v.email);
    let f = f + text_if("owner_assigned_to"@, v.assigned_to);
    let f = f + text_if("owner_user_principal_name"@, v.user_principal_name);
    f
}

/// Adds the fields that [`owner_fields`] names.
pub fn write_owner(fields: &mut Vec<Field>, v: &IncidentOwnerInfo)
    ensures
        field_views(final(fields)@) == owner_fields(field_views(old(fields)@), *v),
{
    push_text_if(fields, "owner_object_id", &v.object_id);
    push_text_if(fields, "owner_email", &v.email);
    push_text_if(fields, "owner_assigned_to", &v.assigned_to);
    push_text_if(fields, "owner_user_principal_name", &v.user_principal_name);
}

/// The counts that are reported of an incident.
pub open spec fn additional_fields(before: Seq<FieldView>, v: IncidentAdditionalData) -> Seq<FieldView> {
    let f = before;
    let f = f + count_if("alerts_count"@, v.alerts_count);
    let f = f + count_if("bookmarks_count"@, v.bookmarks_count);
    let f = f + count_if("comments_count"@, v.comments_count);
    f
}

/// Adds the fields that [`additional_fields`] names.
pub fn write_additional(fields: &mut Vec<Field>, v: &IncidentAdditionalData)
    ensures
        field_views(final(fields)@) == additional_fields(field_views(old(fields)@), *v),
{
    push_count_if(fields, "alerts_count", v.alerts_count);
    push_count_if(fields, "bookmarks_count", v.bookmarks_count);
    push_count_if(fields, "comments_count", v.comments_count);
}

/// What is reported of the properties of an incident.
pub open spec fn properties_fields(before: Seq<FieldView>, v: IncidentProperties) -> Seq<FieldView> {
    let f = before;
    let f = f.push(text_field("title"@, v.title@));
    let f = f.push(text_field("severity"@, v.severity.name_of()));
    let f = f.push(text_field("status"@, v.status.name_of()));
    let f = f + count_if("incident_number"@, v.incident_number);
    let f = f + text_if("incident_url"@, v.incident_url);
    let f = f + text_if("created_time_utc"@, v.created_time_utc);
    let f = f + text_if("last_modified_time_utc"@, v.last_modified_time_utc);
    let f = f + text_if("description"@, v.description);
    let f = f + text_if("first_activity_time_utc"@, v.first_activity_time_utc);
    let f = f + text_if("last_activity_time_utc"@, v.last_activity_time_utc);
    let f = f + name_if(
        "classification"@,
        match v.classification {
            Some(v) => Some(v.name_of()),
            None => None,
        },
    );
    let f = f + text_if("classification_comment"@, v.classification_comment);
    let f = f + name_if(
        "classification_reason"@,
        match v.classification_reason {
            Some(v) => Some(v.name_of()),
            None => None,
        },
    );
    let f = match v.owner {
        Some(v) => owner_fields(f, v),
        None => f,
    };
    let f = match v.additional_data {
        Some(v) => additional_fields(f, v),
        None => f,
    };
    let f = f + text_if("provider_name"@, v.provider_name);
    let f = f + text_if("provider_incident_id"@, v.provider_incident_id);
    f
}

/// Adds the fields that [`properties_fields`] names.
pub fn write_properties(fields: &mut Vec<Field>, v: &IncidentProperties)
    ensures
        field_views(final(fields)@) == properties_fields(field_views(old(fields)@), *v),
{
    push_text(fields, "title", v.title.as_str());
    push_text(fields, "severity", v.severity.name());
    push_text(fields, "status", v.status.name());
    push_count_if(fields, "incident_number", v.incident_number);
    push_text_if(fields, "incident_url", &v.incident_url);
    push_text_if(fields, "created_time_utc", &v.created_time_utc);
    push_text_if(fields, "last_modified_time_utc", &v.last_modified_time_utc);
    push_text_if(fields, "description", &v.description);
    push_text_if(fields, "first_activity_time_utc", &v.first_activity_time_utc);
    push_text_if(fields, "last_activity_time_utc", &v.last_activity_time_utc);
    push_name_if(
        fields,
        "classification",
        match &v.classification {
            Some(v) => Some(v.name()),
            None => None,
        },
    );
    push_text_if(fields, "classification_comment", &v.classification_comment);
    push_name_if(
        fields,
        "classification_reason",
        match &v.classification_reason {
            Some(v) => Some(v.name()),
            None => None,
        },
    );
    match &v.owner {
        Some(v) => {
            write_owner(fields, v);
        },
        None => {},
    }
    match &v.additional_data {
        Some(v) => {
            write_additional(fields, v);
        },
        None => {},
    }
    push_text_if(fields, "provider_name", &v.provider_name);
    push_text_if(fields, "provider_incident_id", &v.provider_incident_id);
}

/// What is reported of one incident: its identifiers, then its properties where it has any.
pub open spec fn incident_fields(before: Seq<FieldView>, incident: Incident) -> Seq<FieldView> {
    let f = before;
    let f = f + text_if("id"@, incident.id);
    let f = f + text_if("name"@, incident.name);
    let f = f + text_if("etag"@, incident.etag);
    let f = match incident.properties {
        Some(v) => properties_fields(f, v),
        None => f,
    };
    f
}

/// Adds the fields that [`incident_fields`] names.
pub fn write_incident(fields: &mut Vec<Field>, incident: &Incident)
    ensures
        field_views(final(fields)@) == incident_fields(field_views(old(fields)@), *incident),
{
    push_text_if(fields, "id", &incident.id);
    push_text_if(fields, "name", &incident.name);
    push_text_if(fields, "etag", &incident.etag);
    match &incident.properties {
        Some(v) => {
            write_properties(fields, v);
        },
        None => {},
    }
}

/// What the command reports by what it got: the fields of the incident, or the error.
pub open spec fn reported_as(
    got: Result<Incident, CommandError>,
    r: Result<Vec<Field>, CommandError>,
) -> bool {
    match got {
        Ok(incident) => r matches Ok(fields) && field_views(fields@)
            == incident_fields(Seq::empty(), incident),
        Err(e) => r == Err::<Vec<Field>, CommandError>(e),
    }
}

impl GetIncidentCommand {
    /// The command for the attributes given. The target is read as
    /// [`Target::parse`] reads it; where that fails, the error names the
    /// attribute and says why.
    pub fn from_attributes(
        client_id: String,
        tenant_id: String,
        target: &str,
        incident_id: String,
    ) -> (r: Result<Self, CommandError>)
        ensures
            r is Ok <==> names_workspace(segments(target@, '/')),
            r matches Ok(command) ==> command.target@ == workspace_of(segments(target@, '/'))
                && command.client_id == client_id && command.tenant_id == tenant_id
                && command.incident_id == incident_id,
            r matches Err(e) ==> e.text() == invalid_attribute_text(
                "target"@,
                MalformedTarget::text(),
            ),
    {
        match read_target(target) {
            Ok(target) => Ok(Self { client_id, tenant_id, target, incident_id }),
            Err(e) => Err(e),
        }
    }

    /// The URL of the incident.
    pub open spec fn url_of(&self) -> Seq<char> {
        resource_url_of(self.target@, "incident"@, Some(self.incident_id@))
    }

    /// What the command reports of the incident that it got.
    pub fn report(incident: &Incident) -> (fields: Vec<Field>)
        ensures
            field_views(fields@) == incident_fields(Seq::empty(), *incident),
    {
        let mut fields = no_fields();
        write_incident(&mut fields, incident);
        fields
    }

    /// The call that the command makes with a token.
    pub fn call(&self, token: &str) -> (call: ManagementCall<NoBody>)
        ensures
            call@ == call_with(Method::Get, self.url_of(), false, None::<NoBody>, token@),
    {
        ManagementCall::new(Method::Get, self.target.resource_url("incident", Some(self.incident_id.as_str())), token, false, None::<NoBody>)
    }

    /// Runs the command: gets the token, asks for the incident by `Get`, and
    /// reports it.
    pub fn execute<
        E: FnOnce(DeviceFlow) -> Result<Session, AuthError>,
        X: FnOnce(String) -> ExchangeOutcome,
        F: FnOnce(ManagementCall<NoBody>) -> CommandReply<Incident>,
    >(
        &self,
        http_present: bool,
        store: &mut Option<SessionStore>,
        now: u64,
        establish: E,
        exchange: X,
        send: F,
    ) -> (r: Result<Vec<Field>, CommandError>)
        requires
            token_can_be_got(
                http_present,
                *old(store),
                self.client_id@,
                self.tenant_id@,
                TokenAudience::AzureManagement,
                now,
                establish,
                exchange,
            ),
            call_can_be_sent(
                http_present,
                *old(store),
                self.client_id@,
                self.tenant_id@,
                TokenAudience::AzureManagement,
                |token: Seq<char>|
                    call_with(Method::Get, self.url_of(), false, None::<NoBody>, token),
                now,
                establish,
                exchange,
                send,
            ),
        ensures
            exists|got: Result<Incident, CommandError>|
                #![trigger reported_as(got, r)]
                {
                    &&& command_run(
                        http_present,
                        *old(store),
                        *final(store),
                        self.client_id@,
                        self.tenant_id@,
                        |token: Seq<char>|
                            call_with(Method::Get, self.url_of(), false, None::<NoBody>, token),
                        get_operation(),
                        got,
                        now,
                        establish,
                        exchange,
                        send,
                    )
                    &&& reported_as(got, r)
                },
    {
        let url = self.target.resource_url("incident", Some(self.incident_id.as_str()));
        let got = run_command(
            http_present,
            store,
            self.client_id.as_str(),
            self.tenant_id.as_str(),
            Method::Get,
            url,
            false,
            None::<NoBody>,
            "get incident",
            now,
            establish,
            exchange,
            send,
        );
        let ghost whole = got;
        let r = match got {
            Ok(incident) => Ok(GetIncidentCommand::report(&incident)),
            Err(e) => Err(e),
        };
        assert(reported_as(whole, r));
        r
    }
}

} // verus!
