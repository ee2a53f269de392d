//! Creates an incident or changes it.

use crate::auth::{Session, SessionStore};
use crate::azure::common::{
    call_can_be_sent, call_with, command_run, invalid_attribute_text, run_command, token_can_be_got,
    CommandError, CommandReply, ManagementCall, TokenAudience,
};
use crate::azure::output::{
    count_if, field_views, no_fields, push_count_if, push_text_if, text_if, Field, FieldView,
};
use crate::azure::sentinel::{
    names_workspace, resource_url_of, workspace_of, MalformedTarget, Target,
};
use crate::azure::sentinel::incidents::read_target;
use crate::azure::sentinel::incidents::types::{
    classification_named, classification_reason_named, parse_incident_classification,
    parse_incident_classification_reason, parse_incident_severity, parse_incident_status,
    severity_named, status_named, Incident, IncidentClassification, IncidentClassificationReason,
    IncidentProperties, IncidentSeverity, IncidentStatus, InvalidName, NameKind,
};
use crate::client::auth::ExchangeOutcome;
use crate::error::AuthError;
use crate::http::Method;
use crate::oauth::DeviceFlow;
use crate::text::segments;
use vstd::prelude::*;
use vstd::string::*;

verus! {

pub open spec fn create_operation() -> Seq<char> {
    "create/update incident"@
}

/// Creates one incident of a workspace, or changes it.
#[derive(Debug)]
pub struct CreateIncidentCommand {
    pub client_id: String,
    pub tenant_id: String,
    pub target: Target,
    pub incident_id: String,
    pub title: String,
    pub severity: IncidentSeverity,
    pub status: IncidentStatus,
    pub etag: Option<String>,
    pub description: Option<String>,
    pub classification: Option<IncidentClassification>,
    pub classification_comment: Option<String>,
    pub classification_reason: Option<IncidentClassificationReason>,
    pub first_activity_time_utc: Option<String>,
    pub last_activity_time_utc: Option<String>,
    pub owner_object_id: Option<String>,
}

/// The attributes of the command as they are given: texts that are yet to be
/// read.
#[derive(Debug)]
pub struct CreateIncidentAttributes {
    pub client_id: String,
    pub tenant_id: String,
    pub target: String,
    pub incident_id: String,
    pub title: String,
    pub severity: String,
    pub status: String,
    pub etag: Option<String>,
    pub description: Option<String>,
    pub classification: Option<String>,
    pub classification_comment: Option<String>,
    pub classification_reason: Option<String>,
    pub first_activity_time_utc: Option<String>,
    pub last_activity_time_utc: Option<String>,
    pub owner_object_id: Option<String>,
}

/// The owner in the body of the call.
#[derive(Debug)]
pub struct IncidentBodyOwner {
    pub object_id: String,
}

/// The properties in the body of the call.
#[derive(Debug)]
pub struct IncidentBodyProperties {
    pub title: String,
    pub severity: IncidentSeverity,
    pub status: IncidentStatus,
    pub description: Option<String>,
    pub classification: Option<IncidentClassification>,
    pub classification_comment: Option<String>,
    pub classification_reason: Option<IncidentClassificationReason>,
    pub first_activity_time_utc: Option<String>,
    pub last_activity_time_utc: Option<String>,
    pub owner: Option<IncidentBodyOwner>,
}

/// The body of the call: the properties, and the etag where one is given.
#[derive(Debug)]
pub struct IncidentBody {
    pub properties: IncidentBodyProperties,
    pub etag: Option<String>,
}

/// What is reported of the properties of an incident that was created or changed.
pub open spec fn created_properties_fields(before: Seq<FieldView>, v: IncidentProperties) -> Seq<FieldView> {
    let f = before;
    let f = f + count_if("incident_number"@, v.incident_number);
    let f = f + text_if("incident_url"@, v.incident_url);
    f
}

/// Adds the fields that [`created_properties_fields`] names.
pub fn write_created_properties(fields: &mut Vec<Field>, v: &IncidentProperties)
    ensures
        field_views(final(fields)@) == created_properties_fields(field_views(old(fields)@), *v),
{
    push_count_if(fields, "incident_number", v.incident_number);
    push_text_if(fields, "incident_url", &v.incident_url);
}

/// What is reported of an incident that was created or changed: its name as its identifier, its number and its URL.
pub open spec fn created_fields(before: Seq<FieldView>, incident: Incident) -> Seq<FieldView> {
    let f = before;
    let f = f + text_if("incident_id"@, incident.name);
    let f = match incident.properties {
        Some(v) => created_properties_fields(f, v),
        None => f,
    };
    f
}

/// Adds the fields that [`created_fields`] names.
pub fn write_created(fields: &mut Vec<Field>, incident: &Incident)
    ensures
        field_views(final(fields)@) == created_fields(field_views(old(fields)@), *incident),
{
    push_text_if(fields, "incident_id", &incident.name);
    match &incident.properties {
        Some(v) => {
            write_created_properties(fields, v);
        },
        None => {},
    }
}

/// The message of a name that names nothing of its kind.
pub open spec fn invalid_name_text(kind: NameKind, given: Seq<char>) -> Seq<char> {
    kind.opening() + given + kind.choices()
}

/// The first of the attributes that cannot be read, in the order target,
/// severity, status, classification, classification reason; by what its error
/// says.
pub open spec fn first_unreadable(attributes: CreateIncidentAttributes) -> Option<Seq<char>> {
    if !names_workspace(segments(attributes.target@, '/')) {
        Some(invalid_attribute_text("target"@, MalformedTarget::text()))
    } else if severity_named(attributes.severity@) is None {
        Some(invalid_name_text(NameKind::Severity, attributes.severity@))
    } else if status_named(attributes.status@) is None {
        Some(invalid_name_text(NameKind::Status, attributes.status@))
    } else if attributes.classification matches Some(name) && classification_named(name@)
        is None {
        Some(invalid_name_text(NameKind::Classification, attributes.classification->Some_0@))
    } else if attributes.classification_reason matches Some(name)
        && classification_reason_named(name@) is None {
        Some(
            invalid_name_text(
                NameKind::ClassificationReason,
                attributes.classification_reason->Some_0@,
            ),
        )
    } else {
        None
    }
}

/// The error of a name that names nothing of its kind.
pub fn invalid_name(e: InvalidName) -> (told: CommandError)
    ensures
        told.text() == invalid_name_text(e.kind, e.given@),
{
    CommandError::InvalidValue { message: e.message() }
}

/// What the command reports by what came back: the fields of the incident, or the error.
pub open spec fn reported_as(
    got: Result<Incident, CommandError>,
    r: Result<Vec<Field>, CommandError>,
) -> bool {
    match got {
        Ok(incident) => r matches Ok(fields) && field_views(fields@)
            == created_fields(Seq::empty(), incident),
        Err(e) => r == Err::<Vec<Field>, CommandError>(e),
    }
}

impl CreateIncidentCommand {
    /// The command for the attributes given. The target, the severity, the
    /// status and, where they are given, the classification and its reason
    /// are read; the first that cannot be read is the error. All else goes
    /// into the command as it stands.
    pub fn from_attributes(attributes: CreateIncidentAttributes) -> (r: Result<Self, CommandError>)
        ensures
            match first_unreadable(attributes) {
                Some(text) => r matches Err(e) && e.text() == text,
                None => {
                    &&& r matches Ok(command)
                    &&& command.client_id == attributes.client_id
                    &&& command.tenant_id == attributes.tenant_id
                    &&& command.target@ == workspace_of(segments(attributes.target@, '/'))
                    &&& command.incident_id == attributes.incident_id
                    &&& command.title == attributes.title
                    &&& Some(command.severity) == severity_named(attributes.severity@)
                    &&& Some(command.status) == status_named(attributes.status@)
                    &&& command.etag == attributes.etag
                    &&& command.description == attributes.description
                    &&& command.classification == match attributes.classification {
                        Some(name) => classification_named(name@),
                        None => None,
                    }
                    &&& command.classification_comment == attributes.classification_comment
                    &&& command.classification_reason == match attributes.classification_reason {
                        Some(name) => classification_reason_named(name@),
                        None => None,
                    }
                    &&& command.first_activity_time_utc == attributes.first_activity_time_utc
                    &&& command.last_activity_time_utc == attributes.last_activity_time_utc
                    &&& command.owner_object_id == attributes.owner_object_id
                },
            },
    {
        let target = match read_target(attributes.target.as_str()) {
            Ok(target) => target,
            Err(e) => {
                return Err(e);
            },
        };
        let severity = match parse_incident_severity(attributes.severity.as_str()) {
            Ok(severity) => severity,
            Err(e) => {
                return Err(invalid_name(e));
            },
        };
        let status = match parse_incident_status(attributes.status.as_str()) {
            Ok(status) => status,
            Err(e) => {
                return Err(invalid_name(e));
            },
        };
        let classification = match &attributes.classification {
            None => None,
            Some(name) => match parse_incident_classification(name.as_str()) {
                Ok(classification) => Some(classification),
                Err(e) => {
                    return Err(invalid_name(e));
                },
            },
        };
        let classification_reason = match &attributes.classification_reason {
            None => None,
            Some(name) => match parse_incident_classification_reason(name.as_str()) {
                Ok(reason) => Some(reason),
                Err(e) => {
                    return Err(invalid_name(e));
                },
            },
        };
        Ok(
            CreateIncidentCommand {
                client_id: attributes.client_id,
                tenant_id: attributes.tenant_id,
                target,
                incident_id: attributes.incident_id,
                title: attributes.title,
                severity,
                status,
                etag: attributes.etag,
                description: attributes.description,
                classification,
                classification_comment: attributes.classification_comment,
                classification_reason,
                first_activity_time_utc: attributes.first_activity_time_utc,
                last_activity_time_utc: attributes.last_activity_time_utc,
                owner_object_id: attributes.owner_object_id,
            },
        )
    }

    /// The URL of the incident.
    pub open spec fn url_of(&self) -> Seq<char> {
        resource_url_of(self.target@, "incident"@, Some(self.incident_id@))
    }

    /// The body of the call: the title, the severity and the status; of the
    /// rest what is given; the owner by the identifier of its object.
    pub open spec fn body_of(&self) -> IncidentBody {
        IncidentBody {
            properties: IncidentBodyProperties {
                title: self.title,
                severity: self.severity,
                status: self.status,
                description: self.description,
                classification: self.classification,
                classification_comment: self.classification_comment,
                classification_reason: self.classification_reason,
                first_activity_time_utc: self.first_activity_time_utc,
                last_activity_time_utc: self.last_activity_time_utc,
                owner: match self.owner_object_id {
                    Some(object_id) => Some(IncidentBodyOwner { object_id }),
                    None => None,
                },
            },
            etag: self.etag,
        }
    }

    /// The body of the call.
    pub fn build_request_body(&self) -> (body: IncidentBody)
        ensures
            body == self.body_of(),
    {
        IncidentBody {
            properties: IncidentBodyProperties {
                title: self.title.clone(),
                severity: self.severity,
                status: self.status,
                description: copy_of(&self.description),
                classification: self.classification,
                classification_comment: copy_of(&self.classification_comment),
                classification_reason: self.classification_reason,
                first_activity_time_utc: copy_of(&self.first_activity_time_utc),
                last_activity_time_utc: copy_of(&self.last_activity_time_utc),
                owner: match &self.owner_object_id {
                    Some(object_id) => Some(IncidentBodyOwner { object_id: object_id.clone() }),
                    None => None,
                },
            },
            etag: copy_of(&self.etag),
        }
    }

    /// What the command reports of the incident as the service sent it back.
    pub fn report(incident: &Incident) -> (fields: Vec<Field>)
        ensures
            field_views(fields@) == created_fields(Seq::empty(), *incident),
    {
        let mut fields = no_fields();
        write_created(&mut fields, incident);
        fields
    }

    /// The call that the command makes with a token.
    pub fn call(&self, token: &str) -> (call: ManagementCall<IncidentBody>)
        ensures
            call@ == call_with(Method::Put, self.url_of(), true, Some(self.body_of()), token@),
    {
        ManagementCall::new(Method::Put, self.target.resource_url("incident", Some(self.incident_id.as_str())), token, true, Some(self.build_request_body()))
    }

    /// Runs the command: gets the token, puts the body, and reports the
    /// incident as the service sent it back.
    pub fn execute<
        E: FnOnce(DeviceFlow) -> Result<Session, AuthError>,
        X: FnOnce(String) -> ExchangeOutcome,
        F: FnOnce(ManagementCall<IncidentBody>) -> CommandReply<Incident>,
    >(
        &self,
        http_present: bool,
        store: &mut Option<SessionStore>,
        now: u64,
        establish: E,
        exchange: X,
        send: F,
    ) -> (r: Result<Vec<Field>, CommandError>)
        requires
            token_can_be_got(
                http_present,
                *old(store),
                self.client_id@,
                self.tenant_id@,
                TokenAudience::AzureManagement,
                now,
                establish,
                exchange,
            ),
            call_can_be_sent(
                http_present,
                *old(store),
                self.client_id@,
                self.tenant_id@,
                TokenAudience::AzureManagement,
                |token: Seq<char>|
                    call_with(Method::Put, self.url_of(), true, Some(self.body_of()), token),
                now,
                establish,
                exchange,
                send,
            ),
        ensures
            exists|got: Result<Incident, CommandError>|
                #![trigger reported_as(got, r)]
                {
                    &&& command_run(
                        http_present,
                        *old(store),
                        *final(store),
                        self.client_id@,
                        self.tenant_id@,
                        |token: Seq<char>|
                            call_with(Method::Put, self.url_of(), true, Some(self.body_of()), token),
                        create_operation(),
                        got,
                        now,
                        establish,
                        exchange,
                        send,
                    )
                    &&& reported_as(got, r)
                },
    {
        let url = self.target.resource_url("incident", Some(self.incident_id.as_str()));
        let got = run_command(
            http_present,
            store,
            self.client_id.as_str(),
            self.tenant_id.as_str(),
            Method::Put,
            url,
            true,
            Some(self.build_request_body()),
            "create/update incident",
            now,
            establish,
            exchange,
            send,
        );
        let ghost whole = got;
        let r = match got {
            Ok(incident) => Ok(CreateIncidentCommand::report(&incident)),
            Err(e) => Err(e),
        };
        assert(reported_as(whole, r));
        r
    }
}

/// A copy of a text that may be missing.
pub fn copy_of(text: &Option<String>) -> (copy: Option<String>)
    ensures
        copy == *text,
{
    match text {
        Some(t) => Some(t.clone()),
        None => None,
    }
}

} // verus!
