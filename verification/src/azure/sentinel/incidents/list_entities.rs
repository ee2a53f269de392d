//! Lists the entities of an incident.

use crate::auth::{Session, SessionStore};
use crate::azure::common::{
    call_can_be_sent, call_with, command_run, invalid_attribute_text, run_command, token_can_be_got,
    CommandError, CommandReply, ManagementCall, NoBody, TokenAudience,
};
use crate::azure::output::{
    field_views, no_fields, push_text, push_text_if, text_field, text_if, Field, FieldView, Row,
};
use crate::azure::sentinel::{
    incident_sub_resource_url_of, names_workspace, workspace_of, MalformedTarget, Target,
};
use crate::azure::sentinel::incidents::create_update::copy_of;
use crate::azure::sentinel::incidents::read_target;
use crate::azure::sentinel::incidents::types::{Entity, EntityKind, IncidentEntitiesResponse};
use crate::client::auth::ExchangeOutcome;
use crate::error::AuthError;
use crate::http::Method;
use crate::oauth::DeviceFlow;
use crate::text::segments;
use crate::types::azure::resource_manager::items_or_empty;
use vstd::prelude::*;
use vstd::string::*;

verus! {

pub open spec fn entities_operation() -> Seq<char> {
    "list incident entities"@
}

/// Lists the entities of one incident of a workspace.
#[derive(Debug)]
pub struct ListIncidentEntitiesCommand {
    pub client_id: String,
    pub tenant_id: String,
    pub target: Target,
    pub incident_id: String,
}

/// What is read of an entity, whatever its kind: its identifiers, its kind,
/// whether it has properties and, of those, the friendly name.
#[derive(Debug)]
pub struct EntitySummary {
    pub id: Option<String>,
    pub name: Option<String>,
    pub kind: EntityKind,
    pub has_properties: bool,
    pub friendly_name: Option<String>,
}

/// What is read of an entity.
pub open spec fn summary_of(entity: Entity) -> EntitySummary {
    match entity {
        Entity::Account(e) => EntitySummary {
            id: e.id,
            name: e.name,
            kind: EntityKind::Account,
            has_properties: e.properties is Some,
            friendly_name: match e.properties {
                Some(p) => p.friendly_name,
                None => None,
            },
        },
        Entity::Host(e) => EntitySummary {
            id: e.id,
            name: e.name,
            kind: EntityKind::Host,
            has_properties: e.properties is Some,
            friendly_name: match e.properties {
                Some(p) => p.friendly_name,
                None => None,
            },
        },
        Entity::File(e) => EntitySummary {
            id: e.id,
            name: e.name,
            kind: EntityKind::File,
            has_properties: e.properties is Some,
            friendly_name: match e.properties {
                Some(p) => p.friendly_name,
                None => None,
            },
        },
        Entity::FileHash(e) => EntitySummary {
            id: e.id,
            name: e.name,
            kind: EntityKind::FileHash,
            has_properties: e.properties is Some,
            friendly_name: match e.properties {
                Some(p) => p.friendly_name,
                None => None,
            },
        },
        Entity::AzureResource(e) => EntitySummary {
            id: e.id,
            name: e.name,
            kind: EntityKind::AzureResource,
            has_properties: e.properties is Some,
            friendly_name: match e.properties {
                Some(p) => p.friendly_name,
                None => None,
            },
        },
        Entity::CloudApplication(e) => EntitySummary {
            id: e.id,
            name: e.name,
            kind: EntityKind::CloudApplication,
            has_properties: e.properties is Some,
            friendly_name: match e.properties {
                Some(p) => p.friendly_name,
                None => None,
            },
        },
        Entity::DnsResolution(e) => EntitySummary {
            id: e.id,
            name: e.name,
            kind: EntityKind::DnsResolution,
            has_properties: e.properties is Some,
            friendly_name: match e.properties {
                Some(p) => p.friendly_name,
                None => None,
            },
        },
        Entity::Ip(e) => EntitySummary {
            id: e.id,
            name: e.name,
            kind: EntityKind::Ip,
            has_properties: e.properties is Some,
            friendly_name: match e.properties {
                Some(p) => p.friendly_name,
                None => None,
            },
        },
        Entity::Malware(e) => EntitySummary {
            id: e.id,
            name: e.name,
            kind: EntityKind::Malware,
            has_properties: e.properties is Some,
            friendly_name: match e.properties {
                Some(p) => p.friendly_name,
                None => None,
            },
        },
        Entity::Process(e) => EntitySummary {
            id: e.id,
            name: e.name,
            kind: EntityKind::Process,
            has_properties: e.properties is Some,
            friendly_name: match e.properties {
                Some(p) => p.friendly_name,
                None => None,
            },
        },
        Entity::RegistryKey(e) => EntitySummary {
            id: e.id,
            name: e.name,
            kind: EntityKind::RegistryKey,
            has_properties: e.properties is Some,
            friendly_name: match e.properties {
                Some(p) => p.friendly_name,
                None => None,
            },
        },
        Entity::RegistryValue(e) => EntitySummary {
            id: e.id,
            name: e.name,
            kind: EntityKind::RegistryValue,
            has_properties: e.properties is Some,
            friendly_name: match e.properties {
                Some(p) => p.friendly_name,
                None => None,
            },
        },
        Entity::SecurityGroup(e) => EntitySummary {
            id: e.id,
            name: e.name,
            kind: EntityKind::SecurityGroup,
            has_properties: e.properties is Some,
            friendly_name: match e.properties {
                Some(p) => p.friendly_name,
                None => None,
            },
        },
        Entity::Url(e) => EntitySummary {
            id: e.id,
            name: e.name,
            kind: EntityKind::Url,
            has_properties: e.properties is Some,
            friendly_name: match e.properties {
                Some(p) => p.friendly_name,
                None => None,
            },
        },
        Entity::IoTDevice(e) => EntitySummary {
            id: e.id,
            name: e.name,
            kind: EntityKind::IoTDevice,
            has_properties: e.properties is Some,
            friendly_name: match e.properties {
                Some(p) => p.friendly_name,
                None => None,
            },
        },
        Entity::SecurityAlert(e) => EntitySummary {
            id: e.id,
            name: e.name,
            kind: EntityKind::SecurityAlert,
            has_properties: e.properties is Some,
            friendly_name: match e.properties {
                Some(p) => p.friendly_name,
                None => None,
            },
        },
        Entity::Bookmark(e) => EntitySummary {
            id: e.id,
            name: e.name,
            kind: EntityKind::Bookmark,
            has_properties: e.properties is Some,
            friendly_name: match e.properties {
                Some(p) => p.friendly_name,
                None => None,
            },
        },
        Entity::Mailbox(e) => EntitySummary {
            id: e.id,
            name: e.name,
            kind: EntityKind::Mailbox,
            has_properties: e.properties is Some,
            friendly_name: match e.properties {
                Some(p) => p.friendly_name,
                None => None,
            },
        },
        Entity::MailCluster(e) => EntitySummary {
            id: e.id,
            name: e.name,
            kind: EntityKind::MailCluster,
            has_properties: e.properties is Some,
            friendly_name: match e.properties {
                Some(p) => p.friendly_name,
                None => None,
            },
        },
        Entity::MailMessage(e) => EntitySummary {
            id: e.id,
            name: e.name,
            kind: EntityKind::MailMessage,
            has_properties: e.properties is Some,
            friendly_name: match e.properties {
                Some(p) => p.friendly_name,
                None => None,
            },
        },
        Entity::SubmissionMail(e) => EntitySummary {
            id: e.id,
            name: e.name,
            kind: EntityKind::SubmissionMail,
            has_properties: e.properties is Some,
            friendly_name: match e.properties {
                Some(p) => p.friendly_name,
                None => None,
            },
        },
    }
}

/// Reads an entity.
pub fn summarize(entity: &Entity) -> (summary: EntitySummary)
    ensures
        summary == summary_of(*entity),
{
    match entity {
        Entity::Account(e) => EntitySummary {
            id: copy_of(&e.id),
            name: copy_of(&e.name),
            kind: EntityKind::Account,
            has_properties: e.properties.is_some(),
            friendly_name: match &e.properties {
                Some(p) => copy_of(&p.friendly_name),
                None => None,
            },
        },
        Entity::Host(e) => EntitySummary {
            id: copy_of(&e.id),
            name: copy_of(&e.name),
            kind: EntityKind::Host,
            has_properties: e.properties.is_some(),
            friendly_name: match &e.properties {
                Some(p) => copy_of(&p.friendly_name),
                None => None,
            },
        },
        Entity::File(e) => EntitySummary {
            id: copy_of(&e.id),
            name: copy_of(&e.name),
            kind: EntityKind::File,
            has_properties: e.properties.is_some(),
            friendly_name: match &e.properties {
                Some(p) => copy_of(&p.friendly_name),
                None => None,
            },
        },
        Entity::FileHash(e) => EntitySummary {
            id: copy_of(&e.id),
            name: copy_of(&e.name),
            kind: EntityKind::FileHash,
            has_properties: e.properties.is_some(),
            friendly_name: match &e.properties {
                Some(p) => copy_of(&p.friendly_name),
                None => None,
            },
        },
        Entity::AzureResource(e) => EntitySummary {
            id: copy_of(&e.id),
            name: copy_of(&e.name),
            kind: EntityKind::AzureResource,
            has_properties: e.properties.is_some(),
            friendly_name: match &e.properties {
                Some(p) => copy_of(&p.friendly_name),
                None => None,
            },
        },
        Entity::CloudApplication(e) => EntitySummary {
            id: copy_of(&e.id),
            name: copy_of(&e.name),
            kind: EntityKind::CloudApplication,
            has_properties: e.properties.is_some(),
            friendly_name: match &e.properties {
                Some(p) => copy_of(&p.friendly_name),
                None => None,
            },
        },
        Entity::DnsResolution(e) => EntitySummary {
            id: copy_of(&e.id),
            name: copy_of(&e.name),
            kind: EntityKind::DnsResolution,
            has_properties: e.properties.is_some(),
            friendly_name: match &e.properties {
                Some(p) => copy_of(&p.friendly_name),
                None => None,
            },
        },
        Entity::Ip(e) => EntitySummary {
            id: copy_of(&e.id),
            name: copy_of(&e.name),
            kind: EntityKind::Ip,
            has_properties: e.properties.is_some(),
            friendly_name: match &e.properties {
                Some(p) => copy_of(&p.friendly_name),
                None => None,
            },
        },
        Entity::Malware(e) => EntitySummary {
            id: copy_of(&e.id),
            name: copy_of(&e.name),
            kind: EntityKind::Malware,
            has_properties: e.properties.is_some(),
            friendly_name: match &e.properties {
                Some(p) => copy_of(&p.friendly_name),
                None => None,
            },
        },
        Entity::Process(e) => EntitySummary {
            id: copy_of(&e.id),
            name: copy_of(&e.name),
            kind: EntityKind::Process,
            has_properties: e.properties.is_some(),
            friendly_name: match &e.properties {
                Some(p) => copy_of(&p.friendly_name),
                None => None,
            },
        },
        Entity::RegistryKey(e) => EntitySummary {
            id: copy_of(&e.id),
            name: copy_of(&e.name),
            kind: EntityKind::RegistryKey,
            has_properties: e.properties.is_some(),
            friendly_name: match &e.properties {
                Some(p) => copy_of(&p.friendly_name),
                None => None,
            },
        },
        Entity::RegistryValue(e) => EntitySummary {
            id: copy_of(&e.id),
            name: copy_of(&e.name),
            kind: EntityKind::RegistryValue,
            has_properties: e.properties.is_some(),
            friendly_name: match &e.properties {
                Some(p) => copy_of(&p.friendly_name),
                None => None,
            },
        },
        Entity::SecurityGroup(e) => EntitySummary {
            id: copy_of(&e.id),
            name: copy_of(&e.name),
            kind: EntityKind::SecurityGroup,
            has_properties: e.properties.is_some(),
            friendly_name: match &e.properties {
                Some(p) => copy_of(&p.friendly_name),
                None => None,
            },
        },
        Entity::Url(e) => EntitySummary {
            id: copy_of(&e.id),
            name: copy_of(&e.name),
            kind: EntityKind::Url,
            has_properties: e.properties.is_some(),
            friendly_name: match &e.properties {
                Some(p) => copy_of(&p.friendly_name),
                None => None,
            },
        },
        Entity::IoTDevice(e) => EntitySummary {
            id: copy_of(&e.id),
            name: copy_of(&e.name),
            kind: EntityKind::IoTDevice,
            has_properties: e.properties.is_some(),
            friendly_name: match &e.properties {
                Some(p) => copy_of(&p.friendly_name),
                None => None,
            },
        },
        Entity::SecurityAlert(e) => EntitySummary {
            id: copy_of(&e.id),
            name: copy_of(&e.name),
            kind: EntityKind::SecurityAlert,
            has_properties: e.properties.is_some(),
            friendly_name: match &e.properties {
                Some(p) => copy_of(&p.friendly_name),
                None => None,
            },
        },
        Entity::Bookmark(e) => EntitySummary {
            id: copy_of(&e.id),
            name: copy_of(&e.name),
            kind: EntityKind::Bookmark,
            has_properties: e.properties.is_some(),
            friendly_name: match &e.properties {
                Some(p) => copy_of(&p.friendly_name),
                None => None,
            },
        },
        Entity::Mailbox(e) => EntitySummary {
            id: copy_of(&e.id),
            name: copy_of(&e.name),
            kind: EntityKind::Mailbox,
            has_properties: e.properties.is_some(),
            friendly_name: match &e.properties {
                Some(p) => copy_of(&p.friendly_name),
                None => None,
            },
        },
        Entity::MailCluster(e) => EntitySummary {
            id: copy_of(&e.id),
            name: copy_of(&e.name),
            kind: EntityKind::MailCluster,
            has_properties: e.properties.is_some(),
            friendly_name: match &e.properties {
                Some(p) => copy_of(&p.friendly_name),
                None => None,
            },
        },
        Entity::MailMessage(e) => EntitySummary {
            id: copy_of(&e.id),
            name: copy_of(&e.name),
            kind: EntityKind::MailMessage,
            has_properties: e.properties.is_some(),
            friendly_name: match &e.properties {
                Some(p) => copy_of(&p.friendly_name),
                None => None,
            },
        },
        Entity::SubmissionMail(e) => EntitySummary {
            id: copy_of(&e.id),
            name: copy_of(&e.name),
            kind: EntityKind::SubmissionMail,
            has_properties: e.properties.is_some(),
            friendly_name: match &e.properties {
                Some(p) => copy_of(&p.friendly_name),
                None => None,
            },
        },
    }
}

/// What is reported of an entity before its properties: its identifiers and
/// its kind.
pub open spec fn entity_head(summary: EntitySummary) -> Seq<FieldView> {
    let f = Seq::<FieldView>::empty();
    let f = f + text_if("id"@, summary.id);
    let f = f + text_if("name"@, summary.name);
    let f = f.push(text_field("kind"@, summary.kind.name_of()));
    f
}

/// What is reported of an entity that has properties: its identifiers, its
/// kind, the friendly name where it has one, and the properties as JSON.
pub open spec fn entity_fields(summary: EntitySummary, json: Seq<char>) -> Seq<FieldView> {
    let f = entity_head(summary);
    let f = f + text_if("friendly_name"@, summary.friendly_name);
    let f = f.push(text_field("properties_json"@, json));
    f
}

/// `r` is what is reported of an entity. Without properties that is the
/// identifiers and the kind. With properties, `serialize` was called with the
/// entity for the JSON text of its properties; with the text the entity is
/// reported in full, and without it the report fails.
pub open spec fn entity_written<S: Fn(&Entity) -> Option<String>>(
    entity: Entity,
    r: Result<Vec<Field>, CommandError>,
    serialize: S,
) -> bool {
    if !summary_of(entity).has_properties {
        r matches Ok(fields) && field_views(fields@) == entity_head(summary_of(entity))
    } else {
        exists|json: Option<String>|
            #![trigger call_ensures(serialize, (&entity,), json)]
            {
                &&& call_ensures(serialize, (&entity,), json)
                &&& match json {
                    Some(text) => r matches Ok(fields) && field_views(fields@) == entity_fields(
                        summary_of(entity),
                        text@,
                    ),
                    None => r == Err::<Vec<Field>, CommandError>(CommandError::Serialize),
                }
            }
    }
}

/// What is reported of the entities of an incident: a row for each, under its
/// index, up to the first that cannot be reported; and the error of that one.
pub open spec fn entities_written<S: Fn(&Entity) -> Option<String>>(
    entities: Seq<Entity>,
    rows: Seq<Row>,
    error: Option<CommandError>,
    serialize: S,
) -> bool {
    &&& rows.len() <= entities.len()
    &&& forall|i: int|
        0 <= i < rows.len() ==> (#[trigger] rows[i]).index == Some(i as usize) && entity_written(
            entities[i],
            Ok(rows[i].fields),
            serialize,
        )
    &&& match error {
        None => rows.len() == entities.len(),
        Some(e) => rows.len() < entities.len() && entity_written(
            entities[rows.len() as int],
            Err(e),
            serialize,
        ),
    }
}

/// What the command reports: the rows that were written, and the error that
/// ended the report where there was one.
#[derive(Debug)]
pub struct EntitiesReport {
    pub rows: Vec<Row>,
    pub error: Option<CommandError>,
}

/// What the command reports by what it got: the entities, as far as they
/// could be written; or nothing but the error.
pub open spec fn reported_as<S: Fn(&Entity) -> Option<String>>(
    got: Result<IncidentEntitiesResponse, CommandError>,
    report: EntitiesReport,
    serialize: S,
) -> bool {
    match got {
        Ok(response) => entities_written(
            items_or_empty(response.entities),
            report.rows@,
            report.error,
            serialize,
        ),
        Err(e) => report.rows@.len() == 0 && report.error == Some(e),
    }
}

impl ListIncidentEntitiesCommand {
    /// The command for the attributes given. The target is read as
    /// [`Target::parse`] reads it; where that fails, the error names the
    /// attribute and says why.
    pub fn from_attributes(
        client_id: String,
        tenant_id: String,
        target: &str,
        incident_id: String,
    ) -> (r: Result<Self, CommandError>)
        ensures
            r is Ok <==> names_workspace(segments(target@, '/')),
            r matches Ok(command) ==> command.target@ == workspace_of(segments(target@, '/'))
                && command.client_id == client_id && command.tenant_id == tenant_id
                && command.incident_id == incident_id,
            r matches Err(e) ==> e.text() == invalid_attribute_text(
                "target"@,
                MalformedTarget::text(),
            ),
    {
        match read_target(target) {
            Ok(target) => Ok(Self { client_id, tenant_id, target, incident_id }),
            Err(e) => Err(e),
        }
    }

    /// The URL at which the entities of the incident are asked for.
    pub open spec fn url_of(&self) -> Seq<char> {
        incident_sub_resource_url_of(self.target@, self.incident_id@, "entities"@)
    }

    /// What is reported of an entity.
    pub fn write_entity<S: Fn(&Entity) -> Option<String>>(entity: &Entity, serialize: &S) -> (r:
        Result<Vec<Field>, CommandError>)
        requires
            forall|e: &Entity| call_requires(*serialize, (e,)),
        ensures
            entity_written(*entity, r, *serialize),
    {
        let summary = summarize(entity);
        let mut fields = no_fields();
        push_text_if(&mut fields, "id", &summary.id);
        push_text_if(&mut fields, "name", &summary.name);
        push_text(&mut fields, "kind", summary.kind.name());
        if summary.has_properties {
            push_text_if(&mut fields, "friendly_name", &summary.friendly_name);
            let json = serialize(entity);
            match json {
                Some(text) => {
                    push_text(&mut fields, "properties_json", text.as_str());
                    Ok(fields)
                },
                None => {
                    Err(CommandError::Serialize)
                },
            }
        } else {
            Ok(fields)
        }
    }

    /// Reports the entities of an incident, row by row.
    pub fn report<S: Fn(&Entity) -> Option<String>>(entities: &Vec<Entity>, serialize: &S) -> (report:
        EntitiesReport)
        requires
            forall|e: &Entity| call_requires(*serialize, (e,)),
        ensures
            entities_written(entities@, report.rows@, report.error, *serialize),
    {
        let mut rows: Vec<Row> = Vec::new();
        let mut i: usize = 0;
        while i < entities.len()
            invariant
                i <= entities.len(),
                rows@.len() == i,
                forall|e: &Entity| call_requires(*serialize, (e,)),
                forall|k: int|
                    0 <= k < rows@.len() ==> (#[trigger] rows@[k]).index == Some(k as usize)
                        && entity_written(entities@[k], Ok(rows@[k].fields), *serialize),
            decreases entities.len() - i,
        {
            match ListIncidentEntitiesCommand::write_entity(&entities[i], serialize) {
                Ok(fields) => {
                    rows.push(Row { index: Some(i), fields });
                },
                Err(e) => {
                    return EntitiesReport { rows, error: Some(e) };
                },
            }
            i = i + 1;
        }
        EntitiesReport { rows, error: None }
    }

    /// The call that the command makes with a token.
    pub fn call(&self, token: &str) -> (call: ManagementCall<NoBody>)
        ensures
            call@ == call_with(Method::Post, self.url_of(), true, None::<NoBody>, token@),
    {
        ManagementCall::new(Method::Post, self.target.incident_sub_resource_url(self.incident_id.as_str(), "entities"), token, true, None::<NoBody>)
    }

    /// Runs the command: gets the token, asks for the entities by a `Post`
    /// without a body, and reports them row by row.
    pub fn execute<
        E: FnOnce(DeviceFlow) -> Result<Session, AuthError>,
        X: FnOnce(String) -> ExchangeOutcome,
        F: FnOnce(ManagementCall<NoBody>) -> CommandReply<IncidentEntitiesResponse>,
        S: Fn(&Entity) -> Option<String>,
    >(
        &self,
        http_present: bool,
        store: &mut Option<SessionStore>,
        now: u64,
        establish: E,
        exchange: X,
        send: F,
        serialize: &S,
    ) -> (report: EntitiesReport)
        requires
            token_can_be_got(
                http_present,
                *old(store),
                self.client_id@,
                self.tenant_id@,
                TokenAudience::AzureManagement,
                now,
                establish,
                exchange,
            ),
            call_can_be_sent(
                http_present,
                *old(store),
                self.client_id@,
                self.tenant_id@,
                TokenAudience::AzureManagement,
                |token: Seq<char>|
                    call_with(Method::Post, self.url_of(), true, None::<NoBody>, token),
                now,
                establish,
                exchange,
                send,
            ),
            forall|e: &Entity| call_requires(*serialize, (e,)),
        ensures
            exists|got: Result<IncidentEntitiesResponse, CommandError>|
                #![trigger reported_as(got, report, *serialize)]
                {
                    &&& command_run(
                        http_present,
                        *old(store),
                        *final(store),
                        self.client_id@,
                        self.tenant_id@,
                        |token: Seq<char>|
                            call_with(Method::Post, self.url_of(), true, None::<NoBody>, token),
                        entities_operation(),
                        got,
                        now,
                        establish,
                        exchange,
                        send,
                    )
                    &&& reported_as(got, report, *serialize)
                },
    {
        let url = self.target.incident_sub_resource_url(self.incident_id.as_str(), "entities");
        let got = run_command(
            http_present,
            store,
            self.client_id.as_str(),
            self.tenant_id.as_str(),
            Method::Post,
            url,
            true,
            None::<NoBody>,
            "list incident entities",
            now,
            establish,
            exchange,
            send,
        );
        let ghost whole = got;
        let report = match got {
            Ok(response) => match &response.entities {
                Some(entities) => ListIncidentEntitiesCommand::report(entities, serialize),
                None => EntitiesReport { rows: Vec::new(), error: None },
            },
            Err(e) => EntitiesReport { rows: Vec::new(), error: Some(e) },
        };
        assert(reported_as(whole, report, *serialize));
        report
    }
}

} // verus!
