//! Lists the alerts of an incident.

use crate::auth::{Session, SessionStore};
use crate::azure::common::{
    call_can_be_sent, call_with, command_run, invalid_attribute_text, run_command, token_can_be_got,
    CommandError, CommandReply, ManagementCall, NoBody, TokenAudience,
};
use crate::azure::output::{
    field_views, float_if, name_if, no_fields, push_float_if, push_name_if, push_text,
    push_text_if, row_views, text_field, text_if, Field, FieldView, Row, RowView,
};
use crate::azure::sentinel::{
    incident_sub_resource_url_of, names_workspace, workspace_of, MalformedTarget, Target,
};
use crate::azure::sentinel::incidents::read_target;
use crate::azure::sentinel::incidents::types::{
    IncidentAlertList, SecurityAlert, SecurityAlertProperties,
};
use crate::client::auth::ExchangeOutcome;
use crate::error::AuthError;
use crate::http::Method;
use crate::oauth::DeviceFlow;
use crate::text::segments;
use vstd::prelude::*;
use vstd::string::*;

verus! {

pub open spec fn alert_operation() -> Seq<char> {
    "list incident alerts"@
}

/// Lists the alerts of an incident.
#[derive(Debug)]
pub struct ListIncidentAlertsCommand {
    pub client_id: String,
    pub tenant_id: String,
    pub target: Target,
    pub incident_id: String,
}

/// What is reported of the properties of an alert.
pub open spec fn alert_properties_fields(before: Seq<FieldView>, v: SecurityAlertProperties) -> Seq<FieldView> {
    let f = before;
    let f = f + text_if("system_alert_id"@, v.system_alert_id);
    let f = f + text_if("alert_display_name"@, v.alert_display_name);
    let f = f + text_if("alert_type"@, v.alert_type);
    let f = f + name_if(
        "severity"@,
        match v.severity {
            Some(v) => Some(v.name_of()),
            None => None,
        },
    );
    let f = f + name_if(
        "status"@,
        match v.status {
            Some(v) => Some(v.name_of()),
            None => None,
        },
    );
    let f = f + text_if("description"@, v.description);
    let f = f + text_if("compromised_entity"@, v.compromised_entity);
    let f = f + name_if(
        "confidence_level"@,
        match v.confidence_level {
            Some(v) => Some(v.name_of()),
            None => None,
        },
    );
    let f = f + float_if("confidence_score"@, v.confidence_score);
    let f = f + text_if("start_time_utc"@, v.start_time_utc);
    let f = f + text_if("end_time_utc"@, v.end_time_utc);
    let f = f + text_if("time_generated"@, v.time_generated);
    let f = f + text_if("product_name"@, v.product_name);
    let f = f + text_if("vendor_name"@, v.vendor_name);
    let f = f + text_if("alert_link"@, v.alert_link);
    let f = f + name_if(
        "intent"@,
        match v.intent {
            Some(v) => Some(v.name_of()),
            None => None,
        },
    );
    let f = f + text_if("provider_alert_id"@, v.provider_alert_id);
    f
}

/// Adds the fields that [`alert_properties_fields`] names.
pub fn write_alert_properties(fields: &mut Vec<Field>, v: &SecurityAlertProperties)
    ensures
        field_views(final(fields)@) == alert_properties_fields(field_views(old(fields)@), *v),
{
    push_text_if(fields, "system_alert_id", &v.system_alert_id);
    push_text_if(fields, "alert_display_name", &v.alert_display_name);
    push_text_if(fields, "alert_type", &v.alert_type);
    push_name_if(
        fields,
        "severity",
        match &v.severity {
            Some(v) => Some(v.name()),
            None => None,
        },
    );
    push_name_if(
        fields,
        "status",
        match &v.status {
            Some(v) => Some(v.name()),
            None => None,
        },
    );
    push_text_if(fields, "description", &v.description);
    push_text_if(fields, "compromised_entity", &v.compromised_entity);
    push_name_if(
        fields,
        "confidence_level",
        match &v.confidence_level {
            Some(v) => Some(v.name()),
            None => None,
        },
    );
    push_float_if(fields, "confidence_score", v.confidence_score);
    push_text_if(fields, "start_time_utc", &v.start_time_utc);
    push_text_if(fields, "end_time_utc", &v.end_time_utc);
    push_text_if(fields, "time_generated", &v.time_generated);
    push_text_if(fields, "product_name", &v.product_name);
    push_text_if(fields, "vendor_name", &v.vendor_name);
    push_text_if(fields, "alert_link", &v.alert_link);
    push_name_if(
        fields,
        "intent",
        match &v.intent {
            Some(v) => Some(v.name()),
            None => None,
        },
    );
    push_text_if(fields, "provider_alert_id", &v.provider_alert_id);
}

/// What is reported of an alert: its identifiers and its kind, then its properties where it has any.
pub open spec fn alert_fields(before: Seq<FieldView>, alert: SecurityAlert) -> Seq<FieldView> {
    let f = before;
    let f = f.push(text_field("id"@, alert.id@));
    let f = f.push(text_field("name"@, alert.name@));
    let f = f.push(text_field("kind"@, alert.kind@));
    let f = match alert.properties {
        Some(v) => alert_properties_fields(f, v),
        None => f,
    };
    f
}

/// Adds the fields that [`alert_fields`] names.
pub fn write_alert_fields(fields: &mut Vec<Field>, alert: &SecurityAlert)
    ensures
        field_views(final(fields)@) == alert_fields(field_views(old(fields)@), *alert),
{
    push_text(fields, "id", alert.id.as_str());
    push_text(fields, "name", alert.name.as_str());
    push_text(fields, "kind", alert.kind.as_str());
    match &alert.properties {
        Some(v) => {
            write_alert_properties(fields, v);
        },
        None => {},
    }
}

/// The rows that are reported of the alerts of an incident: one for each, under
/// its index.
pub open spec fn alert_rows(items: Seq<SecurityAlert>) -> Seq<RowView> {
    Seq::new(
        items.len(),
        |i: int| RowView { index: Some(i as usize), fields: alert_fields(Seq::empty(), items[i]) },
    )
}

/// Reports the alerts of an incident.
pub fn report_alert(items: &Vec<SecurityAlert>) -> (rows: Vec<Row>)
    ensures
        row_views(rows@) == alert_rows(items@),
{
    let mut rows: Vec<Row> = Vec::new();
    let mut i: usize = 0;
    while i < items.len()
        invariant
            i <= items.len(),
            row_views(rows@) == alert_rows(items@).take(i as int),
        decreases items.len() - i,
    {
        let ghost before = row_views(rows@);
        let fields = ListIncidentAlertsCommand::write_alert(&items[i]);
        let row = Row { index: Some(i), fields };
        rows.push(row);
        proof {
            assert(row_views(rows@) =~= before.push(row@));
        }
        i = i + 1;
    }
    rows
}

/// What the command reports by what it got: the rows of the alerts, or the error.
pub open spec fn reported_as(
    got: Result<IncidentAlertList, CommandError>,
    r: Result<Vec<Row>, CommandError>,
) -> bool {
    match got {
        Ok(list) => r matches Ok(rows) && row_views(rows@) == alert_rows(
            list.value@,
        ),
        Err(e) => r == Err::<Vec<Row>, CommandError>(e),
    }
}

impl ListIncidentAlertsCommand {
    /// What is reported of an alert.
    pub fn write_alert(alert: &SecurityAlert) -> (fields: Vec<Field>)
        ensures
            field_views(fields@) == alert_fields(Seq::empty(), *alert),
    {
        let mut fields = no_fields();
        write_alert_fields(&mut fields, alert);
        fields
    }

    /// The command for the attributes given. The target is read as
    /// [`Target::parse`] reads it; where that fails, the error names the
    /// attribute and says why.
    pub fn from_attributes(
        client_id: String,
        tenant_id: String,
        target: &str,
        incident_id: String,
    ) -> (r: Result<Self, CommandError>)
        ensures
            r is Ok <==> names_workspace(segments(target@, '/')),
            r matches Ok(command) ==> command.target@ == workspace_of(segments(target@, '/'))
                && command.client_id == client_id && command.tenant_id == tenant_id
                && command.incident_id == incident_id,
            r matches Err(e) ==> e.text() == invalid_attribute_text(
                "target"@,
                MalformedTarget::text(),
            ),
    {
        match read_target(target) {
            Ok(target) => Ok(Self { client_id, tenant_id, target, incident_id }),
            Err(e) => Err(e),
        }
    }

    /// The URL at which the alerts of the incident are asked for.
    pub open spec fn url_of(&self) -> Seq<char> {
        incident_sub_resource_url_of(self.target@, self.incident_id@, "alerts"@)
    }

    /// The call that the command makes with a token.
    pub fn call(&self, token: &str) -> (call: ManagementCall<NoBody>)
        ensures
            call@ == call_with(Method::Post, self.url_of(), true, None::<NoBody>, token@),
    {
        ManagementCall::new(Method::Post, self.target.incident_sub_resource_url(self.incident_id.as_str(), "alerts"), token, true, None::<NoBody>)
    }

    /// Runs the command: gets the token, asks for the alerts by a `Post`
    /// without a body, and reports them row by row.
    pub fn execute<
        E: FnOnce(DeviceFlow) -> Result<Session, AuthError>,
        X: FnOnce(String) -> ExchangeOutcome,
        F: FnOnce(ManagementCall<NoBody>) -> CommandReply<IncidentAlertList>,
    >(
        &self,
        http_present: bool,
        store: &mut Option<SessionStore>,
        now: u64,
        establish: E,
        exchange: X,
        send: F,
    ) -> (r: Result<Vec<Row>, CommandError>)
        requires
            token_can_be_got(
                http_present,
                *old(store),
                self.client_id@,
                self.tenant_id@,
                TokenAudience::AzureManagement,
                now,
                establish,
                exchange,
            ),
            call_can_be_sent(
                http_present,
                *old(store),
                self.client_id@,
                self.tenant_id@,
                TokenAudience::AzureManagement,
                |token: Seq<char>|
                    call_with(Method::Post, self.url_of(), true, None::<NoBody>, token),
                now,
                establish,
                exchange,
                send,
            ),
        ensures
            exists|got: Result<IncidentAlertList, CommandError>|
                #![trigger reported_as(got, r)]
                {
                    &&& command_run(
                        http_present,
                        *old(store),
                        *final(store),
                        self.client_id@,
                        self.tenant_id@,
                        |token: Seq<char>|
                            call_with(Method::Post, self.url_of(), true, None::<NoBody>, token),
                        alert_operation(),
                        got,
                        now,
                        establish,
                        exchange,
                        send,
                    )
                    &&& reported_as(got, r)
                },
    {
        let url = self.target.incident_sub_resource_url(self.incident_id.as_str(), "alerts");
        let got = run_command(
            http_present,
            store,
            self.client_id.as_str(),
            self.tenant_id.as_str(),
            Method::Post,
            url,
            true,
            None::<NoBody>,
            "list incident alerts",
            now,
            establish,
            exchange,
            send,
        );
        let ghost whole = got;
        let r = match got {
            Ok(list) => Ok(report_alert(&list.value)),
            Err(e) => Err(e),
        };
        assert(reported_as(whole, r));
        r
    }
}

} // verus!
