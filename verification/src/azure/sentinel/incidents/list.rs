//! Lists the incidents of a workspace, page by page.

use crate::auth::{Session, SessionStore};
use crate::azure::common::{
    call_with, get_azure_management_token, invalid_attribute_text, management_token_got,
    read_command_reply, reply_value, token_can_be_got, CommandError, CommandReply, ManagementCall,
    NoBody, TokenAudience,
};
use crate::azure::output::{
    count_if, field_views, name_if, no_fields, push_count_if, push_name_if, push_text,
    push_text_if, row_views, text_field, text_if, Field, FieldView, Row, RowView,
};
use crate::azure::sentinel::{
    names_workspace, resource_url_of, workspace_of, MalformedTarget, Target,
};
use crate::azure::sentinel::incidents::read_target;
use crate::azure::sentinel::incidents::types::{
    Incident, IncidentAdditionalData, IncidentList, IncidentOwnerInfo, IncidentProperties,
};
use crate::client::auth::ExchangeOutcome;
use crate::error::AuthError;
use crate::http::Method;
use crate::oauth::DeviceFlow;
use crate::text::{decimal, decimal_text, segments};
use crate::types::azure::resource_manager::items_or_empty;
use vstd::prelude::*;
use vstd::string::*;

verus! {

pub open spec fn list_operation() -> Seq<char> {
    "list incidents"@
}

/// Lists the incidents of a workspace.
#[derive(Debug)]
pub struct ListIncidentsCommand {
    pub client_id: String,
    pub tenant_id: String,
    pub target: Target,
    pub filter: Option<String>,
    pub orderby: Option<String>,
    pub top: Option<i64>,
}

/// What a list reports of the owner of an incident.
pub open spec fn listed_owner_fields(before: Seq<FieldView>, v: IncidentOwnerInfo) -> Seq<FieldView> {
    let f = before;
    let f = f + text_if("owner_object_id"@, v.object_id);
    let f = f + text_if("owner_email"@, v.email);
    let f = f + text_if("owner_assigned_to"@, v.assigned_to);
    f
}

/// Adds the fields that [`listed_owner_fields`] names.
pub fn write_listed_owner(fields: &mut Vec<Field>, v: &IncidentOwnerInfo)
    ensures
        field_views(final(fields)@) == listed_owner_fields(field_views(old(fields)@), *v),
{
    push_text_if(fields, "owner_object_id", &v.object_id);
    push_text_if(fields, "owner_email", &v.email);
    push_text_if(fields, "owner_assigned_to", &v.assigned_to);
}

/// The counts that are reported of an incident.
pub open spec fn counts_fields(before: Seq<FieldView>, v: IncidentAdditionalData) -> Seq<FieldView> {
    let f = before;
    let f = f + count_if("alerts_count"@, v.alerts_count);
    let f = f + count_if("bookmarks_count"@, v.bookmarks_count);
    let f = f + count_if("comments_count"@, v.comments_count);
    f
}

/// Adds the fields that [`counts_fields`] names.
pub fn write_counts(fields: &mut Vec<Field>, v: &IncidentAdditionalData)
    ensures
        field_views(final(fields)@) == counts_fields(field_views(old(fields)@), *v),
{
    push_count_if(fields, "alerts_count", v.alerts_count);
    push_count_if(fields, "bookmarks_count", v.bookmarks_count);
    push_count_if(fields, "comments_count", v.comments_count);
}

/// What a list reports of the properties of an incident.
pub open spec fn listed_properties_fields(before: Seq<FieldView>, v: IncidentProperties) -> Seq<FieldView> {
    let f = before;
    let f = f.push(text_field("title"@, v.title@));
    let f = f.push(text_field("severity"@, v.severity.name_of()));
    let f = f.push(text_field("status"@, v.status.name_of()));
    let f = f + count_if("incident_number"@, v.incident_number);
    let f = f + text_if("incident_url"@, v.incident_url);
    let f = f + text_if("created_time_utc"@, v.created_time_utc);
    let f = f + text_if("last_modified_time_utc"@, v.last_modified_time_utc);
    let f = f + text_if("description"@, v.description);
    let f = f + text_if("first_activity_time_utc"@, v.first_activity_time_utc);
    let f = f + text_if("last_activity_time_utc"@, v.last_activity_time_utc);
    let f = f + name_if(
        "classification"@,
        match v.classification {
            Some(v) => Some(v.name_of()),
            None => None,
        },
    );
    let f = f + text_if("classification_comment"@, v.classification_comment);
    let f = f + name_if(
        "classification_reason"@,
        match v.classification_reason {
            Some(v) => Some(v.name_of()),
            None => None,
        },
    );
    let f = match v.owner {
        Some(v) => listed_owner_fields(f, v),
        None => f,
    };
    let f = match v.additional_data {
        Some(v) => counts_fields(f, v),
        None => f,
    };
    let f = f + text_if("provider_name"@, v.provider_name);
    f
}

/// Adds the fields that [`listed_properties_fields`] names.
pub fn write_listed_properties(fields: &mut Vec<Field>, v: &IncidentProperties)
    ensures
        field_views(final(fields)@) == listed_properties_fields(field_views(old(fields)@), *v),
{
    push_text(fields, "title", v.title.as_str());
    push_text(fields, "severity", v.severity.name());
    push_text(fields, "status", v.status.name());
    push_count_if(fields, "incident_number", v.incident_number);
    push_text_if(fields, "incident_url", &v.incident_url);
    push_text_if(fields, "created_time_utc", &v.created_time_utc);
    push_text_if(fields, "last_modified_time_utc", &v.last_modified_time_utc);
    push_text_if(fields, "description", &v.description);
    push_text_if(fields, "first_activity_time_utc", &v.first_activity_time_utc);
    push_text_if(fields, "last_activity_time_utc", &v.last_activity_time_utc);
    push_name_if(
        fields,
        "classification",
        match &v.classification {
            Some(v) => Some(v.name()),
            None => None,
        },
    );
    push_text_if(fields, "classification_comment", &v.classification_comment);
    push_name_if(
        fields,
        "classification_reason",
        match &v.classification_reason {
            Some(v) => Some(v.name()),
            None => None,
        },
    );
    match &v.owner {
        Some(v) => {
            write_listed_owner(fields, v);
        },
        None => {},
    }
    match &v.additional_data {
        Some(v) => {
            write_counts(fields, v);
        },
        None => {},
    }
    push_text_if(fields, "provider_name", &v.provider_name);
}

/// What a list reports of an incident: its identifiers, then its properties where it has any.
pub open spec fn listed_incident_fields(before: Seq<FieldView>, incident: Incident) -> Seq<FieldView> {
    let f = before;
    let f = f + text_if("id"@, incident.id);
    let f = f + text_if("name"@, incident.name);
    let f = f + text_if("etag"@, incident.etag);
    let f = match incident.properties {
        Some(v) => listed_properties_fields(f, v),
        None => f,
    };
    f
}

/// Adds the fields that [`listed_incident_fields`] names.
pub fn write_listed_incident(fields: &mut Vec<Field>, incident: &Incident)
    ensures
        field_views(final(fields)@) == listed_incident_fields(field_views(old(fields)@), *incident),
{
    push_text_if(fields, "id", &incident.id);
    push_text_if(fields, "name", &incident.name);
    push_text_if(fields, "etag", &incident.etag);
    match &incident.properties {
        Some(v) => {
            write_listed_properties(fields, v);
        },
        None => {},
    }
}

/// A parameter of the query string where it is given: its opening and its
/// value, as they stand.
pub open spec fn parameter_if(opening: Seq<char>, value: Option<Seq<char>>) -> Seq<char> {
    match value {
        Some(v) => opening + v,
        None => Seq::empty(),
    }
}

/// The view of a text that may be missing.
pub open spec fn given(text: Option<String>) -> Option<Seq<char>> {
    match text {
        Some(t) => Some(t@),
        None => None,
    }
}

/// The decimal text of a number that may be missing.
pub open spec fn given_number(n: Option<i64>) -> Option<Seq<char>> {
    match n {
        Some(n) => Some(decimal_text(n as int)),
        None => None,
    }
}

/// The rows of a page of incidents: one for each, under its index in the
/// whole list, which begins at `start` for the page.
pub open spec fn page_rows(start: nat, incidents: Seq<Incident>) -> Seq<RowView> {
    Seq::new(
        incidents.len(),
        |i: int|
            RowView {
                index: Some((start + i) as usize),
                fields: listed_incident_fields(Seq::empty(), incidents[i]),
            },
    )
}

/// What the list comes to when the replies to its calls are `replies`, in
/// their order, and `gathered` was reported before: the rows of all pages up
/// to the first that names no next page, and no error; or the rows up to the
/// first reply that is no page, and its error. Where the replies run out
/// first, the call that is open then got no response.
pub open spec fn list_report(
    gathered: Seq<RowView>,
    replies: Seq<CommandReply<IncidentList>>,
) -> (Seq<RowView>, Option<Seq<char>>)
    decreases replies.len(),
{
    if replies.len() == 0 {
        (gathered, Some(CommandError::Transport.text()))
    } else {
        match reply_value(replies[0], list_operation()) {
            Err(e) => (gathered, Some(e)),
            Ok(page) => {
                let rows = gathered + page_rows(gathered.len(), items_or_empty(page.value));
                match page.next_link {
                    None => (rows, None),
                    Some(_) => list_report(rows, replies.drop_first()),
                }
            },
        }
    }
}

/// The URLs that the list asks for, in their order: `url`, then the link of
/// each page as it stands, for as long as the pages name one.
pub open spec fn list_calls(url: Seq<char>, replies: Seq<CommandReply<IncidentList>>) -> Seq<
    Seq<char>,
>
    decreases replies.len(),
{
    if replies.len() == 0 {
        seq![url]
    } else {
        match reply_value(replies[0], list_operation()) {
            Err(_) => seq![url],
            Ok(page) => match page.next_link {
                None => seq![url],
                Some(link) => seq![url] + list_calls(link@, replies.drop_first()),
            },
        }
    }
}

/// What the command reports: the rows that were written, the error that
/// ended the list where there was one, and the calls that were made.
pub struct ListIncidentsReport {
    pub rows: Vec<Row>,
    pub error: Option<CommandError>,
    pub calls: Vec<ManagementCall<NoBody>>,
}

/// What an error says, where there is one.
pub open spec fn error_text(error: Option<CommandError>) -> Option<Seq<char>> {
    match error {
        Some(e) => Some(e.text()),
        None => None,
    }
}

/// The URLs of calls.
pub open spec fn call_urls(calls: Seq<ManagementCall<NoBody>>) -> Seq<Seq<char>> {
    calls.map_values(|call: ManagementCall<NoBody>| call.url@)
}

/// Every call is a `Get` without a body that carries the token.
pub open spec fn calls_carry(calls: Seq<ManagementCall<NoBody>>, token: Seq<char>) -> bool {
    forall|i: int|
        0 <= i < calls.len() ==> (#[trigger] calls[i])@ == call_with(
            Method::Get,
            calls[i].url@,
            false,
            None::<NoBody>,
            token,
        )
}

/// What the command reports by the token that it got. Without a token
/// nothing is asked for and the error of that is all. With it, every call
/// carries it, the URLs are those that [`list_calls`] names, and the rows and
/// the error are those that [`list_report`] names.
pub open spec fn reported_as(
    token: Result<String, CommandError>,
    report: ListIncidentsReport,
    url: Seq<char>,
    replies: Seq<CommandReply<IncidentList>>,
) -> bool {
    match token {
        Err(e) => report.rows@.len() == 0 && report.calls@.len() == 0 && report.error == Some(e),
        Ok(secret) => {
            &&& calls_carry(report.calls@, secret@)
            &&& call_urls(report.calls@) == list_calls(url, replies)
            &&& (row_views(report.rows@), error_text(report.error)) == list_report(
                Seq::empty(),
                replies,
            )
        },
    }
}

impl ListIncidentsCommand {
    /// What is reported of an incident of the list.
    pub fn write_incident(incident: &Incident) -> (fields: Vec<Field>)
        ensures
            field_views(fields@) == listed_incident_fields(Seq::empty(), *incident),
    {
        let mut fields = no_fields();
        write_listed_incident(&mut fields, incident);
        fields
    }

    /// The command for the attributes given. The target is read as
    /// [`Target::parse`] reads it; where that fails, the error names the
    /// attribute and says why.
    pub fn from_attributes(
        client_id: String,
        tenant_id: String,
        target: &str,
        filter: Option<String>,
        orderby: Option<String>,
        top: Option<i64>,
    ) -> (r: Result<Self, CommandError>)
        ensures
            r is Ok <==> names_workspace(segments(target@, '/')),
            r matches Ok(command) ==> command.target@ == workspace_of(segments(target@, '/'))
                && command.client_id == client_id && command.tenant_id == tenant_id
                && command.filter == filter && command.orderby == orderby && command.top == top,
            r matches Err(e) ==> e.text() == invalid_attribute_text(
                "target"@,
                MalformedTarget::text(),
            ),
    {
        match read_target(target) {
            Ok(target) => Ok(Self { client_id, tenant_id, target, filter, orderby, top }),
            Err(e) => Err(e),
        }
    }

    /// The URL of the first page: that of the incidents, then the filter, the
    /// order and the number of items wanted, each where it is given and as it
    /// is given.
    pub open spec fn url_of(&self) -> Seq<char> {
        resource_url_of(self.target@, "incident"@, None) + parameter_if(
            "&$filter="@,
            given(self.filter),
        ) + parameter_if("&$orderby="@, given(self.orderby)) + parameter_if(
            "&$top="@,
            given_number(self.top),
        )
    }

    /// The URL of the first page.
    pub fn first_url(&self) -> (url: String)
        ensures
            url@ == self.url_of(),
    {
        let url = self.target.resource_url("incident", None);
        let url = match &self.filter {
            Some(filter) => url.concat("&$filter=").concat(filter.as_str()),
            None => {
                url
            },
        };
        let url = match &self.orderby {
            Some(orderby) => url.concat("&$orderby=").concat(orderby.as_str()),
            None => {
                url
            },
        };
        let url = match self.top {
            Some(top) => {
                let digits = decimal(top);
                url.concat("&$top=").concat(digits.as_str())
            },
            None => {
                url
            },
        };
        url
    }

    /// The call for one page of the list, with a token.
    pub fn page_call(url: String, token: &str) -> (call: ManagementCall<NoBody>)
        ensures
            call@ == call_with(Method::Get, url@, false, None::<NoBody>, token@),
    {
        ManagementCall::new(Method::Get, url, token, false, None::<NoBody>)
    }

    /// Reports a page of incidents after the rows that were reported before.
    pub fn report_page(rows: &mut Vec<Row>, incidents: &Vec<Incident>)
        ensures
            row_views(final(rows)@) == row_views(old(rows)@) + page_rows(
                old(rows)@.len(),
                incidents@,
            ),
            final(rows)@.len() == old(rows)@.len() + incidents@.len(),
    {
        let ghost start = rows@;
        let ghost page = page_rows(start.len(), incidents@);
        let mut i: usize = 0;
        while i < incidents.len()
            invariant
                i <= incidents.len(),
                rows@.len() == start.len() + i,
                page == page_rows(start.len(), incidents@),
                row_views(rows@) == row_views(start) + page.take(i as int),
            decreases incidents.len() - i,
        {
            let ghost before = row_views(rows@);
            let fields = ListIncidentsCommand::write_incident(&incidents[i]);
            let row = Row { index: Some(rows.len()), fields };
            rows.push(row);
            proof {
                assert(row_views(rows@) =~= before.push(row@));
            }
            i = i + 1;
        }
    }

    /// Runs the command, where `replies` are the replies to the calls of the
    /// list, in their order. The token is got once. The first call asks for
    /// the URL of the first page; each further one for the link that the page
    /// before it carried, as it stands. The incidents are reported row by
    /// row, under their index in the whole list. An error ends the list; the
    /// rows before it stay reported.
    #[verifier::loop_isolation(false)]
    pub fn execute<
        E: FnOnce(DeviceFlow) -> Result<Session, AuthError>,
        X: FnOnce(String) -> ExchangeOutcome,
    >(
        &self,
        http_present: bool,
        store: &mut Option<SessionStore>,
        now: u64,
        establish: E,
        exchange: X,
        replies: Vec<CommandReply<IncidentList>>,
    ) -> (report: ListIncidentsReport)
        requires
            token_can_be_got(
                http_present,
                *old(store),
                self.client_id@,
                self.tenant_id@,
                TokenAudience::AzureManagement,
                now,
                establish,
                exchange,
            ),
        ensures
            exists|token: Result<String, CommandError>|
                #![trigger reported_as(token, report, self.url_of(), replies@)]
                {
                    &&& management_token_got(
                        http_present,
                        *old(store),
                        *final(store),
                        self.client_id@,
                        self.tenant_id@,
                        token,
                        now,
                        establish,
                        exchange,
                    )
                    &&& reported_as(token, report, self.url_of(), replies@)
                },
    {
        broadcast use vstd::std_specs::vec::axiom_spec_into_iter;

        let token = get_azure_management_token(
            http_present,
            store,
            self.client_id.as_str(),
            self.tenant_id.as_str(),
            now,
            establish,
            exchange,
        );
        let ghost got = token;
        let secret = match token {
            Ok(secret) => secret,
            Err(e) => {
                let report = ListIncidentsReport {
                    rows: Vec::new(),
                    error: Some(e),
                    calls: Vec::new(),
                };
                assert(reported_as(got, report, self.url_of(), replies@));
                return report;
            },
        };
        let ghost all = replies@;
        let mut url = self.first_url();
        let mut rows: Vec<Row> = Vec::new();
        let mut calls: Vec<ManagementCall<NoBody>> = Vec::new();
        assert(all.skip(0) =~= all);
        for reply in it: replies.into_iter()
            invariant
                it.seq() == all,
                calls_carry(calls@, secret@),
                list_calls(self.url_of(), all) == call_urls(calls@) + list_calls(
                    url@,
                    all.skip(it.index()),
                ),
                list_report(Seq::empty(), all) == list_report(
                    row_views(rows@),
                    all.skip(it.index()),
                ),
        {
            let ghost at = it.index();
            let ghost rest = all.skip(at);
            calls.push(ListIncidentsCommand::page_call(url.clone(), secret.as_str()));
            proof {
                assert(rest.drop_first() =~= all.skip(at + 1));
            }
            match read_command_reply(reply, "list incidents") {
                Err(e) => {
                    proof {
                        assert(call_urls(calls@) == list_calls(self.url_of(), all));
                    }
                    let report = ListIncidentsReport { rows, error: Some(e), calls };
                    assert(reported_as(got, report, self.url_of(), all));
                    return report;
                },
                Ok(page) => {
                    match &page.value {
                        Some(incidents) => {
                            ListIncidentsCommand::report_page(&mut rows, incidents);
                        },
                        None => {
                        },
                    }
                    match page.next_link {
                        Some(next) => {
                            url = next;
                        },
                        None => {
                            proof {
                                assert(call_urls(calls@) == list_calls(self.url_of(), all));
                            }
                            let report = ListIncidentsReport { rows, error: None, calls };
                            assert(reported_as(got, report, self.url_of(), all));
                            return report;
                        },
                    }
                },
            }
        }
        calls.push(ListIncidentsCommand::page_call(url, secret.as_str()));
        proof {
            assert(call_urls(calls@) == list_calls(self.url_of(), all));
        }
        let report = ListIncidentsReport { rows, error: Some(CommandError::Transport), calls };
        assert(reported_as(got, report, self.url_of(), all));
        report
    }
}

} // verus!
