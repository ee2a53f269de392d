//! Lists the bookmarks of an incident.

use crate::auth::{Session, SessionStore};
use crate::azure::common::{
    call_can_be_sent, call_with, command_run, invalid_attribute_text, run_command, token_can_be_got,
    CommandError, CommandReply, ManagementCall, NoBody, TokenAudience,
};
use crate::azure::output::{
    field_views, name_if, no_fields, push_name_if, push_text, push_text_if, row_views, text_field,
    text_if, Field, FieldView, Row, RowView,
};
use crate::azure::sentinel::{
    incident_sub_resource_url_of, names_workspace, workspace_of, MalformedTarget, Target,
};
use crate::azure::sentinel::incidents::read_target;
use crate::azure::sentinel::incidents::types::{
    HuntingBookmark, HuntingBookmarkProperties, IncidentBookmarkList, IncidentInfo, UserInfo,
};
use crate::client::auth::ExchangeOutcome;
use crate::error::AuthError;
use crate::http::Method;
use crate::oauth::DeviceFlow;
use crate::text::segments;
use vstd::prelude::*;
use vstd::string::*;

verus! {

pub open spec fn bookmark_operation() -> Seq<char> {
    "list incident bookmarks"@
}

/// Lists the bookmarks of an incident.
#[derive(Debug)]
pub struct ListIncidentBookmarksCommand {
    pub client_id: String,
    pub tenant_id: String,
    pub target: Target,
    pub incident_id: String,
}

/// What is reported of the user who made a bookmark.
pub open spec fn created_by_fields(before: Seq<FieldView>, v: UserInfo) -> Seq<FieldView> {
    let f = before;
    let f = f + text_if("created_by_object_id"@, v.object_id);
    let f = f + text_if("created_by_name"@, v.name);
    let f = f + text_if("created_by_email"@, v.email);
    f
}

/// Adds the fields that [`created_by_fields`] names.
pub fn write_created_by(fields: &mut Vec<Field>, v: &UserInfo)
    ensures
        field_views(final(fields)@) == created_by_fields(field_views(old(fields)@), *v),
{
    push_text_if(fields, "created_by_object_id", &v.object_id);
    push_text_if(fields, "created_by_name", &v.name);
    push_text_if(fields, "created_by_email", &v.email);
}

/// What is reported of the user who last changed a bookmark.
pub open spec fn updated_by_fields(before: Seq<FieldView>, v: UserInfo) -> Seq<FieldView> {
    let f = before;
    let f = f + text_if("updated_by_object_id"@, v.object_id);
    let f = f + text_if("updated_by_name"@, v.name);
    f
}

/// Adds the fields that [`updated_by_fields`] names.
pub fn write_updated_by(fields: &mut Vec<Field>, v: &UserInfo)
    ensures
        field_views(final(fields)@) == updated_by_fields(field_views(old(fields)@), *v),
{
    push_text_if(fields, "updated_by_object_id", &v.object_id);
    push_text_if(fields, "updated_by_name", &v.name);
}

/// What is reported of the incident of a bookmark.
pub open spec fn incident_info_fields(before: Seq<FieldView>, v: IncidentInfo) -> Seq<FieldView> {
    let f = before;
    let f = f + text_if("incident_id"@, v.incident_id);
    let f = f + name_if(
        "incident_severity"@,
        match v.severity {
            Some(v) => Some(v.name_of()),
            None => None,
        },
    );
    let f = f + text_if("incident_title"@, v.title);
    f
}

/// Adds the fields that [`incident_info_fields`] names.
pub fn write_incident_info(fields: &mut Vec<Field>, v: &IncidentInfo)
    ensures
        field_views(final(fields)@) == incident_info_fields(field_views(old(fields)@), *v),
{
    push_text_if(fields, "incident_id", &v.incident_id);
    push_name_if(
        fields,
        "incident_severity",
        match &v.severity {
            Some(v) => Some(v.name()),
            None => None,
        },
    );
    push_text_if(fields, "incident_title", &v.title);
}

/// What is reported of the properties of a bookmark.
pub open spec fn bookmark_properties_fields(before: Seq<FieldView>, v: HuntingBookmarkProperties) -> Seq<FieldView> {
    let f = before;
    let f = f + text_if("display_name"@, v.display_name);
    let f = f + text_if("created"@, v.created);
    let f = match v.created_by {
        Some(v) => created_by_fields(f, v),
        None => f,
    };
    let f = f + text_if("updated"@, v.updated);
    let f = match v.updated_by {
        Some(v) => updated_by_fields(f, v),
        None => f,
    };
    let f = f + text_if("event_time"@, v.event_time);
    let f = f + text_if("notes"@, v.notes);
    let f = f + text_if("query"@, v.query);
    let f = f + text_if("query_result"@, v.query_result);
    let f = match v.incident_info {
        Some(v) => incident_info_fields(f, v),
        None => f,
    };
    f
}

/// Adds the fields that [`bookmark_properties_fields`] names.
pub fn write_bookmark_properties(fields: &mut Vec<Field>, v: &HuntingBookmarkProperties)
    ensures
        field_views(final(fields)@) == bookmark_properties_fields(field_views(old(fields)@), *v),
{
    push_text_if(fields, "display_name", &v.display_name);
    push_text_if(fields, "created", &v.created);
    match &v.created_by {
        Some(v) => {
            write_created_by(fields, v);
        },
        None => {},
    }
    push_text_if(fields, "updated", &v.updated);
    match &v.updated_by {
        Some(v) => {
            write_updated_by(fields, v);
        },
        None => {},
    }
    push_text_if(fields, "event_time", &v.event_time);
    push_text_if(fields, "notes", &v.notes);
    push_text_if(fields, "query", &v.query);
    push_text_if(fields, "query_result", &v.query_result);
    match &v.incident_info {
        Some(v) => {
            write_incident_info(fields, v);
        },
        None => {},
    }
}

/// What is reported of a bookmark: its identifiers and its kind, then its properties where it has any.
pub open spec fn bookmark_fields(before: Seq<FieldView>, bookmark: HuntingBookmark) -> Seq<FieldView> {
    let f = before;
    let f = f.push(text_field("id"@, bookmark.id@));
    let f = f.push(text_field("name"@, bookmark.name@));
    let f = f.push(text_field("kind"@, bookmark.kind@));
    let f = match bookmark.properties {
        Some(v) => bookmark_properties_fields(f, v),
        None => f,
    };
    f
}

/// Adds the fields that [`bookmark_fields`] names.
pub fn write_bookmark_fields(fields: &mut Vec<Field>, bookmark: &HuntingBookmark)
    ensures
        field_views(final(fields)@) == bookmark_fields(field_views(old(fields)@), *bookmark),
{
    push_text(fields, "id", bookmark.id.as_str());
    push_text(fields, "name", bookmark.name.as_str());
    push_text(fields, "kind", bookmark.kind.as_str());
    match &bookmark.properties {
        Some(v) => {
            write_bookmark_properties(fields, v);
        },
        None => {},
    }
}

/// The rows that are reported of the bookmarks of an incident: one for each, under
/// its index.
pub open spec fn bookmark_rows(items: Seq<HuntingBookmark>) -> Seq<RowView> {
    Seq::new(
        items.len(),
        |i: int| RowView { index: Some(i as usize), fields: bookmark_fields(Seq::empty(), items[i]) },
    )
}

/// Reports the bookmarks of an incident.
pub fn report_bookmark(items: &Vec<HuntingBookmark>) -> (rows: Vec<Row>)
    ensures
        row_views(rows@) == bookmark_rows(items@),
{
    let mut rows: Vec<Row> = Vec::new();
    let mut i: usize = 0;
    while i < items.len()
        invariant
            i <= items.len(),
            row_views(rows@) == bookmark_rows(items@).take(i as int),
        decreases items.len() - i,
    {
        let ghost before = row_views(rows@);
        let fields = ListIncidentBookmarksCommand::write_bookmark(&items[i]);
        let row = Row { index: Some(i), fields };
        rows.push(row);
        proof {
            assert(row_views(rows@) =~= before.push(row@));
        }
        i = i + 1;
    }
    rows
}

/// What the command reports by what it got: the rows of the bookmarks, or the error.
pub open spec fn reported_as(
    got: Result<IncidentBookmarkList, CommandError>,
    r: Result<Vec<Row>, CommandError>,
) -> bool {
    match got {
        Ok(list) => r matches Ok(rows) && row_views(rows@) == bookmark_rows(
            list.value@,
        ),
        Err(e) => r == Err::<Vec<Row>, CommandError>(e),
    }
}

impl ListIncidentBookmarksCommand {
    /// What is reported of a bookmark.
    pub fn write_bookmark(bookmark: &HuntingBookmark) -> (fields: Vec<Field>)
        ensures
            field_views(fields@) == bookmark_fields(Seq::empty(), *bookmark),
    {
        let mut fields = no_fields();
        write_bookmark_fields(&mut fields, bookmark);
        fields
    }

    /// The command for the attributes given. The target is read as
    /// [`Target::parse`] reads it; where that fails, the error names the
    /// attribute and says why.
    pub fn from_attributes(
        client_id: String,
        tenant_id: String,
        target: &str,
        incident_id: String,
    ) -> (r: Result<Self, CommandError>)
        ensures
            r is Ok <==> names_workspace(segments(target@, '/')),
            r matches Ok(command) ==> command.target@ == workspace_of(segments(target@, '/'))
                && command.client_id == client_id && command.tenant_id == tenant_id
                && command.incident_id == incident_id,
            r matches Err(e) ==> e.text() == invalid_attribute_text(
                "target"@,
                MalformedTarget::text(),
            ),
    {
        match read_target(target) {
            Ok(target) => Ok(Self { client_id, tenant_id, target, incident_id }),
            Err(e) => Err(e),
        }
    }

    /// The URL at which the bookmarks of the incident are asked for.
    pub open spec fn url_of(&self) -> Seq<char> {
        incident_sub_resource_url_of(self.target@, self.incident_id@, "bookmarks"@)
    }

    /// The call that the command makes with a token.
    pub fn call(&self, token: &str) -> (call: ManagementCall<NoBody>)
        ensures
            call@ == call_with(Method::Post, self.url_of(), true, None::<NoBody>, token@),
    {
        ManagementCall::new(Method::Post, self.target.incident_sub_resource_url(self.incident_id.as_str(), "bookmarks"), token, true, None::<NoBody>)
    }

    /// Runs the command: gets the token, asks for the bookmarks by a `Post`
    /// without a body, and reports them row by row.
    pub fn execute<
        E: FnOnce(DeviceFlow) -> Result<Session, AuthError>,
        X: FnOnce(String) -> ExchangeOutcome,
        F: FnOnce(ManagementCall<NoBody>) -> CommandReply<IncidentBookmarkList>,
    >(
        &self,
        http_present: bool,
        store: &mut Option<SessionStore>,
        now: u64,
        establish: E,
        exchange: X,
        send: F,
    ) -> (r: Result<Vec<Row>, CommandError>)
        requires
            token_can_be_got(
                http_present,
                *old(store),
                self.client_id@,
                self.tenant_id@,
                TokenAudience::AzureManagement,
                now,
                establish,
                exchange,
            ),
            call_can_be_sent(
                http_present,
                *old(store),
                self.client_id@,
                self.tenant_id@,
                TokenAudience::AzureManagement,
                |token: Seq<char>|
                    call_with(Method::Post, self.url_of(), true, None::<NoBody>, token),
                now,
                establish,
                exchange,
                send,
            ),
        ensures
            exists|got: Result<IncidentBookmarkList, CommandError>|
                #![trigger reported_as(got, r)]
                {
                    &&& command_run(
                        http_present,
                        *old(store),
                        *final(store),
                        self.client_id@,
                        self.tenant_id@,
                        |token: Seq<char>|
                            call_with(Method::Post, self.url_of(), true, None::<NoBody>, token),
                        bookmark_operation(),
                        got,
                        now,
                        establish,
                        exchange,
                        send,
                    )
                    &&& reported_as(got, r)
                },
    {
        let url = self.target.incident_sub_resource_url(self.incident_id.as_str(), "bookmarks");
        let got = run_command(
            http_present,
            store,
            self.client_id.as_str(),
            self.tenant_id.as_str(),
            Method::Post,
            url,
            true,
            None::<NoBody>,
            "list incident bookmarks",
            now,
            establish,
            exchange,
            send,
        );
        let ghost whole = got;
        let r = match got {
            Ok(list) => Ok(report_bookmark(&list.value)),
            Err(e) => Err(e),
        };
        assert(reported_as(whole, r));
        r
    }
}

} // verus!
