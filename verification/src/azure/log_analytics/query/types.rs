//! The shapes of a query and of its result, and how the result is reported.

use crate::auth::{AuthScope, Session, SessionStore};
use crate::azure::common::{
    check_response_success, log_analytics_scope_name, token_got, unsuccessful_text, CommandError,
    TokenAudience,
};
use crate::azure::output::{
    field_views, row_views, Field, FieldValue, FieldValueView, FieldView, Row, RowView,
};
use crate::client::auth::{bearer_of, ExchangeOutcome};
use crate::error::AuthError;
use crate::http::{is_success, Method};
use crate::oauth::DeviceFlow;
use crate::text::{join2, str_eq, views};
use crate::types::json::{JsonNumber, JsonValue};
use vstd::prelude::*;
use vstd::string::*;

verus! {

/// The body of a query by `Post`.
#[derive(Debug, Clone)]
pub struct QueryRequest {
    pub query: String,
    pub timespan: Option<String>,
}

/// The result of a query.
#[derive(Debug, Clone)]
pub struct QueryResponse {
    pub tables: Vec<QueryTable>,
}

/// A table of a result.
#[derive(Debug, Clone)]
pub struct QueryTable {
    pub name: String,
    pub columns: Vec<QueryColumn>,
    pub rows: Vec<Vec<JsonValue>>,
}

/// A column of a table.
#[derive(Debug, Clone)]
pub struct QueryColumn {
    pub name: String,
    pub column_type: String,
}

pub open spec fn primary_name() -> Seq<char> {
    "PrimaryResult"@
}

/// The index of the first table of the given name.
pub open spec fn first_named(tables: Seq<QueryTable>, name: Seq<char>) -> Option<int>
    decreases tables.len(),
{
    if tables.len() == 0 {
        None
    } else if tables[0].name@ == name {
        Some(0)
    } else {
        match first_named(tables.drop_first(), name) {
            Some(i) => Some(i + 1),
            None => None,
        }
    }
}

/// The index of the table that a command reports: the first that is named
/// `PrimaryResult`, else the first.
pub open spec fn primary_index(tables: Seq<QueryTable>) -> Option<int> {
    match first_named(tables, primary_name()) {
        Some(i) => Some(i),
        None => if tables.len() > 0 {
            Some(0)
        } else {
            None
        },
    }
}

/// The index of the first column of the given name.
pub open spec fn first_column(columns: Seq<QueryColumn>, name: Seq<char>) -> Option<int>
    decreases columns.len(),
{
    if columns.len() == 0 {
        None
    } else if columns[0].name@ == name {
        Some(0)
    } else {
        match first_column(columns.drop_first(), name) {
            Some(i) => Some(i + 1),
            None => None,
        }
    }
}

/// A prefix without a table of the name, followed by one, finds that one.
pub proof fn lemma_first_named_is(tables: Seq<QueryTable>, name: Seq<char>, at: int)
    requires
        0 <= at <= tables.len(),
        forall|i: int| 0 <= i < at ==> (#[trigger] tables[i]).name@ != name,
        at < tables.len() ==> tables[at].name@ == name,
    ensures
        first_named(tables, name) == if at < tables.len() {
            Some(at)
        } else {
            None::<int>
        },
    decreases at,
{
    if at > 0 {
        let rest = tables.drop_first();
        lemma_first_named_is(rest, name, at - 1);
    }
}

/// A prefix without a column of the name, followed by one, finds that one.
pub proof fn lemma_first_column_is(columns: Seq<QueryColumn>, name: Seq<char>, at: int)
    requires
        0 <= at <= columns.len(),
        forall|i: int| 0 <= i < at ==> (#[trigger] columns[i]).name@ != name,
        at < columns.len() ==> columns[at].name@ == name,
    ensures
        first_column(columns, name) == if at < columns.len() {
            Some(at)
        } else {
            None::<int>
        },
    decreases at,
{
    if at > 0 {
        let rest = columns.drop_first();
        lemma_first_column_is(rest, name, at - 1);
    }
}

impl QueryResponse {
    /// The table that a command reports: the first that is named
    /// `PrimaryResult`, else the first.
    pub fn primary_table(&self) -> (table: Option<&QueryTable>)
        ensures
            match primary_index(self.tables@) {
                Some(i) => 0 <= i < self.tables@.len() && table == Some(&self.tables@[i]),
                None => table is None,
            },
    {
        let mut i: usize = 0;
        while i < self.tables.len()
            invariant
                i <= self.tables.len(),
                forall|k: int| 0 <= k < i ==> (#[trigger] self.tables@[k]).name@ != primary_name(),
            decreases self.tables.len() - i,
        {
            if str_eq(self.tables[i].name.as_str(), "PrimaryResult") {
                proof {
                    lemma_first_named_is(self.tables@, primary_name(), i as int);
                }
                return Some(&self.tables[i]);
            }
            i = i + 1;
        }
        proof {
            lemma_first_named_is(self.tables@, primary_name(), i as int);
        }
        if self.tables.len() > 0 {
            Some(&self.tables[0])
        } else {
            None
        }
    }
}

impl QueryTable {
    /// The index of the first column of the given name.
    pub fn column_index(&self, name: &str) -> (index: Option<usize>)
        ensures
            match first_column(self.columns@, name@) {
                Some(i) => index == Some(i as usize) && i < self.columns@.len(),
                None => index is None,
            },
    {
        let mut i: usize = 0;
        while i < self.columns.len()
            invariant
                i <= self.columns.len(),
                forall|k: int| 0 <= k < i ==> (#[trigger] self.columns@[k]).name@ != name@,
            decreases self.columns.len() - i,
        {
            if str_eq(self.columns[i].name.as_str(), name) {
                proof {
                    lemma_first_column_is(self.columns@, name@, i as int);
                }
                return Some(i);
            }
            i = i + 1;
        }
        proof {
            lemma_first_column_is(self.columns@, name@, i as int);
        }
        None
    }
}

/// What a number is reported as: its integer where it is one, else its
/// floating-point value where it has one.
pub open spec fn number_value(n: JsonNumber) -> Option<FieldValueView> {
    match n.as_i64 {
        Some(i) => Some(FieldValueView::Integer(i)),
        None => match n.as_f64_bits {
            Some(bits) => Some(FieldValueView::Float(bits)),
            None => None,
        },
    }
}

/// What a value is reported as under a name: nothing for null; a truth
/// value, a number and a text as they are; an array and an object as their
/// JSON text.
pub open spec fn value_field(name: Seq<char>, value: JsonValue) -> Option<FieldView> {
    match value {
        JsonValue::Null => None,
        JsonValue::Bool(b) => Some(FieldView { name, value: FieldValueView::Bool(b) }),
        JsonValue::Number(n) => match number_value(n) {
            Some(v) => Some(FieldView { name, value: v }),
            None => None,
        },
        JsonValue::String(s) => Some(FieldView { name, value: FieldValueView::Text(s@) }),
        JsonValue::Array(text) => Some(FieldView { name, value: FieldValueView::Text(text@) }),
        JsonValue::Object(text) => Some(FieldView { name, value: FieldValueView::Text(text@) }),
    }
}

/// The view of a field that may be missing.
pub open spec fn field_view(field: Option<Field>) -> Option<FieldView> {
    match field {
        Some(f) => Some(f@),
        None => None,
    }
}

/// The field by which a value is reported under a name.
pub fn write_value(name: &str, value: &JsonValue) -> (field: Option<Field>)
    ensures
        field_view(field) == value_field(name@, *value),
{
    let reported = match value {
        JsonValue::Null => {
            return None;
        },
        JsonValue::Bool(b) => FieldValue::Bool(*b),
        JsonValue::Number(n) => {
            match n.as_i64 {
                Some(i) => FieldValue::Integer(i),
                None => match n.as_f64_bits {
                    Some(bits) => FieldValue::Float(bits),
                    None => {
                        return None;
                    },
                },
            }
        },
        JsonValue::String(s) => FieldValue::Text(s.clone()),
        JsonValue::Array(text) => FieldValue::Text(text.clone()),
        JsonValue::Object(text) => FieldValue::Text(text.clone()),
    };
    Some(Field { name: String::from_str(name), value: reported })
}

/// The fields of a row: for each column, in the order of the columns, for
/// which the row has a value, the field of that value under the column's name.
pub open spec fn row_fields(columns: Seq<QueryColumn>, row: Seq<JsonValue>) -> Seq<FieldView>
    decreases columns.len(),
{
    if columns.len() == 0 {
        Seq::empty()
    } else {
        let before = row_fields(columns.drop_last(), row);
        let at = columns.len() - 1;
        if at < row.len() {
            match value_field(columns[at].name@, row[at]) {
                Some(field) => before.push(field),
                None => before,
            }
        } else {
            before
        }
    }
}

/// The rows that a table is reported as: one for each row of the table, under
/// its index.
pub open spec fn table_rows(table: QueryTable) -> Seq<RowView> {
    Seq::new(
        table.rows@.len(),
        |i: int| RowView { index: Some(i as usize), fields: row_fields(table.columns@, table.rows@[i]@) },
    )
}

/// The rows that a result is reported as: those of its primary table, none
/// where it has no table.
pub open spec fn result_rows(tables: Seq<QueryTable>) -> Seq<RowView> {
    match primary_index(tables) {
        Some(i) => table_rows(tables[i]),
        None => Seq::empty(),
    }
}

/// The fields of a row of a table.
pub fn report_row(columns: &Vec<QueryColumn>, row: &Vec<JsonValue>) -> (fields: Vec<Field>)
    ensures
        field_views(fields@) == row_fields(columns@, row@),
{
    let mut fields: Vec<Field> = Vec::new();
    let mut at: usize = 0;
    while at < columns.len()
        invariant
            at <= columns.len(),
            field_views(fields@) == row_fields(columns@.take(at as int), row@),
        decreases columns.len() - at,
    {
        proof {
            let upto = columns@.take(at + 1);
            assert(upto.drop_last() =~= columns@.take(at as int));
        }
        if at < row.len() {
            match write_value(columns[at].name.as_str(), &row[at]) {
                Some(field) => {
                    fields.push(field);
                },
                None => {},
            }
        }
        at = at + 1;
    }
    assert(columns@.take(columns.len() as int) =~= columns@);
    fields
}

/// The rows that a result is reported as.
pub fn report_result(result: &QueryResponse) -> (rows: Vec<Row>)
    ensures
        row_views(rows@) == result_rows(result.tables@),
{
    let mut rows: Vec<Row> = Vec::new();
    match result.primary_table() {
        None => {
        },
        Some(table) => {
            let mut i: usize = 0;
            while i < table.rows.len()
                invariant
                    i <= table.rows.len(),
                    row_views(rows@) == table_rows(*table).take(i as int),
                decreases table.rows.len() - i,
            {
                let ghost before = row_views(rows@);
                let fields = report_row(&table.columns, &table.rows[i]);
                let row = Row { index: Some(i), fields };
                rows.push(row);
                proof {
                    assert(row_views(rows@) =~= before.push(row@));
                }
                i = i + 1;
            }
        },
    }
    rows
}

/// A query as it goes out: where to, how, with which token, and with the
/// query in the body or in the query string.
pub struct QueryCall {
    pub method: Method,
    pub url: String,
    /// The value of the `Authorization` header.
    pub authorization: String,
    /// The body, for a query by `Post`; it goes out as JSON.
    pub body: Option<QueryRequest>,
    /// The parameters of the query string, for a query by `Get`.
    pub parameters: Vec<(String, String)>,
}

/// What came back for a query.
pub enum QueryReply {
    /// No response arrived.
    Failed,
    /// A response arrived. `status_text` is the status as the transport
    /// prints it; `decoded` holds the body read as a result, where it is one.
    Answered { status: u16, status_text: String, body: String, decoded: Option<QueryResponse> },
}

/// What a reply to a query is reported as: the rows of the result; or the
/// error of a response that reports no success, which names the operation,
/// the status and the body; or the error of a missing response or of a body
/// that is no result.
pub open spec fn reply_rows(reply: QueryReply, operation: Seq<char>) -> Result<Seq<RowView>, Seq<char>> {
    match reply {
        QueryReply::Failed => Err(CommandError::Transport.text()),
        QueryReply::Answered { status, status_text, body, decoded } => if !is_success(status) {
            Err(unsuccessful_text(operation, status_text@, body@))
        } else {
            match decoded {
                Some(result) => Ok(result_rows(result.tables@)),
                None => Err(CommandError::Decode.text()),
            }
        },
    }
}

/// The view of what a command reports.
pub open spec fn reported(r: Result<Vec<Row>, CommandError>) -> Result<Seq<RowView>, Seq<char>> {
    match r {
        Ok(rows) => Ok(row_views(rows@)),
        Err(e) => Err(e.text()),
    }
}

/// Reports a reply to a query.
pub fn report_reply(reply: QueryReply, operation: &str) -> (r: Result<Vec<Row>, CommandError>)
    ensures
        reported(r) == reply_rows(reply, operation@),
{
    match reply {
        QueryReply::Failed => Err(CommandError::Transport),
        QueryReply::Answered { status, status_text, body, decoded } => {
            match check_response_success(status, status_text.as_str(), body.as_str(), operation) {
                Err(e) => Err(e),
                Ok(()) => match decoded {
                    Some(result) => Ok(report_result(&result)),
                    None => Err(CommandError::Decode),
                },
            }
        },
    }
}

/// A [`QueryCall`] as a plain value.
pub struct QueryCallView {
    pub method: Method,
    pub url: Seq<char>,
    pub authorization: Seq<char>,
    /// The query and the timespan of the body.
    pub body: Option<(Seq<char>, Option<Seq<char>>)>,
    pub parameters: Seq<(Seq<char>, Seq<char>)>,
}

/// The view of a text that may be missing.
pub open spec fn text_view(text: Option<String>) -> Option<Seq<char>> {
    match text {
        Some(t) => Some(t@),
        None => None,
    }
}

impl View for QueryCall {
    type V = QueryCallView;

    open spec fn view(&self) -> QueryCallView {
        QueryCallView {
            method: self.method,
            url: self.url@,
            authorization: self.authorization@,
            body: match self.body {
                Some(body) => Some((body.query@, text_view(body.timespan))),
                None => None,
            },
            parameters: self.parameters@.map_values(|p: (String, String)| (p.0@, p.1@)),
        }
    }
}

/// A query by `Post`: the query and the timespan travel in the body.
pub open spec fn post_call(
    url: Seq<char>,
    token: Seq<char>,
    query: Seq<char>,
    timespan: Option<Seq<char>>,
) -> QueryCallView {
    QueryCallView {
        method: Method::Post,
        url,
        authorization: bearer_of(token),
        body: Some((query, timespan)),
        parameters: Seq::empty(),
    }
}

/// A query by `Get`: the query travels in the query string, and the timespan
/// after it where there is one.
pub open spec fn get_call(
    url: Seq<char>,
    token: Seq<char>,
    query: Seq<char>,
    timespan: Option<Seq<char>>,
) -> QueryCallView {
    QueryCallView {
        method: Method::Get,
        url,
        authorization: bearer_of(token),
        body: None,
        parameters: match timespan {
            Some(span) => seq![("query"@, query), ("timespan"@, span)],
            None => seq![("query"@, query)],
        },
    }
}

/// A copy of a text that may be missing.
pub fn copy_text(text: &Option<String>) -> (copy: Option<String>)
    ensures
        copy == *text,
{
    match text {
        Some(t) => Some(t.clone()),
        None => None,
    }
}

/// Builds a query by `Post`.
pub fn build_post_call(url: String, token: &str, query: &str, timespan: &Option<String>) -> (call:
    QueryCall)
    ensures
        call@ == post_call(url@, token@, query@, text_view(*timespan)),
{
    let call = QueryCall {
        method: Method::Post,
        url,
        authorization: join2("Bearer ", token),
        body: Some(QueryRequest { query: String::from_str(query), timespan: copy_text(timespan) }),
        parameters: Vec::new(),
    };
    assert(call@.parameters =~= Seq::empty());
    call
}

/// Builds a query by `Get`.
pub fn build_get_call(url: String, token: &str, query: &str, timespan: &Option<String>) -> (call:
    QueryCall)
    ensures
        call@ == get_call(url@, token@, query@, text_view(*timespan)),
{
    let mut parameters: Vec<(String, String)> = Vec::new();
    parameters.push((String::from_str("query"), String::from_str(query)));
    match timespan {
        Some(span) => {
            parameters.push((String::from_str("timespan"), span.clone()));
        },
        None => {},
    }
    let call = QueryCall {
        method: Method::Get,
        url,
        authorization: join2("Bearer ", token),
        body: None,
        parameters,
    };
    assert(call@.parameters =~= get_call(url@, token@, query@, text_view(*timespan)).parameters);
    call
}

/// What running a query comes to. The token of the Log Analytics API is got
/// for the client and the tenant, as [`token_got`] says; without it the
/// command fails with the error of that. With it, `send` was handed the call
/// that `call_of` names for the token, and its reply is reported as
/// [`reply_rows`] says.
pub open spec fn query_run<
    E: FnOnce(DeviceFlow) -> Result<Session, AuthError>,
    X: FnOnce(String) -> ExchangeOutcome,
    F: FnOnce(QueryCall) -> QueryReply,
>(
    http_present: bool,
    before: Option<SessionStore>,
    after: Option<SessionStore>,
    client_id: Seq<char>,
    tenant_id: Seq<char>,
    call_of: spec_fn(Seq<char>) -> QueryCallView,
    operation: Seq<char>,
    r: Result<Vec<Row>, CommandError>,
    now: u64,
    establish: E,
    exchange: X,
    send: F,
) -> bool {
    exists|scope: AuthScope, token: Result<String, CommandError>|
        #![trigger token_got(http_present, before, after, scope, TokenAudience::LogAnalytics, token, now, establish, exchange)]
        {
            &&& scope.client_id@ == client_id
            &&& scope.tenant_id@ == tenant_id
            &&& views(scope.scopes@) == seq![log_analytics_scope_name()]
            &&& token_got(
                http_present,
                before,
                after,
                scope,
                TokenAudience::LogAnalytics,
                token,
                now,
                establish,
                exchange,
            )
            &&& match token {
                Err(e) => r == Err::<Vec<Row>, CommandError>(e),
                Ok(secret) => exists|call: QueryCall, reply: QueryReply|
                    #![trigger call_ensures(send, (call,), reply)]
                    {
                        &&& call@ == call_of(secret@)
                        &&& call_ensures(send, (call,), reply)
                        &&& reported(r) == reply_rows(reply, operation)
                    },
            }
        }
}

} // verus!
