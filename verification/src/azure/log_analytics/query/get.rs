//! A query against a workspace, by `Get`.

use crate::auth::{Session, SessionStore};
use crate::azure::common::{
    call_can_be_sent, get_log_analytics_token, invalid_attribute, invalid_attribute_text,
    token_can_be_got, token_may_be_got, CommandError, TokenAudience,
};
use crate::azure::log_analytics::query::types::{
    build_get_call, get_call, query_run, report_reply, text_view, QueryCall, QueryCallView,
    QueryReply,
};
use crate::azure::log_analytics::Target;
use crate::azure::output::Row;
use crate::client::auth::ExchangeOutcome;
use crate::error::AuthError;
use crate::oauth::DeviceFlow;
use vstd::prelude::*;
use vstd::string::*;

verus! {

pub open spec fn operation_name() -> Seq<char> {
    "get query"@
}

/// A query against a workspace, by `Get`.
#[derive(Debug)]
pub struct GetQueryCommand {
    pub client_id: String,
    pub tenant_id: String,
    pub target: Target,
    pub query: String,
    pub timespan: Option<String>,
}

impl GetQueryCommand {
    /// The command for the attributes given. The workspace is read as
    /// [`Target::try_from`] reads it; where that fails, the error names the
    /// attribute and says why.
    pub fn from_attributes(
        client_id: String,
        tenant_id: String,
        workspace_id: &str,
        query: String,
        timespan: Option<String>,
    ) -> (r: Result<Self, CommandError>)
        ensures
            match Target::try_from_spec_of(workspace_id@) {
                Ok(target) => r matches Ok(command) && command.target@ == target
                    && command.client_id == client_id && command.tenant_id == tenant_id
                    && command.query == query && command.timespan == timespan,
                Err(e) => r matches Err(told) && told.text() == invalid_attribute_text(
                    "workspace_id"@,
                    e.text(),
                ),
            },
    {
        match Target::try_from(workspace_id) {
            Ok(target) => Ok(Self { client_id, tenant_id, target, query, timespan }),
            Err(e) => Err(invalid_attribute("workspace_id", e.message())),
        }
    }

    /// The call that the command makes with a token.
    pub open spec fn call_of(&self, token: Seq<char>) -> QueryCallView {
        get_call(self.target.url_of(), token, self.query@, text_view(self.timespan))
    }

    /// The call that the command makes with a token.
    pub fn call(&self, token: &str) -> (call: QueryCall)
        ensures
            call@ == self.call_of(token@),
    {
        build_get_call(self.target.query_url(), token, self.query.as_str(), &self.timespan)
    }

    /// Runs the command: gets the token, hands the call to `send`, and
    /// reports the rows of the result.
    pub fn execute<
        E: FnOnce(DeviceFlow) -> Result<Session, AuthError>,
        X: FnOnce(String) -> ExchangeOutcome,
        F: FnOnce(QueryCall) -> QueryReply,
    >(
        &self,
        http_present: bool,
        store: &mut Option<SessionStore>,
        now: u64,
        establish: E,
        exchange: X,
        send: F,
    ) -> (r: Result<Vec<Row>, CommandError>)
        requires
            token_can_be_got(
                http_present,
                *old(store),
                self.client_id@,
                self.tenant_id@,
                TokenAudience::LogAnalytics,
                now,
                establish,
                exchange,
            ),
            call_can_be_sent(
                http_present,
                *old(store),
                self.client_id@,
                self.tenant_id@,
                TokenAudience::LogAnalytics,
                |token: Seq<char>| self.call_of(token),
                now,
                establish,
                exchange,
                send,
            ),
        ensures
            query_run(
                http_present,
                *old(store),
                *final(store),
                self.client_id@,
                self.tenant_id@,
                |token: Seq<char>| self.call_of(token),
                operation_name(),
                r,
                now,
                establish,
                exchange,
                send,
            ),
    {
        let token = get_log_analytics_token(
            http_present,
            store,
            self.client_id.as_str(),
            self.tenant_id.as_str(),
            now,
            establish,
            exchange,
        );
        match token {
            Err(e) => Err(e),
            Ok(secret) => {
                let call = self.call(secret.as_str());
                proof {
                    let call_of = |token: Seq<char>| self.call_of(token);
                    assert(call@ == call_of(secret@));
                    assert(token_may_be_got(
                        http_present,
                        *old(store),
                        self.client_id@,
                        self.tenant_id@,
                        TokenAudience::LogAnalytics,
                        secret@,
                        now,
                        establish,
                        exchange,
                    ));
                }
                let reply = send(call);
                report_reply(reply, "get query")
            },
        }
    }
}

} // verus!
