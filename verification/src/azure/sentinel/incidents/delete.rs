//! Deletes an incident.

use crate::auth::{Session, SessionStore};
use crate::azure::common::{
    call_can_be_sent, call_with, invalid_attribute_text, run_status_command, status_command_run,
    token_can_be_got, CommandError, ManagementCall, NoBody, StatusReply, TokenAudience,
};
use crate::azure::output::{bool_field, field_views, no_fields, push_bool, Field, FieldView};
use crate::azure::sentinel::{
    names_workspace, resource_url_of, workspace_of, MalformedTarget, Target,
};
use crate::azure::sentinel::incidents::read_target;
use crate::client::auth::ExchangeOutcome;
use crate::error::AuthError;
use crate::http::Method;
use crate::oauth::DeviceFlow;
use crate::text::segments;
use vstd::prelude::*;
use vstd::string::*;

verus! {

pub open spec fn delete_operation() -> Seq<char> {
    "delete incident"@
}

/// Deletes one incident of a workspace.
#[derive(Debug)]
pub struct DeleteIncidentCommand {
    pub client_id: String,
    pub tenant_id: String,
    pub target: Target,
    pub incident_id: String,
}

/// What the command reports after a delete that succeeded.
pub open spec fn deleted_fields() -> Seq<FieldView> {
    Seq::<FieldView>::empty().push(bool_field("deleted"@, true))
}

/// What the command reports by how the delete went: that it was done, or the error.
pub open spec fn reported_as(
    done: Result<(), CommandError>,
    r: Result<Vec<Field>, CommandError>,
) -> bool {
    match done {
        Ok(()) => r matches Ok(fields) && field_views(fields@) == deleted_fields(),
        Err(e) => r == Err::<Vec<Field>, CommandError>(e),
    }
}

impl DeleteIncidentCommand {
    /// The command for the attributes given. The target is read as
    /// [`Target::parse`] reads it; where that fails, the error names the
    /// attribute and says why.
    pub fn from_attributes(
        client_id: String,
        tenant_id: String,
        target: &str,
        incident_id: String,
    ) -> (r: Result<Self, CommandError>)
        ensures
            r is Ok <==> names_workspace(segments(target@, '/')),
            r matches Ok(command) ==> command.target@ == workspace_of(segments(target@, '/'))
                && command.client_id == client_id && command.tenant_id == tenant_id
                && command.incident_id == incident_id,
            r matches Err(e) ==> e.text() == invalid_attribute_text(
                "target"@,
                MalformedTarget::text(),
            ),
    {
        match read_target(target) {
            Ok(target) => Ok(Self { client_id, tenant_id, target, incident_id }),
            Err(e) => Err(e),
        }
    }

    /// The URL of the incident.
    pub open spec fn url_of(&self) -> Seq<char> {
        resource_url_of(self.target@, "incident"@, Some(self.incident_id@))
    }

    /// The call that the command makes with a token.
    pub fn call(&self, token: &str) -> (call: ManagementCall<NoBody>)
        ensures
            call@ == call_with(Method::Delete, self.url_of(), false, None::<NoBody>, token@),
    {
        ManagementCall::new(Method::Delete, self.target.resource_url("incident", Some(self.incident_id.as_str())), token, false, None::<NoBody>)
    }

    /// Runs the command: gets the token, asks for the delete, and reports
    /// that it was done. Of the response only the status counts.
    pub fn execute<
        E: FnOnce(DeviceFlow) -> Result<Session, AuthError>,
        X: FnOnce(String) -> ExchangeOutcome,
        F: FnOnce(ManagementCall<NoBody>) -> StatusReply,
    >(
        &self,
        http_present: bool,
        store: &mut Option<SessionStore>,
        now: u64,
        establish: E,
        exchange: X,
        send: F,
    ) -> (r: Result<Vec<Field>, CommandError>)
        requires
            token_can_be_got(
                http_present,
                *old(store),
                self.client_id@,
                self.tenant_id@,
                TokenAudience::AzureManagement,
                now,
                establish,
                exchange,
            ),
            call_can_be_sent(
                http_present,
                *old(store),
                self.client_id@,
                self.tenant_id@,
                TokenAudience::AzureManagement,
                |token: Seq<char>|
                    call_with(Method::Delete, self.url_of(), false, None::<NoBody>, token),
                now,
                establish,
                exchange,
                send,
            ),
        ensures
            exists|done: Result<(), CommandError>|
                #![trigger reported_as(done, r)]
                {
                    &&& status_command_run(
                        http_present,
                        *old(store),
                        *final(store),
                        self.client_id@,
                        self.tenant_id@,
                        |token: Seq<char>|
                            call_with(Method::Delete, self.url_of(), false, None::<NoBody>, token),
                        delete_operation(),
                        done,
                        now,
                        establish,
                        exchange,
                        send,
                    )
                    &&& reported_as(done, r)
                },
    {
        let url = self.target.resource_url("incident", Some(self.incident_id.as_str()));
        let done = run_status_command(
            http_present,
            store,
            self.client_id.as_str(),
            self.tenant_id.as_str(),
            Method::Delete,
            url,
            false,
            None::<NoBody>,
            "delete incident",
            now,
            establish,
            exchange,
            send,
        );
        let ghost whole = done;
        let r = match done {
            Ok(()) => {
                let mut fields = no_fields();
                push_bool(&mut fields, "deleted", true);
                Ok(fields)
            },
            Err(e) => Err(e),
        };
        assert(reported_as(whole, r));
        r
    }
}

} // verus!
