//! Runs a playbook on an incident.

use crate::auth::{Session, SessionStore};
use crate::azure::common::{
    call_can_be_sent, call_with, invalid_attribute_text, run_status_command, status_command_run,
    token_can_be_got, CommandError, ManagementCall, StatusReply, TokenAudience,
};
use crate::azure::output::{bool_field, field_views, no_fields, push_bool, Field, FieldView};
use crate::azure::sentinel::{
    incident_sub_resource_url_of, names_workspace, workspace_of, MalformedTarget, Target,
};
use crate::azure::sentinel::incidents::read_target;
use crate::azure::sentinel::incidents::types::ManualTriggerRequestBody;
use crate::client::auth::ExchangeOutcome;
use crate::error::AuthError;
use crate::http::Method;
use crate::oauth::DeviceFlow;
use crate::text::segments;
use vstd::prelude::*;
use vstd::string::*;

verus! {

pub open spec fn run_playbook_operation() -> Seq<char> {
    "run playbook"@
}

/// Runs a playbook on one incident of a workspace.
#[derive(Debug)]
pub struct RunPlaybookCommand {
    pub client_id: String,
    pub tenant_id: String,
    pub target: Target,
    pub incident_id: String,
    pub logic_apps_resource_id: String,
    pub playbook_tenant_id: Option<String>,
}

/// What the command reports after a playbook was set off.
pub open spec fn triggered_fields() -> Seq<FieldView> {
    Seq::<FieldView>::empty().push(bool_field("triggered"@, true))
}

/// What the command reports by how the call went: that the playbook was set off, or the error.
pub open spec fn reported_as(
    done: Result<(), CommandError>,
    r: Result<Vec<Field>, CommandError>,
) -> bool {
    match done {
        Ok(()) => r matches Ok(fields) && field_views(fields@)
            == triggered_fields(),
        Err(e) => r == Err::<Vec<Field>, CommandError>(e),
    }
}

impl RunPlaybookCommand {
    /// The command for the attributes given. The target is read as
    /// [`Target::parse`] reads it; where that fails, the error names the
    /// attribute and says why.
    pub fn from_attributes(
        client_id: String,
        tenant_id: String,
        target: &str,
        incident_id: String,
        logic_apps_resource_id: String,
        playbook_tenant_id: Option<String>,
    ) -> (r: Result<Self, CommandError>)
        ensures
            r is Ok <==> names_workspace(segments(target@, '/')),
            r matches Ok(command) ==> command.target@ == workspace_of(segments(target@, '/'))
                && command.client_id == client_id && command.tenant_id == tenant_id
                && command.incident_id == incident_id && command.logic_apps_resource_id
                == logic_apps_resource_id && command.playbook_tenant_id == playbook_tenant_id,
            r matches Err(e) ==> e.text() == invalid_attribute_text(
                "target"@,
                MalformedTarget::text(),
            ),
    {
        match read_target(target) {
            Ok(target) => Ok(
                Self {
                    client_id,
                    tenant_id,
                    target,
                    incident_id,
                    logic_apps_resource_id,
                    playbook_tenant_id,
                },
            ),
            Err(e) => Err(e),
        }
    }

    /// The URL at which the playbook is set off.
    pub open spec fn url_of(&self) -> Seq<char> {
        incident_sub_resource_url_of(self.target@, self.incident_id@, "runPlaybook"@)
    }

    /// The body of the call: the playbook, and its tenant where one is named.
    pub open spec fn body_of(&self) -> ManualTriggerRequestBody {
        ManualTriggerRequestBody {
            logic_apps_resource_id: Some(self.logic_apps_resource_id),
            tenant_id: self.playbook_tenant_id,
        }
    }

    /// The body of the call.
    pub fn request_body(&self) -> (body: ManualTriggerRequestBody)
        ensures
            body == self.body_of(),
    {
        ManualTriggerRequestBody {
            logic_apps_resource_id: Some(self.logic_apps_resource_id.clone()),
            tenant_id: match &self.playbook_tenant_id {
                Some(id) => Some(id.clone()),
                None => None,
            },
        }
    }

    /// The call that the command makes with a token.
    pub fn call(&self, token: &str) -> (call: ManagementCall<ManualTriggerRequestBody>)
        ensures
            call@ == call_with(Method::Post, self.url_of(), true, Some(self.body_of()), token@),
    {
        ManagementCall::new(Method::Post, self.target.incident_sub_resource_url(self.incident_id.as_str(), "runPlaybook"), token, true, Some(self.request_body()))
    }

    /// Runs the command: gets the token, posts the body, and reports that
    /// the playbook was set off. Of the response only the status counts.
    pub fn execute<
        E: FnOnce(DeviceFlow) -> Result<Session, AuthError>,
        X: FnOnce(String) -> ExchangeOutcome,
        F: FnOnce(ManagementCall<ManualTriggerRequestBody>) -> StatusReply,
    >(
        &self,
        http_present: bool,
        store: &mut Option<SessionStore>,
        now: u64,
        establish: E,
        exchange: X,
        send: F,
    ) -> (r: Result<Vec<Field>, CommandError>)
        requires
            token_can_be_got(
                http_present,
                *old(store),
                self.client_id@,
                self.tenant_id@,
                TokenAudience::AzureManagement,
                now,
                establish,
                exchange,
            ),
            call_can_be_sent(
                http_present,
                *old(store),
                self.client_id@,
                self.tenant_id@,
                TokenAudience::AzureManagement,
                |token: Seq<char>|
                    call_with(Method::Post, self.url_of(), true, Some(self.body_of()), token),
                now,
                establish,
                exchange,
                send,
            ),
        ensures
            exists|done: Result<(), CommandError>|
                #![trigger reported_as(done, r)]
                {
                    &&& status_command_run(
                        http_present,
                        *old(store),
                        *final(store),
                        self.client_id@,
                        self.tenant_id@,
                        |token: Seq<char>|
                            call_with(
                                Method::Post,
                                self.url_of(),
                                true,
                                Some(self.body_of()),
                                token,
                            ),
                        run_playbook_operation(),
                        done,
                        now,
                        establish,
                        exchange,
                        send,
                    )
                    &&& reported_as(done, r)
                },
    {
        let url = self.target.incident_sub_resource_url(self.incident_id.as_str(), "runPlaybook");
        let done = run_status_command(
            http_present,
            store,
            self.client_id.as_str(),
            self.tenant_id.as_str(),
            Method::Post,
            url,
            true,
            Some(self.request_body()),
            "run playbook",
            now,
            establish,
            exchange,
            send,
        );
        let ghost whole = done;
        let r = match done {
            Ok(()) => {
                let mut fields = no_fields();
                push_bool(&mut fields, "triggered", true);
                Ok(fields)
            },
            Err(e) => Err(e),
        };
        assert(reported_as(whole, r));
        r
    }
}

} // verus!
