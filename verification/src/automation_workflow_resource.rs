//! An automation workflow together with the client that reached it, so that
//! the workflow's own actions need nothing more from the caller.

use crate::api::{is_action_outcome, MailchimpApi, RequestMethod};
use crate::error_type::MailchimpErrorType;
use crate::params::ParamSeq;
use crate::request::{HttpReq, MailchimpResult};
use crate::types::automation_campaign::{
    AutomationCampaignSettingsType, AutomationTrackingOptionsType, AutomationTriggerType,
    AutomationWorkflowType, CampaignReportSummaryType, RecipientType,
};
use vstd::prelude::*;

verus! {

/// The endpoint of the workflow with the identifier `id`; a workflow
/// without identifier has the endpoint of the collection.
pub open spec fn workflow_endpoint(id: Option<String>) -> Seq<char> {
    match id {
        Some(s) => "automations/"@ + s@,
        None => "automations/"@,
    }
}

/// An automation workflow and the client for its account.
pub struct AutomationWorkflowResource<R: HttpReq> {
    api: MailchimpApi<R>,
    automation: AutomationWorkflowType,
}

impl<R: HttpReq> AutomationWorkflowResource<R> {
    /// The workflow.
    pub closed spec fn workflow(&self) -> AutomationWorkflowType {
        self.automation
    }

    /// The client.
    pub closed spec fn client(&self) -> MailchimpApi<R> {
        self.api
    }

    /// The workflow `automation`, reached through `api`.
    pub fn new(api: MailchimpApi<R>, automation: AutomationWorkflowType) -> (r: Self)
        ensures
            r.workflow() == automation,
            r.client() == api,
    {
        AutomationWorkflowResource { api: api, automation: automation }
    }

    /// What became of the mail sent.
    pub fn get_report_summary(&self) -> (r: &Option<CampaignReportSummaryType>)
        ensures
            *r == self.workflow().report_summary,
    {
        &self.automation.report_summary
    }

    /// The settings of the workflow.
    pub fn get_settings(&self) -> (r: &Option<AutomationCampaignSettingsType>)
        ensures
            *r == self.workflow().settings,
    {
        &self.automation.settings
    }

    /// The state the automation is in.
    pub fn get_status(&self) -> (r: &Option<String>)
        ensures
            *r == self.workflow().status,
    {
        &self.automation.status
    }

    /// What is tracked.
    pub fn get_tracking(&self) -> (r: &Option<AutomationTrackingOptionsType>)
        ensures
            *r == self.workflow().tracking,
    {
        &self.automation.tracking
    }

    /// The identifier of the automation.
    pub fn get_id(&self) -> (r: &Option<String>)
        ensures
            *r == self.workflow().id,
    {
        &self.automation.id
    }

    /// When the automation was created, in ISO 8601 format.
    pub fn get_create_time(&self) -> (r: &Option<String>)
        ensures
            *r == self.workflow().create_time,
    {
        &self.automation.create_time
    }

    /// When the automation was started, in ISO 8601 format.
    pub fn get_start_time(&self) -> (r: &Option<String>)
        ensures
            *r == self.workflow().start_time,
    {
        &self.automation.start_time
    }

    /// The number of emails sent.
    pub fn get_emails_sent(&self) -> (r: &Option<u64>)
        ensures
            *r == self.workflow().emails_sent,
    {
        &self.automation.emails_sent
    }

    /// The list that the automation is sent to.
    pub fn get_recipients(&self) -> (r: &Option<RecipientType>)
        ensures
            *r == self.workflow().recipients,
    {
        &self.automation.recipients
    }

    /// What sets the workflow off.
    pub fn get_trigger_settings(&self) -> (r: &Option<AutomationTriggerType>)
        ensures
            *r == self.workflow().trigger_settings,
    {
        &self.automation.trigger_settings
    }

    /// Pauses all emails of the workflow: one `POST`, without parameters, to
    /// the action `pause-all-emails` under the endpoint of the workflow.
    /// `None` reports success; otherwise the error says what went wrong.
    pub fn pause_all_emails(&self) -> (r: Option<MailchimpErrorType>)
        ensures
            exists|reply: MailchimpResult<String>| #[trigger]
                is_action_outcome(reply, r) && self.client().answers_call(
                    RequestMethod::Post,
                    workflow_endpoint(self.workflow().id) + "/actions/pause-all-emails"@,
                    ParamSeq::empty(),
                    reply,
                ),
    {
        let mut b_endpoint = self.get_base_endpoint();
        b_endpoint.append("/actions/pause-all-emails");
        self.api.action(RequestMethod::Post, b_endpoint.as_str())
    }

    /// Starts all emails of the workflow: one `POST`, without parameters, to
    /// the action `start-all-emails` under the endpoint of the workflow.
    /// `None` reports success; otherwise the error says what went wrong.
    pub fn start_all_emails(&self) -> (r: Option<MailchimpErrorType>)
        ensures
            exists|reply: MailchimpResult<String>| #[trigger]
                is_action_outcome(reply, r) && self.client().answers_call(
                    RequestMethod::Post,
                    workflow_endpoint(self.workflow().id) + "/actions/start-all-emails"@,
                    ParamSeq::empty(),
                    reply,
                ),
    {
        let mut b_endpoint = self.get_base_endpoint();
        b_endpoint.append("/actions/start-all-emails");
        self.api.action(RequestMethod::Post, b_endpoint.as_str())
    }

    /// The endpoint of the workflow.
    pub fn get_base_endpoint(&self) -> (r: String)
        ensures
            r@ == workflow_endpoint(self.workflow().id),
    {
        let mut b_endpoint = String::from_str("automations/");
        match &self.automation.id {
            Some(id) => {
                b_endpoint.append(id.as_str());
            },
            None => {},
        }
        b_endpoint
    }
}

/// The workflows of an account.
pub type AutomationWorkflowResources<R> = Vec<AutomationWorkflowResource<R>>;

} // verus!
