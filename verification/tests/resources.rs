//! Requests, actions and records, against a transport that records what it
//! is asked and answers as told.

use mailchimp::codec::{FromJson, ToJson};
use mailchimp::json::Json;
use mailchimp::types::{
    ABTestingOptionsType, AuthorizedAppsType, AutomationCampaignSettingsType,
    AutomationDelayType, AutomationModifier, AutomationTrackingOptionsType,
    AutomationTriggerType, AutomationWorkflowType, CampaignType, CampaignsType,
    CollectionListMembers, EmptyType, LinkType, ListMember, ListNote, RecipientType,
    SocialCardType,
};
use mailchimp::{
    Api, AutomationWorkflowResource, BasicAuth, HeaderSet, HttpReq, MailchimpApi,
    MailchimpErrorType, MailchimpResult, Params, RequestMethod,
};
use std::cell::RefCell;
use std::rc::Rc;

#[derive(Debug, Clone, PartialEq)]
struct Seen {
    method: &'static str,
    url: String,
    headers: Vec<(String, String)>,
    payload: Option<String>,
    user: Option<(String, String)>,
}

type Log = Rc<RefCell<Vec<Seen>>>;

/// Records every request and answers each with the same result.
struct Recorder {
    log: Log,
    answer: MailchimpResult<String>,
}

impl Recorder {
    fn answering(text: &str, log: &Log) -> Self {
        Recorder { log: log.clone(), answer: Ok(text.to_string()) }
    }

    fn failing(title: &str, log: &Log) -> Self {
        let mut e = MailchimpErrorType::default();
        e.title = title.to_string();
        Recorder { log: log.clone(), answer: Err(e) }
    }

    fn record(
        &self,
        method: &'static str,
        url: String,
        headers: HeaderSet,
        payload: Option<String>,
        basic_auth: &Option<BasicAuth>,
    ) -> MailchimpResult<String> {
        self.log.borrow_mut().push(Seen {
            method,
            url,
            headers: headers.entries().clone(),
            payload,
            user: basic_auth.as_ref().map(|a| (a.username.clone(), a.api_token.clone())),
        });
        self.answer.clone()
    }
}

impl HttpReq for Recorder {
    fn get(&self, url: String, headers: HeaderSet, auth: &Option<BasicAuth>) -> MailchimpResult<String> {
        self.record("GET", url, headers, None, auth)
    }

    fn post(
        &self,
        url: String,
        headers: HeaderSet,
        payload: String,
        auth: &Option<BasicAuth>,
    ) -> MailchimpResult<String> {
        self.record("POST", url, headers, Some(payload), auth)
    }

    fn patch(
        &self,
        url: String,
        headers: HeaderSet,
        payload: String,
        auth: &Option<BasicAuth>,
    ) -> MailchimpResult<String> {
        self.record("PATCH", url, headers, Some(payload), auth)
    }

    fn put(
        &self,
        url: String,
        headers: HeaderSet,
        payload: String,
        auth: &Option<BasicAuth>,
    ) -> MailchimpResult<String> {
        self.record("PUT", url, headers, Some(payload), auth)
    }

    fn delete(&self, url: String, headers: HeaderSet, auth: &Option<BasicAuth>) -> MailchimpResult<String> {
        self.record("DELETE", url, headers, None, auth)
    }
}

fn new_log() -> Log {
    Rc::new(RefCell::new(Vec::new()))
}

fn bearer_headers() -> Vec<(String, String)> {
    vec![
        ("content-type".to_string(), "application/json".to_string()),
        ("authorization".to_string(), "Bearer access_token".to_string()),
    ]
}

fn doc(text: &str) -> Json {
    Json::parse(text).unwrap()
}

#[test]
fn the_client_knows_domain_and_version() {
    let log = new_log();
    let api = MailchimpApi::new("us19", "key-us19", Recorder::answering("", &log));
    assert_eq!(api.domain(), "https://us19.api.mailchimp.com/");
    assert_eq!(api.version(), "3.0");
    assert_eq!(api.inner().domain(), "https://us19.api.mailchimp.com/");
    assert!(log.borrow().is_empty());
}

#[test]
fn urls_join_several_parameters_in_order() {
    let log = new_log();
    let api = Api::new("us6", "access_token", Box::new(Recorder::answering("", &log)));
    let mut params = Params::new();
    params.insert("count".to_string(), "10".to_string());
    params.insert("offset".to_string(), "20".to_string());
    params.insert("status".to_string(), "sent".to_string());
    assert_eq!(
        api.build_url("campaigns", &params),
        "https://us6.api.mailchimp.com/3.0/campaigns?count=10&offset=20&status=sent"
    );
    assert_eq!(api.build_url("", &Params::new()), "https://us6.api.mailchimp.com/3.0/");
    assert_eq!(
        api.build_url("lists/a1/members/b2", &Params::new()),
        "https://us6.api.mailchimp.com/3.0/lists/a1/members/b2"
    );
}

#[test]
fn a_key_is_sent_as_a_bearer_token() {
    let log = new_log();
    let api = Api::new("us6", "access_token", Box::new(Recorder::answering("", &log)));
    let headers = api.build_headers();
    assert_eq!(headers.entries().clone(), bearer_headers());
    assert_eq!(headers.value("authorization").as_deref(), Some("Bearer access_token"));
}

#[test]
fn with_basic_authentication_no_bearer_token_is_sent() {
    let log = new_log();
    let api = Api::with_basic_auth("us6", "anyone", "secret", Box::new(Recorder::answering("{}", &log)));
    let headers = api.build_headers();
    assert_eq!(
        headers.entries().clone(),
        vec![("content-type".to_string(), "application/json".to_string())]
    );
    assert_eq!(headers.value("authorization"), None);
    assert!(api.get_edge::<EmptyType>("ping", Params::new()).is_ok());
    let seen = log.borrow();
    assert_eq!(seen[0].user, Some(("anyone".to_string(), "secret".to_string())));
    assert_eq!(seen[0].headers.len(), 1);
}

#[test]
fn a_client_with_basic_authentication_hands_the_credentials_on() {
    let log = new_log();
    let api = MailchimpApi::with_basic_auth("us6", "anyone", "secret", Recorder::answering("", &log));
    assert_eq!(api.domain(), "https://us6.api.mailchimp.com/");
    assert!(api.action(RequestMethod::Post, "ping").is_none());
    let seen = log.borrow();
    assert_eq!(seen[0].user, Some(("anyone".to_string(), "secret".to_string())));
    assert_eq!(
        seen[0].headers,
        vec![("content-type".to_string(), "application/json".to_string())]
    );
}

#[test]
fn a_read_carries_its_payload_in_the_query() {
    let log = new_log();
    let api = MailchimpApi::new("us6", "access_token", Recorder::answering("{}", &log));
    let mut params = Params::new();
    params.insert("fields".to_string(), "id".to_string());
    assert!(api.call::<EmptyType>(RequestMethod::Get, "lists", params.clone()).is_ok());
    assert!(api.get::<EmptyType>("lists", params.clone()).is_ok());
    assert!(api.call::<EmptyType>(RequestMethod::Delete, "lists/1", params.clone()).is_ok());
    assert!(api.delete::<EmptyType>("lists/1", Params::new()).is_ok());
    let seen = log.borrow();
    assert_eq!(
        seen[0],
        Seen {
            method: "GET",
            url: "https://us6.api.mailchimp.com/3.0/lists?fields=id".to_string(),
            headers: bearer_headers(),
            payload: None,
            user: None,
        }
    );
    assert_eq!(seen[1], seen[0]);
    assert_eq!(seen[2].method, "DELETE");
    assert_eq!(seen[2].url, "https://us6.api.mailchimp.com/3.0/lists/1?fields=id");
    assert_eq!(seen[3].url, "https://us6.api.mailchimp.com/3.0/lists/1");
}

#[test]
fn a_write_carries_its_payload_in_the_body() {
    let log = new_log();
    let api = MailchimpApi::new("us6", "access_token", Recorder::answering("", &log));
    let mut params = Params::new();
    params.insert("name".to_string(), "Freddie".to_string());
    assert!(api.call::<EmptyType>(RequestMethod::Post, "lists", params.clone()).is_ok());
    assert!(api.call::<EmptyType>(RequestMethod::Put, "lists/1", params.clone()).is_ok());
    assert!(api.call::<EmptyType>(RequestMethod::Patch, "lists/1", params.clone()).is_ok());
    assert!(api.post::<EmptyType, AutomationTriggerType>("automations", AutomationTriggerType::create("abandonedCart")).is_ok());
    assert!(api.put::<EmptyType, Params>("lists/2", Params::new()).is_ok());
    assert!(api.patch::<EmptyType, Params>("lists/3", Params::new()).is_ok());
    let seen = log.borrow();
    assert_eq!(
        seen[0],
        Seen {
            method: "POST",
            url: "https://us6.api.mailchimp.com/3.0/lists".to_string(),
            headers: bearer_headers(),
            payload: Some("{\"name\":\"Freddie\"}".to_string()),
            user: None,
        }
    );
    assert_eq!(seen[1].method, "PUT");
    assert_eq!(seen[1].url, "https://us6.api.mailchimp.com/3.0/lists/1");
    assert_eq!(seen[1].payload.as_deref(), Some("{\"name\":\"Freddie\"}"));
    assert_eq!(seen[2].method, "PATCH");
    assert_eq!(seen[3].payload.as_deref(), Some("{\"workflow_type\":\"abandonedCart\"}"));
    assert_eq!(seen[4].method, "PUT");
    assert_eq!(seen[4].payload.as_deref(), Some("{}"));
    assert_eq!(seen[5].method, "PATCH");
}

#[test]
fn requests_are_described_before_they_are_sent() {
    let log = new_log();
    let api = Api::new("us6", "access_token", Box::new(Recorder::answering("", &log)));
    let mut params = Params::new();
    params.insert("count".to_string(), "1".to_string());
    let read = api.query_request(RequestMethod::Get, "reports", &params);
    assert_eq!(read.method, RequestMethod::Get);
    assert_eq!(read.url, "https://us6.api.mailchimp.com/3.0/reports?count=1");
    assert_eq!(read.headers.entries().clone(), bearer_headers());
    assert_eq!(read.body, None);
    let write = api.body_request(RequestMethod::Patch, "reports/1", &params);
    assert_eq!(write.method, RequestMethod::Patch);
    assert_eq!(write.url, "https://us6.api.mailchimp.com/3.0/reports/1");
    assert_eq!(write.body.as_deref(), Some("{\"count\":\"1\"}"));
    assert!(log.borrow().is_empty());
    assert_eq!(api.send(write).unwrap(), "");
    assert_eq!(log.borrow()[0].method, "PATCH");
    assert_eq!(log.borrow()[0].payload.as_deref(), Some("{\"count\":\"1\"}"));
}

#[test]
fn an_action_reports_success_as_none() {
    let log = new_log();
    let api = MailchimpApi::new("us6", "access_token", Recorder::answering("", &log));
    assert!(api.action(RequestMethod::Post, "automations/1/actions/pause-all-emails").is_none());
    let api = MailchimpApi::new("us6", "access_token", Recorder::answering("[]", &log));
    let e = api.action(RequestMethod::Post, "x").unwrap();
    assert_eq!(e.title, "");
    assert_eq!(e.status, 0);
}

fn workflow(id: Option<&str>) -> AutomationWorkflowType {
    let mut w = AutomationWorkflowType::default();
    w.id = id.map(|s| s.to_string());
    w.status = Some("sending".to_string());
    w.emails_sent = Some(12);
    w.settings = Some(AutomationCampaignSettingsType::create("Freddie", "freddie@example.com"));
    w
}

#[test]
fn pausing_a_workflow_posts_to_its_action() {
    let log = new_log();
    let api = MailchimpApi::new("us6", "access_token", Recorder::answering("", &log));
    let resource = AutomationWorkflowResource::new(api, workflow(Some("fd9d304eb7")));
    assert!(resource.pause_all_emails().is_none());
    assert!(resource.start_all_emails().is_none());
    let seen = log.borrow();
    assert_eq!(seen[0].method, "POST");
    assert_eq!(
        seen[0].url,
        "https://us6.api.mailchimp.com/3.0/automations/fd9d304eb7/actions/pause-all-emails"
    );
    assert_eq!(seen[0].payload.as_deref(), Some("{}"));
    assert_eq!(
        seen[1].url,
        "https://us6.api.mailchimp.com/3.0/automations/fd9d304eb7/actions/start-all-emails"
    );
}

#[test]
fn a_failed_action_reports_its_error() {
    let log = new_log();
    let api = MailchimpApi::new("us6", "access_token", Recorder::failing("Forbidden", &log));
    let resource = AutomationWorkflowResource::new(api, workflow(Some("a")));
    assert_eq!(resource.pause_all_emails().unwrap().title, "Forbidden");
    assert_eq!(resource.start_all_emails().unwrap().title, "Forbidden");
}

#[test]
fn a_workflow_resource_hands_out_the_workflow() {
    let log = new_log();
    let api = MailchimpApi::new("us6", "access_token", Recorder::answering("", &log));
    let resource = AutomationWorkflowResource::new(api, workflow(Some("w1")));
    assert_eq!(resource.get_id().as_deref(), Some("w1"));
    assert_eq!(resource.get_status().as_deref(), Some("sending"));
    assert_eq!(*resource.get_emails_sent(), Some(12));
    assert_eq!(resource.get_settings().as_ref().unwrap().from_name.as_deref(), Some("Freddie"));
    assert!(resource.get_create_time().is_none());
    assert!(resource.get_start_time().is_none());
    assert!(resource.get_tracking().is_none());
    assert!(resource.get_recipients().is_none());
    assert!(resource.get_trigger_settings().is_none());
    assert!(resource.get_report_summary().is_none());
    assert_eq!(resource.get_base_endpoint(), "automations/w1");
    let log2 = new_log();
    let api = MailchimpApi::new("us6", "access_token", Recorder::answering("", &log2));
    assert_eq!(
        AutomationWorkflowResource::new(api, workflow(None)).get_base_endpoint(),
        "automations/"
    );
}

#[test]
fn a_member_deletes_itself_at_its_endpoint() {
    let log = new_log();
    let api = MailchimpApi::new("us6", "access_token", Recorder::answering("", &log));
    let mut member = ListMember::default();
    assert_eq!(member.get_base_endpoint(), "");
    member.id = "abc".to_string();
    member.set_api(&api);
    member.set_endpoint("lists/L1/members/abc");
    assert_eq!(member.get_base_endpoint(), "lists/L1/members/abc");
    assert_eq!(member.id, "abc");
    assert_eq!(
        member.permanent_delete_endpoint(),
        "lists/L1/members/abc/actions/delete-permanent"
    );
    assert!(member.delete().is_none());
    assert!(member.permanently_delete().is_none());
    let seen = log.borrow().clone();
    assert_eq!(seen[0].method, "DELETE");
    assert_eq!(seen[0].url, "https://us6.api.mailchimp.com/3.0/lists/L1/members/abc");
    assert_eq!(seen[0].payload, None);
    assert_eq!(seen[1].method, "POST");
    assert_eq!(
        seen[1].url,
        "https://us6.api.mailchimp.com/3.0/lists/L1/members/abc/actions/delete-permanent"
    );
    assert_eq!(seen[1].payload.as_deref(), Some("{}"));
    let failing = MailchimpApi::new("us6", "access_token", Recorder::failing("Gone", &log));
    member.set_api(&failing);
    assert_eq!(member.delete().unwrap().title, "Gone");
    assert_eq!(member.permanently_delete().unwrap().title, "Gone");
}

#[test]
fn a_member_without_client_reports_the_fallback_error() {
    let mut member = ListMember::<Recorder>::default();
    member.set_endpoint("lists/L1/members/abc");
    let e = member.delete().unwrap();
    assert!(e.title.is_empty() && e.status == 0 && e.detail.is_empty());
    let e = member.permanently_delete().unwrap();
    assert!(e.title.is_empty() && e.status == 0 && e.detail.is_empty());
    let decoded = ListMember::<Recorder>::from_json(&doc("{\"id\":\"x\"}")).unwrap();
    assert!(decoded._api.is_none());
    assert_eq!(decoded.get_base_endpoint(), "");
}

#[test]
fn a_campaign_keeps_the_client_it_is_given() {
    let log = new_log();
    let api = MailchimpApi::new("us6", "access_token", Recorder::answering("", &log));
    let mut campaign =
        CampaignType::from_json(&doc("{\"id\":\"42694e9e57\",\"type\":\"regular\"}")).unwrap();
    assert!(campaign._api.is_none());
    campaign.set_api(&api);
    assert!(std::ptr::eq(campaign._api.unwrap(), &api));
    assert_eq!(campaign.id.as_deref(), Some("42694e9e57"));
    assert_eq!(campaign.campaign_type.as_deref(), Some("regular"));
}

#[test]
fn the_creation_helpers_set_what_they_are_given() {
    let r = RecipientType::create("list-1", "store-9");
    assert_eq!(r.list_id.as_deref(), Some("list-1"));
    assert_eq!(r.store_id.as_deref(), Some("store-9"));
    assert!(r.list_is_active.is_none() && r.list_name.is_none() && r.segment_text.is_none());
    assert!(r.recipient_count.is_none() && r.segment_opts.is_none());
    let t = AutomationTriggerType::create("abandonedCart");
    assert_eq!(t.workflow_type.as_deref(), Some("abandonedCart"));
    let c = AutomationCampaignSettingsType::create("Freddie", "f@example.com");
    assert_eq!(c.from_name.as_deref(), Some("Freddie"));
    assert_eq!(c.reply_to.as_deref(), Some("f@example.com"));
    assert!(c.title.is_none() && c.subject_line.is_none() && c.auto_fb_post.is_none());
    let u = AutomationCampaignSettingsType::update("Jokes", "Freddie", "f@example.com");
    assert_eq!(u.title.as_deref(), Some("Jokes"));
    assert_eq!(u.from_name.as_deref(), Some("Freddie"));
    assert_eq!(u.reply_to.as_deref(), Some("f@example.com"));
    assert!(u.template_id.is_none() && u.drag_and_drop.is_none());
}

#[test]
fn defaults_are_as_documented() {
    let d = AutomationDelayType::default();
    assert_eq!(d.amount, Some(0));
    assert_eq!(d.delay_type.as_deref(), Some(""));
    assert_eq!(d.direction.as_deref(), Some(""));
    assert_eq!(d.action.as_deref(), Some(""));
    let t = AutomationTrackingOptionsType::default();
    assert!(t.opens && t.html_clicks && t.text_clicks);
    assert!(!t.goal_tracking && !t.ecomm360);
    assert_eq!(t.google_analytics, "");
    assert!(!t.salesforce.campaign && !t.salesforce.notes && !t.capsule.notes);
    assert!(RecipientType::default().list_id.is_none());
    assert!(AutomationTriggerType::default().workflow_type.is_none());
    assert!(AutomationCampaignSettingsType::default().from_name.is_none());
    assert!(ABTestingOptionsType::default().split_test.is_none());
    assert!(SocialCardType::default().title.is_none());
    assert!(CampaignType::<Recorder>::default().id.is_none());
    let c = CampaignsType::<Recorder>::default();
    assert!(c.campaigns.is_empty() && c.total_items == 0 && c._links.is_empty());
    let n = ListNote::default();
    assert!(n.note_id == 0 && n.created_at.is_empty() && n.note.is_empty());
    let m = CollectionListMembers::<Recorder>::default();
    assert!(m.members.is_empty() && m.list_id.is_empty() && m.total_items == 0);
    assert_eq!(LinkType::default().rel, "");
}

#[test]
fn a_member_left_out_of_a_document_takes_the_value_for_absent_members() {
    let t = AutomationTrackingOptionsType::from_json(&doc("{\"opens\":true}")).unwrap();
    assert!(t.opens);
    assert!(!t.html_clicks);
    assert!(!t.salesforce.campaign);
    let d = AutomationDelayType::from_json(&doc("{}")).unwrap();
    assert!(d.amount.is_none() && d.delay_type.is_none());
    let w = AutomationWorkflowType::from_json(&doc("{\"id\":null,\"settings\":null}")).unwrap();
    assert!(w.id.is_none() && w.settings.is_none());
}

#[test]
fn a_member_of_the_wrong_kind_makes_a_document_undecodable() {
    assert!(AutomationTrackingOptionsType::from_json(&doc("{\"opens\":\"yes\"}")).is_none());
    assert!(AutomationTrackingOptionsType::from_json(&doc("{\"opens\":null}")).is_none());
    assert!(AutomationWorkflowType::from_json(&doc("{\"emails_sent\":-1}")).is_none());
    assert!(AutomationWorkflowType::from_json(&doc("{\"settings\":{\"title\":1}}")).is_none());
    assert!(AutomationWorkflowType::from_json(&doc("[]")).is_none());
    assert!(AuthorizedAppsType::from_json(&doc("{\"apps\":[{\"id\":\"x\"}]}")).is_none());
    assert!(AuthorizedAppsType::from_json(&doc("{\"apps\":{}}")).is_none());
    assert!(CampaignsType::<Recorder>::from_json(&doc("{\"total_items\":4294967296}")).is_none());
    assert!(EmptyType::from_json(&doc("null")).is_none());
}

#[test]
fn records_are_written_with_their_members() {
    assert_eq!(
        RecipientType::create("l", "s").to_json().print(),
        "{\"list_id\":\"l\",\"store_id\":\"s\"}"
    );
    assert_eq!(
        AutomationDelayType::default().to_json().print(),
        "{\"action\":\"\",\"amount\":0,\"direction\":\"\",\"type\":\"\"}"
    );
    assert_eq!(
        SocialCardType::default().to_json().print(),
        "{\"description\":null,\"image_url\":null,\"title\":null}"
    );
    assert_eq!(EmptyType::default().to_json().print(), "{}");
    let change = AutomationModifier {
        settings: Some(AutomationCampaignSettingsType::update("T", "F", "r@example.com")),
        delay: None,
        recipients: Some(RecipientType::create("l", "s")),
        trigger_settings: Some(AutomationTriggerType::create("abandonedCart")),
    };
    assert_eq!(
        change.to_json().print(),
        "{\"delay\":null,\"recipients\":{\"list_id\":\"l\",\"store_id\":\"s\"},\"settings\":{\"from_name\":\"F\",\"reply_to\":\"r@example.com\",\"title\":\"T\"},\"trigger_settings\":{\"workflow_type\":\"abandonedCart\"}}"
    );
    assert_eq!(
        LinkType::from_json(&doc("{\"rel\":\"self\",\"targetSchema\":\"t\"}")).unwrap().to_json().print(),
        "{\"href\":\"\",\"method\":\"\",\"rel\":\"self\",\"schema\":\"\",\"targetSchema\":\"t\"}"
    );
}

#[test]
fn a_page_written_again_keeps_its_items_and_its_total() {
    let text = "{\"apps\":[{\"id\":1,\"name\":\"a\",\"users\":[\"u\"]},{\"id\":2},{\"id\":3,\"description\":\"d\"}],\"total_items\":17}";
    let page = AuthorizedAppsType::from_json(&doc(text)).unwrap();
    assert_eq!(page.apps.len(), 3);
    assert_eq!(page.total_items, 17);
    let written = page.to_json().print();
    let again = AuthorizedAppsType::from_json(&doc(&written)).unwrap();
    assert_eq!(again.apps.len(), 3);
    assert_eq!(again.total_items, 17);
    let ids: Vec<u64> = again.apps.iter().map(|a| a.id).collect();
    assert_eq!(ids, vec![1, 2, 3]);
    assert_eq!(again.apps[0].users, vec!["u".to_string()]);
    let tree = doc(&written);
    assert_eq!(tree.member("apps").unwrap().element_count(), Some(3));
    assert_eq!(tree.member("total_items").unwrap().unsigned(), Some(17));
}

#[test]
fn a_page_of_members_written_again_keeps_its_items_and_its_total() {
    let text = "{\"members\":[{\"id\":\"a\",\"stats\":{\"avg_open_rate\":0.5}},{\"id\":\"b\",\"merge_fields\":{\"FNAME\":\"B\"}}],\"list_id\":\"L\",\"total_items\":2}";
    let page = CollectionListMembers::<Recorder>::from_json(&doc(text)).unwrap();
    let again =
        CollectionListMembers::<Recorder>::from_json(&doc(&page.to_json().print())).unwrap();
    assert_eq!(again.members.len(), 2);
    assert_eq!(again.total_items, 2);
    assert_eq!(again.list_id, "L");
    assert_eq!(again.members[0].stats.avg_open_rate.text(), "0.5");
    assert_eq!(again.members[1].merge_fields.value("FNAME").as_deref(), Some("B"));
}
