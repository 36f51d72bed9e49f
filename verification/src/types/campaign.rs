//! Records of campaigns.

use crate::api::MailchimpApi;
use crate::codec::{field_is, field_ok, FromJson, read, store, store_present, ToJson, with_present};
use crate::decimal::Decimal;
use crate::iter::MailchimpCollection;
use crate::json::{Json, JsonKind, JsonTree};
use crate::request::HttpReq;
use crate::round_trip::{lemma_member_round_trip, lemma_optional_member_round_trip,
    lemma_with_present, RoundTrip, writable_if_present};
use crate::types::automation_campaign::{CampaignReportSummaryType, CampaignSettingsType,
    CampaignTrackingOptionsType, RecipientType, SocialCardType};
use crate::types::link::LinkType;
use vstd::prelude::*;

verus! {

/// How far the sending of a campaign has come.
#[derive(Debug, Clone)]
pub struct CampaignDeliveryStatusType {
    /// Whether delivery status is kept for this account and campaign.
    pub enabled: Option<bool>,
    /// Whether the sending can still be cancelled.
    pub can_cancel: Option<bool>,
    /// The state of the delivery.
    pub status: Option<String>,
    /// The number of emails confirmed sent so far.
    pub emails_sent: Option<u64>,
    /// The number of emails cancelled.
    pub emails_canceled: Option<u64>,
}

impl CampaignDeliveryStatusType {
    /// Whether this is the default status.
    pub open spec fn is_default(&self) -> bool {
        &&& self.enabled is None
        &&& self.can_cancel is None
        &&& self.status is None
        &&& self.emails_sent is None
        &&& self.emails_canceled is None
    }
}

impl Default for CampaignDeliveryStatusType {
    fn default() -> (r: Self)
        ensures
            r.is_default(),
    {
        CampaignDeliveryStatusType {
            enabled: None,
            can_cancel: None,
            status: None,
            emails_sent: None,
            emails_canceled: None,
        }
    }
}

impl FromJson for CampaignDeliveryStatusType {
    /// An object; every member may be absent.
    open spec fn decodable(tree: JsonTree) -> bool {
        &&& tree is Object
        &&& field_ok::<Option<bool>>(tree, "enabled"@)
        &&& field_ok::<Option<bool>>(tree, "can_cancel"@)
        &&& field_ok::<Option<String>>(tree, "status"@)
        &&& field_ok::<Option<u64>>(tree, "emails_sent"@)
        &&& field_ok::<Option<u64>>(tree, "emails_canceled"@)
    }

    open spec fn decodes_to(tree: JsonTree, value: Self) -> bool {
        &&& field_is::<Option<bool>>(tree, "enabled"@, value.enabled)
        &&& field_is::<Option<bool>>(tree, "can_cancel"@, value.can_cancel)
        &&& field_is::<Option<String>>(tree, "status"@, value.status)
        &&& field_is::<Option<u64>>(tree, "emails_sent"@, value.emails_sent)
        &&& field_is::<Option<u64>>(tree, "emails_canceled"@, value.emails_canceled)
    }

    open spec fn is_absent(value: Self) -> bool {
        value.is_default()
    }

    fn from_json(json: &Json) -> (r: Option<Self>) {
        if json.kind() != JsonKind::Object {
            return None;
        }
        let enabled = read::<Option<bool>>(json, "enabled")?;
        let can_cancel = read::<Option<bool>>(json, "can_cancel")?;
        let status = read::<Option<String>>(json, "status")?;
        let emails_sent = read::<Option<u64>>(json, "emails_sent")?;
        let emails_canceled = read::<Option<u64>>(json, "emails_canceled")?;
        Some(
            CampaignDeliveryStatusType {
                enabled,
                can_cancel,
                status,
                emails_sent,
                emails_canceled,
            },
        )
    }

    fn absent() -> (r: Self) {
        CampaignDeliveryStatusType::default()
    }
}

impl ToJson for CampaignDeliveryStatusType {
    open spec fn encoding(&self) -> JsonTree {
        let m = Map::<Seq<char>, JsonTree>::empty();
        let m = with_present(m, "enabled"@, self.enabled);
        let m = with_present(m, "can_cancel"@, self.can_cancel);
        let m = with_present(m, "status"@, self.status);
        let m = with_present(m, "emails_sent"@, self.emails_sent);
        let m = with_present(m, "emails_canceled"@, self.emails_canceled);
        JsonTree::Object(m)
    }

    fn to_json(&self) -> (r: Json) {
        let mut json = Json::empty_object();
        store_present(&mut json, "enabled", &self.enabled);
        store_present(&mut json, "can_cancel", &self.can_cancel);
        store_present(&mut json, "status", &self.status);
        store_present(&mut json, "emails_sent", &self.emails_sent);
        store_present(&mut json, "emails_canceled", &self.emails_canceled);
        json
    }
}

impl RoundTrip for CampaignDeliveryStatusType {
    open spec fn writable(&self) -> bool {
        true
    }

    proof fn lemma_round_trip(&self) {
        reveal_strlit("enabled");
        reveal_strlit("can_cancel");
        reveal_strlit("status");
        reveal_strlit("emails_sent");
        reveal_strlit("emails_canceled");
        assert("enabled"@.len() == 7);
        assert("can_cancel"@.len() == 10);
        assert("status"@.len() == 6);
        assert("emails_sent"@.len() == 11);
        assert("emails_canceled"@.len() == 15);
        let m0 = Map::<Seq<char>, JsonTree>::empty();
        let m1 = with_present(m0, "enabled"@, self.enabled);
        lemma_with_present(m0, "enabled"@, self.enabled);
        let m2 = with_present(m1, "can_cancel"@, self.can_cancel);
        lemma_with_present(m1, "can_cancel"@, self.can_cancel);
        let m3 = with_present(m2, "status"@, self.status);
        lemma_with_present(m2, "status"@, self.status);
        let m4 = with_present(m3, "emails_sent"@, self.emails_sent);
        lemma_with_present(m3, "emails_sent"@, self.emails_sent);
        let m5 = with_present(m4, "emails_canceled"@, self.emails_canceled);
        lemma_with_present(m4, "emails_canceled"@, self.emails_canceled);
        let members = m5;
        assert(self.encoding() == JsonTree::Object(members));
        lemma_optional_member_round_trip(members, "enabled"@, self.enabled);
        lemma_optional_member_round_trip(members, "can_cancel"@, self.can_cancel);
        lemma_optional_member_round_trip(members, "status"@, self.status);
        lemma_optional_member_round_trip(members, "emails_sent"@, self.emails_sent);
        lemma_optional_member_round_trip(members, "emails_canceled"@, self.emails_canceled);
    }
}

/// The options of an A/B split campaign.
#[derive(Debug, Clone)]
pub struct ABTestingOptionsType {
    /// What the two groups differ in.
    pub split_test: Option<String>,
    /// How the winner is found: by opens, by clicks or by hand.
    pub pick_winner: Option<String>,
    /// The unit of the waiting time: hours or days.
    pub wait_units: Option<String>,
    /// How long to wait before the winner is picked.
    pub wait_time: Option<u64>,
    /// The size of the groups, from 1 to 50.
    pub split_size: Option<u64>,
    /// The sender's name for group A.
    pub from_name_a: Option<String>,
    /// The sender's name for group B.
    pub from_name_b: Option<String>,
    /// The reply address for group A.
    pub reply_email_a: Option<String>,
    /// The reply address for group B.
    pub reply_email_b: Option<String>,
    /// The subject line for group A.
    pub subject_a: Option<String>,
    /// The subject line for group B.
    pub subject_b: Option<String>,
    /// When group A is sent.
    pub send_time_a: Option<String>,
    /// When group B is sent.
    pub send_time_b: Option<String>,
    /// When the winning version is sent.
    pub send_time_winner: Option<String>,
}

impl ABTestingOptionsType {
    /// Whether this is the default set of options.
    pub open spec fn is_default(&self) -> bool {
        &&& self.split_test is None
        &&& self.pick_winner is None
        &&& self.wait_units is None
        &&& self.wait_time is None
        &&& self.split_size is None
        &&& self.from_name_a is None
        &&& self.from_name_b is None
        &&& self.reply_email_a is None
        &&& self.reply_email_b is None
        &&& self.subject_a is None
        &&& self.subject_b is None
        &&& self.send_time_a is None
        &&& self.send_time_b is None
        &&& self.send_time_winner is None
    }
}

impl Default for ABTestingOptionsType {
    fn default() -> (r: Self)
        ensures
            r.is_default(),
    {
        ABTestingOptionsType {
            split_test: None,
            pick_winner: None,
            wait_units: None,
            wait_time: None,
            split_size: None,
            from_name_a: None,
            from_name_b: None,
            reply_email_a: None,
            reply_email_b: None,
            subject_a: None,
            subject_b: None,
            send_time_a: None,
            send_time_b: None,
            send_time_winner: None,
        }
    }
}

impl FromJson for ABTestingOptionsType {
    /// An object; every member may be absent.
    open spec fn decodable(tree: JsonTree) -> bool {
        &&& tree is Object
        &&& field_ok::<Option<String>>(tree, "split_test"@)
        &&& field_ok::<Option<String>>(tree, "pick_winner"@)
        &&& field_ok::<Option<String>>(tree, "wait_units"@)
        &&& field_ok::<Option<u64>>(tree, "wait_time"@)
        &&& field_ok::<Option<u64>>(tree, "split_size"@)
        &&& field_ok::<Option<String>>(tree, "from_name_a"@)
        &&& field_ok::<Option<String>>(tree, "from_name_b"@)
        &&& field_ok::<Option<String>>(tree, "reply_email_a"@)
        &&& field_ok::<Option<String>>(tree, "reply_email_b"@)
        &&& field_ok::<Option<String>>(tree, "subject_a"@)
        &&& field_ok::<Option<String>>(tree, "subject_b"@)
        &&& field_ok::<Option<String>>(tree, "send_time_a"@)
        &&& field_ok::<Option<String>>(tree, "send_time_b"@)
        &&& field_ok::<Option<String>>(tree, "send_time_winner"@)
    }

    open spec fn decodes_to(tree: JsonTree, value: Self) -> bool {
        &&& field_is::<Option<String>>(tree, "split_test"@, value.split_test)
        &&& field_is::<Option<String>>(tree, "pick_winner"@, value.pick_winner)
        &&& field_is::<Option<String>>(tree, "wait_units"@, value.wait_units)
        &&& field_is::<Option<u64>>(tree, "wait_time"@, value.wait_time)
        &&& field_is::<Option<u64>>(tree, "split_size"@, value.split_size)
        &&& field_is::<Option<String>>(tree, "from_name_a"@, value.from_name_a)
        &&& field_is::<Option<String>>(tree, "from_name_b"@, value.from_name_b)
        &&& field_is::<Option<String>>(tree, "reply_email_a"@, value.reply_email_a)
        &&& field_is::<Option<String>>(tree, "reply_email_b"@, value.reply_email_b)
        &&& field_is::<Option<String>>(tree, "subject_a"@, value.subject_a)
        &&& field_is::<Option<String>>(tree, "subject_b"@, value.subject_b)
        &&& field_is::<Option<String>>(tree, "send_time_a"@, value.send_time_a)
        &&& field_is::<Option<String>>(tree, "send_time_b"@, value.send_time_b)
        &&& field_is::<Option<String>>(tree, "send_time_winner"@, value.send_time_winner)
    }

    open spec fn is_absent(value: Self) -> bool {
        value.is_default()
    }

    #[verifier::rlimit(40)]
    fn from_json(json: &Json) -> (r: Option<Self>) {
        if json.kind() != JsonKind::Object {
            return None;
        }
        let split_test = read::<Option<String>>(json, "split_test")?;
        let pick_winner = read::<Option<String>>(json, "pick_winner")?;
        let wait_units = read::<Option<String>>(json, "wait_units")?;
        let wait_time = read::<Option<u64>>(json, "wait_time")?;
        let split_size = read::<Option<u64>>(json, "split_size")?;
        let from_name_a = read::<Option<String>>(json, "from_name_a")?;
        let from_name_b = read::<Option<String>>(json, "from_name_b")?;
        let reply_email_a = read::<Option<String>>(json, "reply_email_a")?;
        let reply_email_b = read::<Option<String>>(json, "reply_email_b")?;
        let subject_a = read::<Option<String>>(json, "subject_a")?;
        let subject_b = read::<Option<String>>(json, "subject_b")?;
        let send_time_a = read::<Option<String>>(json, "send_time_a")?;
        let send_time_b = read::<Option<String>>(json, "send_time_b")?;
        let send_time_winner = read::<Option<String>>(json, "send_time_winner")?;
        Some(
            ABTestingOptionsType {
                split_test,
                pick_winner,
                wait_units,
                wait_time,
                split_size,
                from_name_a,
                from_name_b,
                reply_email_a,
                reply_email_b,
                subject_a,
                subject_b,
                send_time_a,
                send_time_b,
                send_time_winner,
            },
        )
    }

    fn absent() -> (r: Self) {
        ABTestingOptionsType::default()
    }
}

impl ToJson for ABTestingOptionsType {
    open spec fn encoding(&self) -> JsonTree {
        let m = Map::<Seq<char>, JsonTree>::empty();
        let m = with_present(m, "split_test"@, self.split_test);
        let m = with_present(m, "pick_winner"@, self.pick_winner);
        let m = with_present(m, "wait_units"@, self.wait_units);
        let m = with_present(m, "wait_time"@, self.wait_time);
        let m = with_present(m, "split_size"@, self.split_size);
        let m = with_present(m, "from_name_a"@, self.from_name_a);
        let m = with_present(m, "from_name_b"@, self.from_name_b);
        let m = with_present(m, "reply_email_a"@, self.reply_email_a);
        let m = with_present(m, "reply_email_b"@, self.reply_email_b);
        let m = with_present(m, "subject_a"@, self.subject_a);
        let m = with_present(m, "subject_b"@, self.subject_b);
        let m = with_present(m, "send_time_a"@, self.send_time_a);
        let m = with_present(m, "send_time_b"@, self.send_time_b);
        let m = with_present(m, "send_time_winner"@, self.send_time_winner);
        JsonTree::Object(m)
    }

    #[verifier::rlimit(40)]
    fn to_json(&self) -> (r: Json) {
        let mut json = Json::empty_object();
        store_present(&mut json, "split_test", &self.split_test);
        store_present(&mut json, "pick_winner", &self.pick_winner);
        store_present(&mut json, "wait_units", &self.wait_units);
        store_present(&mut json, "wait_time", &self.wait_time);
        store_present(&mut json, "split_size", &self.split_size);
        store_present(&mut json, "from_name_a", &self.from_name_a);
        store_present(&mut json, "from_name_b", &self.from_name_b);
        store_present(&mut json, "reply_email_a", &self.reply_email_a);
        store_present(&mut json, "reply_email_b", &self.reply_email_b);
        store_present(&mut json, "subject_a", &self.subject_a);
        store_present(&mut json, "subject_b", &self.subject_b);
        store_present(&mut json, "send_time_a", &self.send_time_a);
        store_present(&mut json, "send_time_b", &self.send_time_b);
        store_present(&mut json, "send_time_winner", &self.send_time_winner);
        json
    }
}

impl RoundTrip for ABTestingOptionsType {
    open spec fn writable(&self) -> bool {
        true
    }

    #[verifier::rlimit(40)]
    proof fn lemma_round_trip(&self) {
        reveal_strlit("split_test");
        reveal_strlit("pick_winner");
        reveal_strlit("wait_units");
        reveal_strlit("wait_time");
        reveal_strlit("split_size");
        reveal_strlit("from_name_a");
        reveal_strlit("from_name_b");
        reveal_strlit("reply_email_a");
        reveal_strlit("reply_email_b");
        reveal_strlit("subject_a");
        reveal_strlit("subject_b");
        reveal_strlit("send_time_a");
        reveal_strlit("send_time_b");
        reveal_strlit("send_time_winner");
        assert("split_test"@.len() == 10);
        assert("pick_winner"@.len() == 11);
        assert("wait_units"@.len() == 10);
        assert("wait_time"@.len() == 9);
        assert("split_size"@.len() == 10);
        assert("from_name_a"@.len() == 11);
        assert("from_name_b"@.len() == 11);
        assert("reply_email_a"@.len() == 13);
        assert("reply_email_b"@.len() == 13);
        assert("subject_a"@.len() == 9);
        assert("subject_b"@.len() == 9);
        assert("send_time_a"@.len() == 11);
        assert("send_time_b"@.len() == 11);
        assert("send_time_winner"@.len() == 16);
        assert("split_test"@[0] != "wait_units"@[0]);
        assert("split_test"@[6] != "split_size"@[6]);
        assert("pick_winner"@[0] != "from_name_a"@[0]);
        assert("pick_winner"@[0] != "from_name_b"@[0]);
        assert("pick_winner"@[0] != "send_time_a"@[0]);
        assert("pick_winner"@[0] != "send_time_b"@[0]);
        assert("wait_units"@[0] != "split_size"@[0]);
        assert("wait_time"@[0] != "subject_a"@[0]);
        assert("wait_time"@[0] != "subject_b"@[0]);
        assert("from_name_a"@[10] != "from_name_b"@[10]);
        assert("from_name_a"@[0] != "send_time_a"@[0]);
        assert("from_name_a"@[0] != "send_time_b"@[0]);
        assert("from_name_b"@[0] != "send_time_a"@[0]);
        assert("from_name_b"@[0] != "send_time_b"@[0]);
        assert("reply_email_a"@[12] != "reply_email_b"@[12]);
        assert("subject_a"@[8] != "subject_b"@[8]);
        assert("send_time_a"@[10] != "send_time_b"@[10]);
        let m0 = Map::<Seq<char>, JsonTree>::empty();
        let m1 = with_present(m0, "split_test"@, self.split_test);
        lemma_with_present(m0, "split_test"@, self.split_test);
        let m2 = with_present(m1, "pick_winner"@, self.pick_winner);
        lemma_with_present(m1, "pick_winner"@, self.pick_winner);
        let m3 = with_present(m2, "wait_units"@, self.wait_units);
        lemma_with_present(m2, "wait_units"@, self.wait_units);
        let m4 = with_present(m3, "wait_time"@, self.wait_time);
        lemma_with_present(m3, "wait_time"@, self.wait_time);
        let m5 = with_present(m4, "split_size"@, self.split_size);
        lemma_with_present(m4, "split_size"@, self.split_size);
        let m6 = with_present(m5, "from_name_a"@, self.from_name_a);
        lemma_with_present(m5, "from_name_a"@, self.from_name_a);
        let m7 = with_present(m6, "from_name_b"@, self.from_name_b);
        lemma_with_present(m6, "from_name_b"@, self.from_name_b);
        let m8 = with_present(m7, "reply_email_a"@, self.reply_email_a);
        lemma_with_present(m7, "reply_email_a"@, self.reply_email_a);
        let m9 = with_present(m8, "reply_email_b"@, self.reply_email_b);
        lemma_with_present(m8, "reply_email_b"@, self.reply_email_b);
        let m10 = with_present(m9, "subject_a"@, self.subject_a);
        lemma_with_present(m9, "subject_a"@, self.subject_a);
        let m11 = with_present(m10, "subject_b"@, self.subject_b);
        lemma_with_present(m10, "subject_b"@, self.subject_b);
        let m12 = with_present(m11, "send_time_a"@, self.send_time_a);
        lemma_with_present(m11, "send_time_a"@, self.send_time_a);
        let m13 = with_present(m12, "send_time_b"@, self.send_time_b);
        lemma_with_present(m12, "send_time_b"@, self.send_time_b);
        let m14 = with_present(m13, "send_time_winner"@, self.send_time_winner);
        lemma_with_present(m13, "send_time_winner"@, self.send_time_winner);
        let members = m14;
        assert(self.encoding() == JsonTree::Object(members));
        lemma_optional_member_round_trip(members, "split_test"@, self.split_test);
        lemma_optional_member_round_trip(members, "pick_winner"@, self.pick_winner);
        lemma_optional_member_round_trip(members, "wait_units"@, self.wait_units);
        lemma_optional_member_round_trip(members, "wait_time"@, self.wait_time);
        lemma_optional_member_round_trip(members, "split_size"@, self.split_size);
        lemma_optional_member_round_trip(members, "from_name_a"@, self.from_name_a);
        lemma_optional_member_round_trip(members, "from_name_b"@, self.from_name_b);
        lemma_optional_member_round_trip(members, "reply_email_a"@, self.reply_email_a);
        lemma_optional_member_round_trip(members, "reply_email_b"@, self.reply_email_b);
        lemma_optional_member_round_trip(members, "subject_a"@, self.subject_a);
        lemma_optional_member_round_trip(members, "subject_b"@, self.subject_b);
        lemma_optional_member_round_trip(members, "send_time_a"@, self.send_time_a);
        lemma_optional_member_round_trip(members, "send_time_b"@, self.send_time_b);
        lemma_optional_member_round_trip(members, "send_time_winner"@, self.send_time_winner);
    }
}

/// The days of the week on which a daily RSS campaign is sent.
#[derive(Debug, Clone)]
pub struct DailySendingDaysType {
    /// Whether it is sent on Sundays.
    pub sunday: Option<bool>,
    /// Whether it is sent on Mondays.
    pub monday: Option<bool>,
    /// Whether it is sent on Tuesdays.
    pub tuesday: Option<bool>,
    /// Whether it is sent on Wednesdays.
    pub wednesday: Option<bool>,
    /// Whether it is sent on Thursdays.
    pub thursday: Option<bool>,
    /// Whether it is sent on Fridays.
    pub friday: Option<bool>,
    /// Whether it is sent on Saturdays.
    pub saturday: Option<bool>,
}

impl DailySendingDaysType {
    /// Whether this is the default choice of days.
    pub open spec fn is_default(&self) -> bool {
        &&& self.sunday is None
        &&& self.monday is None
        &&& self.tuesday is None
        &&& self.wednesday is None
        &&& self.thursday is None
        &&& self.friday is None
        &&& self.saturday is None
    }
}

impl Default for DailySendingDaysType {
    fn default() -> (r: Self)
        ensures
            r.is_default(),
    {
        DailySendingDaysType {
            sunday: None,
            monday: None,
            tuesday: None,
            wednesday: None,
            thursday: None,
            friday: None,
            saturday: None,
        }
    }
}

impl FromJson for DailySendingDaysType {
    /// An object; every member may be absent.
    open spec fn decodable(tree: JsonTree) -> bool {
        &&& tree is Object
        &&& field_ok::<Option<bool>>(tree, "sunday"@)
        &&& field_ok::<Option<bool>>(tree, "monday"@)
        &&& field_ok::<Option<bool>>(tree, "tuesday"@)
        &&& field_ok::<Option<bool>>(tree, "wednesday"@)
        &&& field_ok::<Option<bool>>(tree, "thursday"@)
        &&& field_ok::<Option<bool>>(tree, "friday"@)
        &&& field_ok::<Option<bool>>(tree, "saturday"@)
    }

    open spec fn decodes_to(tree: JsonTree, value: Self) -> bool {
        &&& field_is::<Option<bool>>(tree, "sunday"@, value.sunday)
        &&& field_is::<Option<bool>>(tree, "monday"@, value.monday)
        &&& field_is::<Option<bool>>(tree, "tuesday"@, value.tuesday)
        &&& field_is::<Option<bool>>(tree, "wednesday"@, value.wednesday)
        &&& field_is::<Option<bool>>(tree, "thursday"@, value.thursday)
        &&& field_is::<Option<bool>>(tree, "friday"@, value.friday)
        &&& field_is::<Option<bool>>(tree, "saturday"@, value.saturday)
    }

    open spec fn is_absent(value: Self) -> bool {
        value.is_default()
    }

    fn from_json(json: &Json) -> (r: Option<Self>) {
        if json.kind() != JsonKind::Object {
            return None;
        }
        let sunday = read::<Option<bool>>(json, "sunday")?;
        let monday = read::<Option<bool>>(json, "monday")?;
        let tuesday = read::<Option<bool>>(json, "tuesday")?;
        let wednesday = read::<Option<bool>>(json, "wednesday")?;
        let thursday = read::<Option<bool>>(json, "thursday")?;
        let friday = read::<Option<bool>>(json, "friday")?;
        let saturday = read::<Option<bool>>(json, "saturday")?;
        Some(
            DailySendingDaysType {
                sunday,
                monday,
                tuesday,
                wednesday,
                thursday,
                friday,
                saturday,
            },
        )
    }

    fn absent() -> (r: Self) {
        DailySendingDaysType::default()
    }
}

impl ToJson for DailySendingDaysType {
    open spec fn encoding(&self) -> JsonTree {
        let m = Map::<Seq<char>, JsonTree>::empty();
        let m = with_present(m, "sunday"@, self.sunday);
        let m = with_present(m, "monday"@, self.monday);
        let m = with_present(m, "tuesday"@, self.tuesday);
        let m = with_present(m, "wednesday"@, self.wednesday);
        let m = with_present(m, "thursday"@, self.thursday);
        let m = with_present(m, "friday"@, self.friday);
        let m = with_present(m, "saturday"@, self.saturday);
        JsonTree::Object(m)
    }

    fn to_json(&self) -> (r: Json) {
        let mut json = Json::empty_object();
        store_present(&mut json, "sunday", &self.sunday);
        store_present(&mut json, "monday", &self.monday);
        store_present(&mut json, "tuesday", &self.tuesday);
        store_present(&mut json, "wednesday", &self.wednesday);
        store_present(&mut json, "thursday", &self.thursday);
        store_present(&mut json, "friday", &self.friday);
        store_present(&mut json, "saturday", &self.saturday);
        json
    }
}

impl RoundTrip for DailySendingDaysType {
    open spec fn writable(&self) -> bool {
        true
    }

    proof fn lemma_round_trip(&self) {
        reveal_strlit("sunday");
        reveal_strlit("monday");
        reveal_strlit("tuesday");
        reveal_strlit("wednesday");
        reveal_strlit("thursday");
        reveal_strlit("friday");
        reveal_strlit("saturday");
        assert("sunday"@.len() == 6);
        assert("monday"@.len() == 6);
        assert("tuesday"@.len() == 7);
        assert("wednesday"@.len() == 9);
        assert("thursday"@.len() == 8);
        assert("friday"@.len() == 6);
        assert("saturday"@.len() == 8);
        assert("sunday"@[0] != "monday"@[0]);
        assert("sunday"@[0] != "friday"@[0]);
        assert("monday"@[0] != "friday"@[0]);
        assert("thursday"@[0] != "saturday"@[0]);
        let m0 = Map::<Seq<char>, JsonTree>::empty();
        let m1 = with_present(m0, "sunday"@, self.sunday);
        lemma_with_present(m0, "sunday"@, self.sunday);
        let m2 = with_present(m1, "monday"@, self.monday);
        lemma_with_present(m1, "monday"@, self.monday);
        let m3 = with_present(m2, "tuesday"@, self.tuesday);
        lemma_with_present(m2, "tuesday"@, self.tuesday);
        let m4 = with_present(m3, "wednesday"@, self.wednesday);
        lemma_with_present(m3, "wednesday"@, self.wednesday);
        let m5 = with_present(m4, "thursday"@, self.thursday);
        lemma_with_present(m4, "thursday"@, self.thursday);
        let m6 = with_present(m5, "friday"@, self.friday);
        lemma_with_present(m5, "friday"@, self.friday);
        let m7 = with_present(m6, "saturday"@, self.saturday);
        lemma_with_present(m6, "saturday"@, self.saturday);
        let members = m7;
        assert(self.encoding() == JsonTree::Object(members));
        lemma_optional_member_round_trip(members, "sunday"@, self.sunday);
        lemma_optional_member_round_trip(members, "monday"@, self.monday);
        lemma_optional_member_round_trip(members, "tuesday"@, self.tuesday);
        lemma_optional_member_round_trip(members, "wednesday"@, self.wednesday);
        lemma_optional_member_round_trip(members, "thursday"@, self.thursday);
        lemma_optional_member_round_trip(members, "friday"@, self.friday);
        lemma_optional_member_round_trip(members, "saturday"@, self.saturday);
    }
}

/// When an RSS campaign is sent.
#[derive(Debug, Clone)]
pub struct SendingScheduleType {
    /// The hour of the day, from 0 to 23, in the time zone of the account.
    pub hour: Option<u64>,
    /// The days of a daily campaign.
    pub daily_send: Option<DailySendingDaysType>,
    /// The day of a weekly campaign.
    pub weekly_send_day: Option<String>,
    /// The day of the month of a monthly campaign, from 0 to 31; 0 is the
    /// last day of the month.
    pub monthly_send_date: Option<Decimal>,
}

impl SendingScheduleType {
    /// Whether this is the default schedule.
    pub open spec fn is_default(&self) -> bool {
        &&& self.hour is None
        &&& self.daily_send is None
        &&& self.weekly_send_day is None
        &&& self.monthly_send_date is None
    }
}

impl Default for SendingScheduleType {
    fn default() -> (r: Self)
        ensures
            r.is_default(),
    {
        SendingScheduleType {
            hour: None,
            daily_send: None,
            weekly_send_day: None,
            monthly_send_date: None,
        }
    }
}

impl FromJson for SendingScheduleType {
    /// An object; every member may be absent.
    open spec fn decodable(tree: JsonTree) -> bool {
        &&& tree is Object
        &&& field_ok::<Option<u64>>(tree, "hour"@)
        &&& field_ok::<Option<DailySendingDaysType>>(tree, "daily_send"@)
        &&& field_ok::<Option<String>>(tree, "weekly_send_day"@)
        &&& field_ok::<Option<Decimal>>(tree, "monthly_send_date"@)
    }

    open spec fn decodes_to(tree: JsonTree, value: Self) -> bool {
        &&& field_is::<Option<u64>>(tree, "hour"@, value.hour)
        &&& field_is::<Option<DailySendingDaysType>>(tree, "daily_send"@, value.daily_send)
        &&& field_is::<Option<String>>(tree, "weekly_send_day"@, value.weekly_send_day)
        &&& field_is::<Option<Decimal>>(tree, "monthly_send_date"@, value.monthly_send_date)
    }

    open spec fn is_absent(value: Self) -> bool {
        value.is_default()
    }

    fn from_json(json: &Json) -> (r: Option<Self>) {
        if json.kind() != JsonKind::Object {
            return None;
        }
        let hour = read::<Option<u64>>(json, "hour")?;
        let daily_send = read::<Option<DailySendingDaysType>>(json, "daily_send")?;
        let weekly_send_day = read::<Option<String>>(json, "weekly_send_day")?;
        let monthly_send_date = read::<Option<Decimal>>(json, "monthly_send_date")?;
        Some(
            SendingScheduleType {
                hour,
                daily_send,
                weekly_send_day,
                monthly_send_date,
            },
        )
    }

    fn absent() -> (r: Self) {
        SendingScheduleType::default()
    }
}

impl ToJson for SendingScheduleType {
    open spec fn encoding(&self) -> JsonTree {
        let m = Map::<Seq<char>, JsonTree>::empty();
        let m = with_present(m, "hour"@, self.hour);
        let m = with_present(m, "daily_send"@, self.daily_send);
        let m = with_present(m, "weekly_send_day"@, self.weekly_send_day);
        let m = with_present(m, "monthly_send_date"@, self.monthly_send_date);
        JsonTree::Object(m)
    }

    fn to_json(&self) -> (r: Json) {
        let mut json = Json::empty_object();
        store_present(&mut json, "hour", &self.hour);
        store_present(&mut json, "daily_send", &self.daily_send);
        store_present(&mut json, "weekly_send_day", &self.weekly_send_day);
        store_present(&mut json, "monthly_send_date", &self.monthly_send_date);
        json
    }
}

impl RoundTrip for SendingScheduleType {
    /// Every member is writable.
    open spec fn writable(&self) -> bool {
        &&& writable_if_present(self.daily_send)
        &&& writable_if_present(self.monthly_send_date)
    }

    proof fn lemma_round_trip(&self) {
        reveal_strlit("hour");
        reveal_strlit("daily_send");
        reveal_strlit("weekly_send_day");
        reveal_strlit("monthly_send_date");
        assert("hour"@.len() == 4);
        assert("daily_send"@.len() == 10);
        assert("weekly_send_day"@.len() == 15);
        assert("monthly_send_date"@.len() == 17);
        let m0 = Map::<Seq<char>, JsonTree>::empty();
        let m1 = with_present(m0, "hour"@, self.hour);
        lemma_with_present(m0, "hour"@, self.hour);
        let m2 = with_present(m1, "daily_send"@, self.daily_send);
        lemma_with_present(m1, "daily_send"@, self.daily_send);
        let m3 = with_present(m2, "weekly_send_day"@, self.weekly_send_day);
        lemma_with_present(m2, "weekly_send_day"@, self.weekly_send_day);
        let m4 = with_present(m3, "monthly_send_date"@, self.monthly_send_date);
        lemma_with_present(m3, "monthly_send_date"@, self.monthly_send_date);
        let members = m4;
        assert(self.encoding() == JsonTree::Object(members));
        lemma_optional_member_round_trip(members, "hour"@, self.hour);
        lemma_optional_member_round_trip(members, "daily_send"@, self.daily_send);
        lemma_optional_member_round_trip(members, "weekly_send_day"@, self.weekly_send_day);
        lemma_optional_member_round_trip(members, "monthly_send_date"@, self.monthly_send_date);
    }
}

/// The options of an RSS campaign.
#[derive(Debug, Clone)]
pub struct RSSOptionsType {
    /// The URL of the feed.
    pub feed_url: Option<String>,
    /// How often the campaign is sent.
    pub frequency: Option<String>,
    /// When the campaign is sent.
    pub schedule: Option<SendingScheduleType>,
    /// When the campaign was last sent.
    pub last_sent: Option<String>,
    /// Whether images of the feed are kept within the width of the campaign.
    pub constrain_rss_img: Option<bool>,
}

impl RSSOptionsType {
    /// Whether this is the default set of options.
    pub open spec fn is_default(&self) -> bool {
        &&& self.feed_url is None
        &&& self.frequency is None
        &&& self.schedule is None
        &&& self.last_sent is None
        &&& self.constrain_rss_img is None
    }
}

impl Default for RSSOptionsType {
    fn default() -> (r: Self)
        ensures
            r.is_default(),
    {
        RSSOptionsType {
            feed_url: None,
            frequency: None,
            schedule: None,
            last_sent: None,
            constrain_rss_img: None,
        }
    }
}

impl FromJson for RSSOptionsType {
    /// An object; every member may be absent.
    open spec fn decodable(tree: JsonTree) -> bool {
        &&& tree is Object
        &&& field_ok::<Option<String>>(tree, "feed_url"@)
        &&& field_ok::<Option<String>>(tree, "frequency"@)
        &&& field_ok::<Option<SendingScheduleType>>(tree, "schedule"@)
        &&& field_ok::<Option<String>>(tree, "last_sent"@)
        &&& field_ok::<Option<bool>>(tree, "constrain_rss_img"@)
    }

    open spec fn decodes_to(tree: JsonTree, value: Self) -> bool {
        &&& field_is::<Option<String>>(tree, "feed_url"@, value.feed_url)
        &&& field_is::<Option<String>>(tree, "frequency"@, value.frequency)
        &&& field_is::<Option<SendingScheduleType>>(tree, "schedule"@, value.schedule)
        &&& field_is::<Option<String>>(tree, "last_sent"@, value.last_sent)
        &&& field_is::<Option<bool>>(tree, "constrain_rss_img"@, value.constrain_rss_img)
    }

    open spec fn is_absent(value: Self) -> bool {
        value.is_default()
    }

    fn from_json(json: &Json) -> (r: Option<Self>) {
        if json.kind() != JsonKind::Object {
            return None;
        }
        let feed_url = read::<Option<String>>(json, "feed_url")?;
        let frequency = read::<Option<String>>(json, "frequency")?;
        let schedule = read::<Option<SendingScheduleType>>(json, "schedule")?;
        let last_sent = read::<Option<String>>(json, "last_sent")?;
        let constrain_rss_img = read::<Option<bool>>(json, "constrain_rss_img")?;
        Some(
            RSSOptionsType {
                feed_url,
                frequency,
                schedule,
                last_sent,
                constrain_rss_img,
            },
        )
    }

    fn absent() -> (r: Self) {
        RSSOptionsType::default()
    }
}

impl ToJson for RSSOptionsType {
    open spec fn encoding(&self) -> JsonTree {
        let m = Map::<Seq<char>, JsonTree>::empty();
        let m = with_present(m, "feed_url"@, self.feed_url);
        let m = with_present(m, "frequency"@, self.frequency);
        let m = with_present(m, "schedule"@, self.schedule);
        let m = with_present(m, "last_sent"@, self.last_sent);
        let m = with_present(m, "constrain_rss_img"@, self.constrain_rss_img);
        JsonTree::Object(m)
    }

    fn to_json(&self) -> (r: Json) {
        let mut json = Json::empty_object();
        store_present(&mut json, "feed_url", &self.feed_url);
        store_present(&mut json, "frequency", &self.frequency);
        store_present(&mut json, "schedule", &self.schedule);
        store_present(&mut json, "last_sent", &self.last_sent);
        store_present(&mut json, "constrain_rss_img", &self.constrain_rss_img);
        json
    }
}

impl RoundTrip for RSSOptionsType {
    /// Every member is writable.
    open spec fn writable(&self) -> bool {
        &&& writable_if_present(self.schedule)
    }

    proof fn lemma_round_trip(&self) {
        reveal_strlit("feed_url");
        reveal_strlit("frequency");
        reveal_strlit("schedule");
        reveal_strlit("last_sent");
        reveal_strlit("constrain_rss_img");
        assert("feed_url"@.len() == 8);
        assert("frequency"@.len() == 9);
        assert("schedule"@.len() == 8);
        assert("last_sent"@.len() == 9);
        assert("constrain_rss_img"@.len() == 17);
        assert("feed_url"@[0] != "schedule"@[0]);
        assert("frequency"@[0] != "last_sent"@[0]);
        let m0 = Map::<Seq<char>, JsonTree>::empty();
        let m1 = with_present(m0, "feed_url"@, self.feed_url);
        lemma_with_present(m0, "feed_url"@, self.feed_url);
        let m2 = with_present(m1, "frequency"@, self.frequency);
        lemma_with_present(m1, "frequency"@, self.frequency);
        let m3 = with_present(m2, "schedule"@, self.schedule);
        lemma_with_present(m2, "schedule"@, self.schedule);
        let m4 = with_present(m3, "last_sent"@, self.last_sent);
        lemma_with_present(m3, "last_sent"@, self.last_sent);
        let m5 = with_present(m4, "constrain_rss_img"@, self.constrain_rss_img);
        lemma_with_present(m4, "constrain_rss_img"@, self.constrain_rss_img);
        let members = m5;
        assert(self.encoding() == JsonTree::Object(members));
        lemma_optional_member_round_trip(members, "feed_url"@, self.feed_url);
        lemma_optional_member_round_trip(members, "frequency"@, self.frequency);
        lemma_optional_member_round_trip(members, "schedule"@, self.schedule);
        lemma_optional_member_round_trip(members, "last_sent"@, self.last_sent);
        lemma_optional_member_round_trip(members, "constrain_rss_img"@, self.constrain_rss_img);
    }
}

/// One combination of the variables of a multivariate campaign.
#[derive(Debug, Clone)]
pub struct CombinationsType {
    /// The identifier of the combination.
    pub id: Option<String>,
    /// The index of the subject line used.
    pub subject_line: Option<u64>,
    /// The index of the send time used.
    pub send_time: Option<u64>,
    /// The index of the sender's name used.
    pub from_name: Option<u64>,
    /// The index of the reply address used.
    pub reply_to: Option<u64>,
    /// The index of the content used.
    pub content_description: Option<u64>,
    /// The number of recipients of the combination.
    pub recipients: Option<u64>,
}

impl CombinationsType {
    /// Whether this is the default combination.
    pub open spec fn is_default(&self) -> bool {
        &&& self.id is None
        &&& self.subject_line is None
        &&& self.send_time is None
        &&& self.from_name is None
        &&& self.reply_to is None
        &&& self.content_description is None
        &&& self.recipients is None
    }
}

impl Default for CombinationsType {
    fn default() -> (r: Self)
        ensures
            r.is_default(),
    {
        CombinationsType {
            id: None,
            subject_line: None,
            send_time: None,
            from_name: None,
            reply_to: None,
            content_description: None,
            recipients: None,
        }
    }
}

impl FromJson for CombinationsType {
    /// An object; every member may be absent.
    open spec fn decodable(tree: JsonTree) -> bool {
        &&& tree is Object
        &&& field_ok::<Option<String>>(tree, "id"@)
        &&& field_ok::<Option<u64>>(tree, "subject_line"@)
        &&& field_ok::<Option<u64>>(tree, "send_time"@)
        &&& field_ok::<Option<u64>>(tree, "from_name"@)
        &&& field_ok::<Option<u64>>(tree, "reply_to"@)
        &&& field_ok::<Option<u64>>(tree, "content_description"@)
        &&& field_ok::<Option<u64>>(tree, "recipients"@)
    }

    open spec fn decodes_to(tree: JsonTree, value: Self) -> bool {
        &&& field_is::<Option<String>>(tree, "id"@, value.id)
        &&& field_is::<Option<u64>>(tree, "subject_line"@, value.subject_line)
        &&& field_is::<Option<u64>>(tree, "send_time"@, value.send_time)
        &&& field_is::<Option<u64>>(tree, "from_name"@, value.from_name)
        &&& field_is::<Option<u64>>(tree, "reply_to"@, value.reply_to)
        &&& field_is::<Option<u64>>(tree, "content_description"@, value.content_description)
        &&& field_is::<Option<u64>>(tree, "recipients"@, value.recipients)
    }

    open spec fn is_absent(value: Self) -> bool {
        value.is_default()
    }

    fn from_json(json: &Json) -> (r: Option<Self>) {
        if json.kind() != JsonKind::Object {
            return None;
        }
        let id = read::<Option<String>>(json, "id")?;
        let subject_line = read::<Option<u64>>(json, "subject_line")?;
        let send_time = read::<Option<u64>>(json, "send_time")?;
        let from_name = read::<Option<u64>>(json, "from_name")?;
        let reply_to = read::<Option<u64>>(json, "reply_to")?;
        let content_description = read::<Option<u64>>(json, "content_description")?;
        let recipients = read::<Option<u64>>(json, "recipients")?;
        Some(
            CombinationsType {
                id,
                subject_line,
                send_time,
                from_name,
                reply_to,
                content_description,
                recipients,
            },
        )
    }

    fn absent() -> (r: Self) {
        CombinationsType::default()
    }
}

impl ToJson for CombinationsType {
    open spec fn encoding(&self) -> JsonTree {
        let m = Map::<Seq<char>, JsonTree>::empty();
        let m = with_present(m, "id"@, self.id);
        let m = with_present(m, "subject_line"@, self.subject_line);
        let m = with_present(m, "send_time"@, self.send_time);
        let m = with_present(m, "from_name"@, self.from_name);
        let m = with_present(m, "reply_to"@, self.reply_to);
        let m = with_present(m, "content_description"@, self.content_description);
        let m = with_present(m, "recipients"@, self.recipients);
        JsonTree::Object(m)
    }

    fn to_json(&self) -> (r: Json) {
        let mut json = Json::empty_object();
        store_present(&mut json, "id", &self.id);
        store_present(&mut json, "subject_line", &self.subject_line);
        store_present(&mut json, "send_time", &self.send_time);
        store_present(&mut json, "from_name", &self.from_name);
        store_present(&mut json, "reply_to", &self.reply_to);
        store_present(&mut json, "content_description", &self.content_description);
        store_present(&mut json, "recipients", &self.recipients);
        json
    }
}

impl RoundTrip for CombinationsType {
    open spec fn writable(&self) -> bool {
        true
    }

    proof fn lemma_round_trip(&self) {
        reveal_strlit("id");
        reveal_strlit("subject_line");
        reveal_strlit("send_time");
        reveal_strlit("from_name");
        reveal_strlit("reply_to");
        reveal_strlit("content_description");
        reveal_strlit("recipients");
        assert("id"@.len() == 2);
        assert("subject_line"@.len() == 12);
        assert("send_time"@.len() == 9);
        assert("from_name"@.len() == 9);
        assert("reply_to"@.len() == 8);
        assert("content_description"@.len() == 19);
        assert("recipients"@.len() == 10);
        assert("send_time"@[0] != "from_name"@[0]);
        let m0 = Map::<Seq<char>, JsonTree>::empty();
        let m1 = with_present(m0, "id"@, self.id);
        lemma_with_present(m0, "id"@, self.id);
        let m2 = with_present(m1, "subject_line"@, self.subject_line);
        lemma_with_present(m1, "subject_line"@, self.subject_line);
        let m3 = with_present(m2, "send_time"@, self.send_time);
        lemma_with_present(m2, "send_time"@, self.send_time);
        let m4 = with_present(m3, "from_name"@, self.from_name);
        lemma_with_present(m3, "from_name"@, self.from_name);
        let m5 = with_present(m4, "reply_to"@, self.reply_to);
        lemma_with_present(m4, "reply_to"@, self.reply_to);
        let m6 = with_present(m5, "content_description"@, self.content_description);
        lemma_with_present(m5, "content_description"@, self.content_description);
        let m7 = with_present(m6, "recipients"@, self.recipients);
        lemma_with_present(m6, "recipients"@, self.recipients);
        let members = m7;
        assert(self.encoding() == JsonTree::Object(members));
        lemma_optional_member_round_trip(members, "id"@, self.id);
        lemma_optional_member_round_trip(members, "subject_line"@, self.subject_line);
        lemma_optional_member_round_trip(members, "send_time"@, self.send_time);
        lemma_optional_member_round_trip(members, "from_name"@, self.from_name);
        lemma_optional_member_round_trip(members, "reply_to"@, self.reply_to);
        lemma_optional_member_round_trip(members, "content_description"@, self.content_description);
        lemma_optional_member_round_trip(members, "recipients"@, self.recipients);
    }
}

/// The settings of a multivariate campaign.
#[derive(Debug, Clone)]
pub struct VariateSettingsType {
    /// The combination that won.
    pub winning_combination_id: Option<String>,
    /// The campaign that was sent to the remaining recipients.
    pub winning_campaign_id: Option<String>,
    /// How the winner is found: by opens, by clicks, by revenue or by hand.
    pub winner_criteria: Option<String>,
    /// The minutes to wait before the winner is picked.
    pub wait_time: Option<u64>,
    /// The share of the recipients that the test is sent to, in percent.
    pub test_size: Option<u64>,
    /// The subject lines to test.
    pub subject_lines: Option<Vec<String>>,
    /// The send times to test.
    pub send_times: Option<Vec<String>>,
    /// The sender's names to test.
    pub from_names: Option<Vec<String>>,
    /// The reply addresses to test.
    pub reply_to_addresses: Option<Vec<String>>,
    /// Descriptions of the contents to test.
    pub contents: Option<Vec<String>>,
    /// The combinations that are tested.
    pub combinations: Option<Vec<CombinationsType>>,
}

impl VariateSettingsType {
    /// Whether this is the default settings.
    pub open spec fn is_default(&self) -> bool {
        &&& self.winning_combination_id is None
        &&& self.winning_campaign_id is None
        &&& self.winner_criteria is None
        &&& self.wait_time is None
        &&& self.test_size is None
        &&& self.subject_lines is None
        &&& self.send_times is None
        &&& self.from_names is None
        &&& self.reply_to_addresses is None
        &&& self.contents is None
        &&& self.combinations is None
    }
}

impl Default for VariateSettingsType {
    fn default() -> (r: Self)
        ensures
            r.is_default(),
    {
        VariateSettingsType {
            winning_combination_id: None,
            winning_campaign_id: None,
            winner_criteria: None,
            wait_time: None,
            test_size: None,
            subject_lines: None,
            send_times: None,
            from_names: None,
            reply_to_addresses: None,
            contents: None,
            combinations: None,
        }
    }
}

impl FromJson for VariateSettingsType {
    /// An object; every member may be absent.
    open spec fn decodable(tree: JsonTree) -> bool {
        &&& tree is Object
        &&& field_ok::<Option<String>>(tree, "winning_combination_id"@)
        &&& field_ok::<Option<String>>(tree, "winning_campaign_id"@)
        &&& field_ok::<Option<String>>(tree, "winner_criteria"@)
        &&& field_ok::<Option<u64>>(tree, "wait_time"@)
        &&& field_ok::<Option<u64>>(tree, "test_size"@)
        &&& field_ok::<Option<Vec<String>>>(tree, "subject_lines"@)
        &&& field_ok::<Option<Vec<String>>>(tree, "send_times"@)
        &&& field_ok::<Option<Vec<String>>>(tree, "from_names"@)
        &&& field_ok::<Option<Vec<String>>>(tree, "reply_to_addresses"@)
        &&& field_ok::<Option<Vec<String>>>(tree, "contents"@)
        &&& field_ok::<Option<Vec<CombinationsType>>>(tree, "combinations"@)
    }

    open spec fn decodes_to(tree: JsonTree, value: Self) -> bool {
        &&& field_is::<Option<String>>(tree, "winning_combination_id"@, value.winning_combination_id)
        &&& field_is::<Option<String>>(tree, "winning_campaign_id"@, value.winning_campaign_id)
        &&& field_is::<Option<String>>(tree, "winner_criteria"@, value.winner_criteria)
        &&& field_is::<Option<u64>>(tree, "wait_time"@, value.wait_time)
        &&& field_is::<Option<u64>>(tree, "test_size"@, value.test_size)
        &&& field_is::<Option<Vec<String>>>(tree, "subject_lines"@, value.subject_lines)
        &&& field_is::<Option<Vec<String>>>(tree, "send_times"@, value.send_times)
        &&& field_is::<Option<Vec<String>>>(tree, "from_names"@, value.from_names)
        &&& field_is::<Option<Vec<String>>>(tree, "reply_to_addresses"@, value.reply_to_addresses)
        &&& field_is::<Option<Vec<String>>>(tree, "contents"@, value.contents)
        &&& field_is::<Option<Vec<CombinationsType>>>(tree, "combinations"@, value.combinations)
    }

    open spec fn is_absent(value: Self) -> bool {
        value.is_default()
    }

    #[verifier::rlimit(40)]
    fn from_json(json: &Json) -> (r: Option<Self>) {
        if json.kind() != JsonKind::Object {
            return None;
        }
        let winning_combination_id = read::<Option<String>>(json, "winning_combination_id")?;
        let winning_campaign_id = read::<Option<String>>(json, "winning_campaign_id")?;
        let winner_criteria = read::<Option<String>>(json, "winner_criteria")?;
        let wait_time = read::<Option<u64>>(json, "wait_time")?;
        let test_size = read::<Option<u64>>(json, "test_size")?;
        let subject_lines = read::<Option<Vec<String>>>(json, "subject_lines")?;
        let send_times = read::<Option<Vec<String>>>(json, "send_times")?;
        let from_names = read::<Option<Vec<String>>>(json, "from_names")?;
        let reply_to_addresses = read::<Option<Vec<String>>>(json, "reply_to_addresses")?;
        let contents = read::<Option<Vec<String>>>(json, "contents")?;
        let combinations = read::<Option<Vec<CombinationsType>>>(json, "combinations")?;
        Some(
            VariateSettingsType {
                winning_combination_id,
                winning_campaign_id,
                winner_criteria,
                wait_time,
                test_size,
                subject_lines,
                send_times,
                from_names,
                reply_to_addresses,
                contents,
                combinations,
            },
        )
    }

    fn absent() -> (r: Self) {
        VariateSettingsType::default()
    }
}

impl ToJson for VariateSettingsType {
    open spec fn encoding(&self) -> JsonTree {
        let m = Map::<Seq<char>, JsonTree>::empty();
        let m = with_present(m, "winning_combination_id"@, self.winning_combination_id);
        let m = with_present(m, "winning_campaign_id"@, self.winning_campaign_id);
        let m = with_present(m, "winner_criteria"@, self.winner_criteria);
        let m = with_present(m, "wait_time"@, self.wait_time);
        let m = with_present(m, "test_size"@, self.test_size);
        let m = with_present(m, "subject_lines"@, self.subject_lines);
        let m = with_present(m, "send_times"@, self.send_times);
        let m = with_present(m, "from_names"@, self.from_names);
        let m = with_present(m, "reply_to_addresses"@, self.reply_to_addresses);
        let m = with_present(m, "contents"@, self.contents);
        let m = with_present(m, "combinations"@, self.combinations);
        JsonTree::Object(m)
    }

    #[verifier::rlimit(40)]
    fn to_json(&self) -> (r: Json) {
        let mut json = Json::empty_object();
        store_present(&mut json, "winning_combination_id", &self.winning_combination_id);
        store_present(&mut json, "winning_campaign_id", &self.winning_campaign_id);
        store_present(&mut json, "winner_criteria", &self.winner_criteria);
        store_present(&mut json, "wait_time", &self.wait_time);
        store_present(&mut json, "test_size", &self.test_size);
        store_present(&mut json, "subject_lines", &self.subject_lines);
        store_present(&mut json, "send_times", &self.send_times);
        store_present(&mut json, "from_names", &self.from_names);
        store_present(&mut json, "reply_to_addresses", &self.reply_to_addresses);
        store_present(&mut json, "contents", &self.contents);
        store_present(&mut json, "combinations", &self.combinations);
        json
    }
}

impl RoundTrip for VariateSettingsType {
    /// Every member is writable.
    open spec fn writable(&self) -> bool {
        &&& writable_if_present(self.combinations)
    }

    proof fn lemma_round_trip(&self) {
        reveal_strlit("winning_combination_id");
        reveal_strlit("winning_campaign_id");
        reveal_strlit("winner_criteria");
        reveal_strlit("wait_time");
        reveal_strlit("test_size");
        reveal_strlit("subject_lines");
        reveal_strlit("send_times");
        reveal_strlit("from_names");
        reveal_strlit("reply_to_addresses");
        reveal_strlit("contents");
        reveal_strlit("combinations");
        assert("winning_combination_id"@.len() == 22);
        assert("winning_campaign_id"@.len() == 19);
        assert("winner_criteria"@.len() == 15);
        assert("wait_time"@.len() == 9);
        assert("test_size"@.len() == 9);
        assert("subject_lines"@.len() == 13);
        assert("send_times"@.len() == 10);
        assert("from_names"@.len() == 10);
        assert("reply_to_addresses"@.len() == 18);
        assert("contents"@.len() == 8);
        assert("combinations"@.len() == 12);
        assert("wait_time"@[0] != "test_size"@[0]);
        assert("send_times"@[0] != "from_names"@[0]);
        let m0 = Map::<Seq<char>, JsonTree>::empty();
        let m1 = with_present(m0, "winning_combination_id"@, self.winning_combination_id);
        lemma_with_present(m0, "winning_combination_id"@, self.winning_combination_id);
        let m2 = with_present(m1, "winning_campaign_id"@, self.winning_campaign_id);
        lemma_with_present(m1, "winning_campaign_id"@, self.winning_campaign_id);
        let m3 = with_present(m2, "winner_criteria"@, self.winner_criteria);
        lemma_with_present(m2, "winner_criteria"@, self.winner_criteria);
        let m4 = with_present(m3, "wait_time"@, self.wait_time);
        lemma_with_present(m3, "wait_time"@, self.wait_time);
        let m5 = with_present(m4, "test_size"@, self.test_size);
        lemma_with_present(m4, "test_size"@, self.test_size);
        let m6 = with_present(m5, "subject_lines"@, self.subject_lines);
        lemma_with_present(m5, "subject_lines"@, self.subject_lines);
        let m7 = with_present(m6, "send_times"@, self.send_times);
        lemma_with_present(m6, "send_times"@, self.send_times);
        let m8 = with_present(m7, "from_names"@, self.from_names);
        lemma_with_present(m7, "from_names"@, self.from_names);
        let m9 = with_present(m8, "reply_to_addresses"@, self.reply_to_addresses);
        lemma_with_present(m8, "reply_to_addresses"@, self.reply_to_addresses);
        let m10 = with_present(m9, "contents"@, self.contents);
        lemma_with_present(m9, "contents"@, self.contents);
        let m11 = with_present(m10, "combinations"@, self.combinations);
        lemma_with_present(m10, "combinations"@, self.combinations);
        let members = m11;
        assert(self.encoding() == JsonTree::Object(members));
        lemma_optional_member_round_trip(members, "winning_combination_id"@, self.winning_combination_id);
        lemma_optional_member_round_trip(members, "winning_campaign_id"@, self.winning_campaign_id);
        lemma_optional_member_round_trip(members, "winner_criteria"@, self.winner_criteria);
        lemma_optional_member_round_trip(members, "wait_time"@, self.wait_time);
        lemma_optional_member_round_trip(members, "test_size"@, self.test_size);
        lemma_optional_member_round_trip(members, "subject_lines"@, self.subject_lines);
        lemma_optional_member_round_trip(members, "send_times"@, self.send_times);
        lemma_optional_member_round_trip(members, "from_names"@, self.from_names);
        lemma_optional_member_round_trip(members, "reply_to_addresses"@, self.reply_to_addresses);
        lemma_optional_member_round_trip(members, "contents"@, self.contents);
        lemma_optional_member_round_trip(members, "combinations"@, self.combinations);
    }
}

/// A campaign. Beside what the service sends, a campaign carries the client
/// that reached it, once one is set.
#[derive(Debug, Clone)]
pub struct CampaignType<'a, R: HttpReq> {
    /// The identifier of the campaign.
    pub id: Option<String>,
    /// The identifier that the web application uses.
    pub web_id: Option<u64>,
    /// The campaign that this one is a child of, if any.
    pub parent_campaign_id: Option<String>,
    /// The kind of campaign.
    pub campaign_type: Option<String>,
    /// When the campaign was created, in ISO 8601 format.
    pub create_time: Option<String>,
    /// The link to the archived version.
    pub archive_url: Option<String>,
    /// The long form of the link to the archived version.
    pub long_archive_url: Option<String>,
    /// The state the campaign is in.
    pub status: Option<String>,
    /// The number of emails sent.
    pub emails_sent: Option<u64>,
    /// When the campaign was sent.
    pub send_time: Option<String>,
    /// How the content is put together: template, drag-and-drop, HTML or URL.
    pub content_type: Option<String>,
    /// Whether the blocks have to be refreshed in the web editor.
    pub needs_block_refresh: Option<bool>,
    /// Whether the content holds the logo merge tag.
    pub has_logo_merge_tag: Option<bool>,
    /// Whether the campaign may be sent again to those who did not open it.
    pub resendable: Option<bool>,
    /// The list that the campaign is sent to.
    pub recipients: Option<RecipientType>,
    /// Subject, sender and the like.
    pub settings: Option<CampaignSettingsType>,
    /// The settings of a multivariate campaign.
    pub variate_settings: Option<VariateSettingsType>,
    /// What is tracked.
    pub tracking: Option<CampaignTrackingOptionsType>,
    /// The options of an RSS campaign.
    pub rss_opts: Option<RSSOptionsType>,
    /// The options of an A/B split campaign.
    pub ab_split_opts: Option<ABTestingOptionsType>,
    /// The preview that social networks show.
    pub social_card: Option<SocialCardType>,
    /// What became of the mail sent.
    pub report_summary: Option<CampaignReportSummaryType>,
    /// How far the sending has come.
    pub delivery_status: Option<CampaignDeliveryStatusType>,
    /// Links to related resources and schema documents.
    pub _links: Option<Vec<LinkType>>,
    /// The client that reached the campaign. No document holds it: a decoded
    /// campaign has none.
    pub _api: Option<&'a MailchimpApi<R>>,
}

impl<'a, R: HttpReq> CampaignType<'a, R> {
    /// Whether this is the default campaign.
    pub open spec fn is_default(&self) -> bool {
        &&& self.id is None
        &&& self.web_id is None
        &&& self.parent_campaign_id is None
        &&& self.campaign_type is None
        &&& self.create_time is None
        &&& self.archive_url is None
        &&& self.long_archive_url is None
        &&& self.status is None
        &&& self.emails_sent is None
        &&& self.send_time is None
        &&& self.content_type is None
        &&& self.needs_block_refresh is None
        &&& self.has_logo_merge_tag is None
        &&& self.resendable is None
        &&& self.recipients is None
        &&& self.settings is None
        &&& self.variate_settings is None
        &&& self.tracking is None
        &&& self.rss_opts is None
        &&& self.ab_split_opts is None
        &&& self.social_card is None
        &&& self.report_summary is None
        &&& self.delivery_status is None
        &&& self._links is None
        &&& self._api is None
    }
}

impl<'a, R: HttpReq> Default for CampaignType<'a, R> {
    fn default() -> (r: Self)
        ensures
            r.is_default(),
    {
        CampaignType {
            id: None,
            web_id: None,
            parent_campaign_id: None,
            campaign_type: None,
            create_time: None,
            archive_url: None,
            long_archive_url: None,
            status: None,
            emails_sent: None,
            send_time: None,
            content_type: None,
            needs_block_refresh: None,
            has_logo_merge_tag: None,
            resendable: None,
            recipients: None,
            settings: None,
            variate_settings: None,
            tracking: None,
            rss_opts: None,
            ab_split_opts: None,
            social_card: None,
            report_summary: None,
            delivery_status: None,
            _links: None,
            _api: None,
        }
    }
}

impl<'a, R: HttpReq> FromJson for CampaignType<'a, R> {
    /// An object; every member may be absent.
    open spec fn decodable(tree: JsonTree) -> bool {
        &&& tree is Object
        &&& field_ok::<Option<String>>(tree, "id"@)
        &&& field_ok::<Option<u64>>(tree, "web_id"@)
        &&& field_ok::<Option<String>>(tree, "parent_campaign_id"@)
        &&& field_ok::<Option<String>>(tree, "type"@)
        &&& field_ok::<Option<String>>(tree, "create_time"@)
        &&& field_ok::<Option<String>>(tree, "archive_url"@)
        &&& field_ok::<Option<String>>(tree, "long_archive_url"@)
        &&& field_ok::<Option<String>>(tree, "status"@)
        &&& field_ok::<Option<u64>>(tree, "emails_sent"@)
        &&& field_ok::<Option<String>>(tree, "send_time"@)
        &&& field_ok::<Option<String>>(tree, "content_type"@)
        &&& field_ok::<Option<bool>>(tree, "needs_block_refresh"@)
        &&& field_ok::<Option<bool>>(tree, "has_logo_merge_tag"@)
        &&& field_ok::<Option<bool>>(tree, "resendable"@)
        &&& field_ok::<Option<RecipientType>>(tree, "recipients"@)
        &&& field_ok::<Option<CampaignSettingsType>>(tree, "settings"@)
        &&& field_ok::<Option<VariateSettingsType>>(tree, "variate_settings"@)
        &&& field_ok::<Option<CampaignTrackingOptionsType>>(tree, "tracking"@)
        &&& field_ok::<Option<RSSOptionsType>>(tree, "rss_opts"@)
        &&& field_ok::<Option<ABTestingOptionsType>>(tree, "ab_split_opts"@)
        &&& field_ok::<Option<SocialCardType>>(tree, "social_card"@)
        &&& field_ok::<Option<CampaignReportSummaryType>>(tree, "report_summary"@)
        &&& field_ok::<Option<CampaignDeliveryStatusType>>(tree, "delivery_status"@)
        &&& field_ok::<Option<Vec<LinkType>>>(tree, "_links"@)
    }

    open spec fn decodes_to(tree: JsonTree, value: Self) -> bool {
        &&& field_is::<Option<String>>(tree, "id"@, value.id)
        &&& field_is::<Option<u64>>(tree, "web_id"@, value.web_id)
        &&& field_is::<Option<String>>(tree, "parent_campaign_id"@, value.parent_campaign_id)
        &&& field_is::<Option<String>>(tree, "type"@, value.campaign_type)
        &&& field_is::<Option<String>>(tree, "create_time"@, value.create_time)
        &&& field_is::<Option<String>>(tree, "archive_url"@, value.archive_url)
        &&& field_is::<Option<String>>(tree, "long_archive_url"@, value.long_archive_url)
        &&& field_is::<Option<String>>(tree, "status"@, value.status)
        &&& field_is::<Option<u64>>(tree, "emails_sent"@, value.emails_sent)
        &&& field_is::<Option<String>>(tree, "send_time"@, value.send_time)
        &&& field_is::<Option<String>>(tree, "content_type"@, value.content_type)
        &&& field_is::<Option<bool>>(tree, "needs_block_refresh"@, value.needs_block_refresh)
        &&& field_is::<Option<bool>>(tree, "has_logo_merge_tag"@, value.has_logo_merge_tag)
        &&& field_is::<Option<bool>>(tree, "resendable"@, value.resendable)
        &&& field_is::<Option<RecipientType>>(tree, "recipients"@, value.recipients)
        &&& field_is::<Option<CampaignSettingsType>>(tree, "settings"@, value.settings)
        &&& field_is::<Option<VariateSettingsType>>(tree, "variate_settings"@, value.variate_settings)
        &&& field_is::<Option<CampaignTrackingOptionsType>>(tree, "tracking"@, value.tracking)
        &&& field_is::<Option<RSSOptionsType>>(tree, "rss_opts"@, value.rss_opts)
        &&& field_is::<Option<ABTestingOptionsType>>(tree, "ab_split_opts"@, value.ab_split_opts)
        &&& field_is::<Option<SocialCardType>>(tree, "social_card"@, value.social_card)
        &&& field_is::<Option<CampaignReportSummaryType>>(tree, "report_summary"@, value.report_summary)
        &&& field_is::<Option<CampaignDeliveryStatusType>>(tree, "delivery_status"@, value.delivery_status)
        &&& field_is::<Option<Vec<LinkType>>>(tree, "_links"@, value._links)
        &&& value._api is None
    }

    open spec fn is_absent(value: Self) -> bool {
        value.is_default()
    }

    #[verifier::rlimit(40)]
    fn from_json(json: &Json) -> (r: Option<Self>) {
        if json.kind() != JsonKind::Object {
            return None;
        }
        let id = read::<Option<String>>(json, "id")?;
        let web_id = read::<Option<u64>>(json, "web_id")?;
        let parent_campaign_id = read::<Option<String>>(json, "parent_campaign_id")?;
        let campaign_type = read::<Option<String>>(json, "type")?;
        let create_time = read::<Option<String>>(json, "create_time")?;
        let archive_url = read::<Option<String>>(json, "archive_url")?;
        let long_archive_url = read::<Option<String>>(json, "long_archive_url")?;
        let status = read::<Option<String>>(json, "status")?;
        let emails_sent = read::<Option<u64>>(json, "emails_sent")?;
        let send_time = read::<Option<String>>(json, "send_time")?;
        let content_type = read::<Option<String>>(json, "content_type")?;
        let needs_block_refresh = read::<Option<bool>>(json, "needs_block_refresh")?;
        let has_logo_merge_tag = read::<Option<bool>>(json, "has_logo_merge_tag")?;
        let resendable = read::<Option<bool>>(json, "resendable")?;
        let recipients = read::<Option<RecipientType>>(json, "recipients")?;
        let settings = read::<Option<CampaignSettingsType>>(json, "settings")?;
        let variate_settings = read::<Option<VariateSettingsType>>(json, "variate_settings")?;
        let tracking = read::<Option<CampaignTrackingOptionsType>>(json, "tracking")?;
        let rss_opts = read::<Option<RSSOptionsType>>(json, "rss_opts")?;
        let ab_split_opts = read::<Option<ABTestingOptionsType>>(json, "ab_split_opts")?;
        let social_card = read::<Option<SocialCardType>>(json, "social_card")?;
        let report_summary = read::<Option<CampaignReportSummaryType>>(json, "report_summary")?;
        let delivery_status = read::<Option<CampaignDeliveryStatusType>>(json, "delivery_status")?;
        let _links = read::<Option<Vec<LinkType>>>(json, "_links")?;
        Some(
            CampaignType {
                id,
                web_id,
                parent_campaign_id,
                campaign_type,
                create_time,
                archive_url,
                long_archive_url,
                status,
                emails_sent,
                send_time,
                content_type,
                needs_block_refresh,
                has_logo_merge_tag,
                resendable,
                recipients,
                settings,
                variate_settings,
                tracking,
                rss_opts,
                ab_split_opts,
                social_card,
                report_summary,
                delivery_status,
                _links,
                _api: None,
            },
        )
    }

    fn absent() -> (r: Self) {
        CampaignType::default()
    }
}

impl<'a, R: HttpReq> ToJson for CampaignType<'a, R> {
    open spec fn encoding(&self) -> JsonTree {
        let m = Map::<Seq<char>, JsonTree>::empty();
        let m = with_present(m, "id"@, self.id);
        let m = with_present(m, "web_id"@, self.web_id);
        let m = with_present(m, "parent_campaign_id"@, self.parent_campaign_id);
        let m = with_present(m, "type"@, self.campaign_type);
        let m = with_present(m, "create_time"@, self.create_time);
        let m = with_present(m, "archive_url"@, self.archive_url);
        let m = with_present(m, "long_archive_url"@, self.long_archive_url);
        let m = with_present(m, "status"@, self.status);
        let m = with_present(m, "emails_sent"@, self.emails_sent);
        let m = with_present(m, "send_time"@, self.send_time);
        let m = with_present(m, "content_type"@, self.content_type);
        let m = with_present(m, "needs_block_refresh"@, self.needs_block_refresh);
        let m = with_present(m, "has_logo_merge_tag"@, self.has_logo_merge_tag);
        let m = with_present(m, "resendable"@, self.resendable);
        let m = with_present(m, "recipients"@, self.recipients);
        let m = with_present(m, "settings"@, self.settings);
        let m = with_present(m, "variate_settings"@, self.variate_settings);
        let m = with_present(m, "tracking"@, self.tracking);
        let m = with_present(m, "rss_opts"@, self.rss_opts);
        let m = with_present(m, "ab_split_opts"@, self.ab_split_opts);
        let m = with_present(m, "social_card"@, self.social_card);
        let m = with_present(m, "report_summary"@, self.report_summary);
        let m = with_present(m, "delivery_status"@, self.delivery_status);
        let m = with_present(m, "_links"@, self._links);
        JsonTree::Object(m)
    }

    #[verifier::rlimit(40)]
    fn to_json(&self) -> (r: Json) {
        let mut json = Json::empty_object();
        store_present(&mut json, "id", &self.id);
        store_present(&mut json, "web_id", &self.web_id);
        store_present(&mut json, "parent_campaign_id", &self.parent_campaign_id);
        store_present(&mut json, "type", &self.campaign_type);
        store_present(&mut json, "create_time", &self.create_time);
        store_present(&mut json, "archive_url", &self.archive_url);
        store_present(&mut json, "long_archive_url", &self.long_archive_url);
        store_present(&mut json, "status", &self.status);
        store_present(&mut json, "emails_sent", &self.emails_sent);
        store_present(&mut json, "send_time", &self.send_time);
        store_present(&mut json, "content_type", &self.content_type);
        store_present(&mut json, "needs_block_refresh", &self.needs_block_refresh);
        store_present(&mut json, "has_logo_merge_tag", &self.has_logo_merge_tag);
        store_present(&mut json, "resendable", &self.resendable);
        store_present(&mut json, "recipients", &self.recipients);
        store_present(&mut json, "settings", &self.settings);
        store_present(&mut json, "variate_settings", &self.variate_settings);
        store_present(&mut json, "tracking", &self.tracking);
        store_present(&mut json, "rss_opts", &self.rss_opts);
        store_present(&mut json, "ab_split_opts", &self.ab_split_opts);
        store_present(&mut json, "social_card", &self.social_card);
        store_present(&mut json, "report_summary", &self.report_summary);
        store_present(&mut json, "delivery_status", &self.delivery_status);
        store_present(&mut json, "_links", &self._links);
        json
    }
}

impl<'a, R: HttpReq> RoundTrip for CampaignType<'a, R> {
    /// Every member is writable, and there is nothing that no document
    /// holds: no client and no endpoint.
    open spec fn writable(&self) -> bool {
        &&& writable_if_present(self.recipients)
        &&& writable_if_present(self.settings)
        &&& writable_if_present(self.variate_settings)
        &&& writable_if_present(self.tracking)
        &&& writable_if_present(self.rss_opts)
        &&& writable_if_present(self.ab_split_opts)
        &&& writable_if_present(self.social_card)
        &&& writable_if_present(self.report_summary)
        &&& writable_if_present(self.delivery_status)
        &&& writable_if_present(self._links)
        &&& self._api is None
    }

    #[verifier::rlimit(40)]
    proof fn lemma_round_trip(&self) {
        reveal_strlit("id");
        reveal_strlit("web_id");
        reveal_strlit("parent_campaign_id");
        reveal_strlit("type");
        reveal_strlit("create_time");
        reveal_strlit("archive_url");
        reveal_strlit("long_archive_url");
        reveal_strlit("status");
        reveal_strlit("emails_sent");
        reveal_strlit("send_time");
        reveal_strlit("content_type");
        reveal_strlit("needs_block_refresh");
        reveal_strlit("has_logo_merge_tag");
        reveal_strlit("resendable");
        reveal_strlit("recipients");
        reveal_strlit("settings");
        reveal_strlit("variate_settings");
        reveal_strlit("tracking");
        reveal_strlit("rss_opts");
        reveal_strlit("ab_split_opts");
        reveal_strlit("social_card");
        reveal_strlit("report_summary");
        reveal_strlit("delivery_status");
        reveal_strlit("_links");
        assert("id"@.len() == 2);
        assert("web_id"@.len() == 6);
        assert("parent_campaign_id"@.len() == 18);
        assert("type"@.len() == 4);
        assert("create_time"@.len() == 11);
        assert("archive_url"@.len() == 11);
        assert("long_archive_url"@.len() == 16);
        assert("status"@.len() == 6);
        assert("emails_sent"@.len() == 11);
        assert("send_time"@.len() == 9);
        assert("content_type"@.len() == 12);
        assert("needs_block_refresh"@.len() == 19);
        assert("has_logo_merge_tag"@.len() == 18);
        assert("resendable"@.len() == 10);
        assert("recipients"@.len() == 10);
        assert("settings"@.len() == 8);
        assert("variate_settings"@.len() == 16);
        assert("tracking"@.len() == 8);
        assert("rss_opts"@.len() == 8);
        assert("ab_split_opts"@.len() == 13);
        assert("social_card"@.len() == 11);
        assert("report_summary"@.len() == 14);
        assert("delivery_status"@.len() == 15);
        assert("_links"@.len() == 6);
        assert("web_id"@[0] != "status"@[0]);
        assert("web_id"@[0] != "_links"@[0]);
        assert("parent_campaign_id"@[0] != "has_logo_merge_tag"@[0]);
        assert("create_time"@[0] != "archive_url"@[0]);
        assert("create_time"@[0] != "emails_sent"@[0]);
        assert("create_time"@[0] != "social_card"@[0]);
        assert("archive_url"@[0] != "emails_sent"@[0]);
        assert("archive_url"@[0] != "social_card"@[0]);
        assert("long_archive_url"@[0] != "variate_settings"@[0]);
        assert("status"@[0] != "_links"@[0]);
        assert("emails_sent"@[0] != "social_card"@[0]);
        assert("resendable"@[2] != "recipients"@[2]);
        assert("settings"@[0] != "tracking"@[0]);
        assert("settings"@[0] != "rss_opts"@[0]);
        assert("tracking"@[0] != "rss_opts"@[0]);
        let m0 = Map::<Seq<char>, JsonTree>::empty();
        let m1 = with_present(m0, "id"@, self.id);
        lemma_with_present(m0, "id"@, self.id);
        let m2 = with_present(m1, "web_id"@, self.web_id);
        lemma_with_present(m1, "web_id"@, self.web_id);
        let m3 = with_present(m2, "parent_campaign_id"@, self.parent_campaign_id);
        lemma_with_present(m2, "parent_campaign_id"@, self.parent_campaign_id);
        let m4 = with_present(m3, "type"@, self.campaign_type);
        lemma_with_present(m3, "type"@, self.campaign_type);
        let m5 = with_present(m4, "create_time"@, self.create_time);
        lemma_with_present(m4, "create_time"@, self.create_time);
        let m6 = with_present(m5, "archive_url"@, self.archive_url);
        lemma_with_present(m5, "archive_url"@, self.archive_url);
        let m7 = with_present(m6, "long_archive_url"@, self.long_archive_url);
        lemma_with_present(m6, "long_archive_url"@, self.long_archive_url);
        let m8 = with_present(m7, "status"@, self.status);
        lemma_with_present(m7, "status"@, self.status);
        let m9 = with_present(m8, "emails_sent"@, self.emails_sent);
        lemma_with_present(m8, "emails_sent"@, self.emails_sent);
        let m10 = with_present(m9, "send_time"@, self.send_time);
        lemma_with_present(m9, "send_time"@, self.send_time);
        let m11 = with_present(m10, "content_type"@, self.content_type);
        lemma_with_present(m10, "content_type"@, self.content_type);
        let m12 = with_present(m11, "needs_block_refresh"@, self.needs_block_refresh);
        lemma_with_present(m11, "needs_block_refresh"@, self.needs_block_refresh);
        let m13 = with_present(m12, "has_logo_merge_tag"@, self.has_logo_merge_tag);
        lemma_with_present(m12, "has_logo_merge_tag"@, self.has_logo_merge_tag);
        let m14 = with_present(m13, "resendable"@, self.resendable);
        lemma_with_present(m13, "resendable"@, self.resendable);
        let m15 = with_present(m14, "recipients"@, self.recipients);
        lemma_with_present(m14, "recipients"@, self.recipients);
        let m16 = with_present(m15, "settings"@, self.settings);
        lemma_with_present(m15, "settings"@, self.settings);
        let m17 = with_present(m16, "variate_settings"@, self.variate_settings);
        lemma_with_present(m16, "variate_settings"@, self.variate_settings);
        let m18 = with_present(m17, "tracking"@, self.tracking);
        lemma_with_present(m17, "tracking"@, self.tracking);
        let m19 = with_present(m18, "rss_opts"@, self.rss_opts);
        lemma_with_present(m18, "rss_opts"@, self.rss_opts);
        let m20 = with_present(m19, "ab_split_opts"@, self.ab_split_opts);
        lemma_with_present(m19, "ab_split_opts"@, self.ab_split_opts);
        let m21 = with_present(m20, "social_card"@, self.social_card);
        lemma_with_present(m20, "social_card"@, self.social_card);
        let m22 = with_present(m21, "report_summary"@, self.report_summary);
        lemma_with_present(m21, "report_summary"@, self.report_summary);
        let m23 = with_present(m22, "delivery_status"@, self.delivery_status);
        lemma_with_present(m22, "delivery_status"@, self.delivery_status);
        let m24 = with_present(m23, "_links"@, self._links);
        lemma_with_present(m23, "_links"@, self._links);
        let members = m24;
        assert(self.encoding() == JsonTree::Object(members));
        lemma_optional_member_round_trip(members, "id"@, self.id);
        lemma_optional_member_round_trip(members, "web_id"@, self.web_id);
        lemma_optional_member_round_trip(members, "parent_campaign_id"@, self.parent_campaign_id);
        lemma_optional_member_round_trip(members, "type"@, self.campaign_type);
        lemma_optional_member_round_trip(members, "create_time"@, self.create_time);
        lemma_optional_member_round_trip(members, "archive_url"@, self.archive_url);
        lemma_optional_member_round_trip(members, "long_archive_url"@, self.long_archive_url);
        lemma_optional_member_round_trip(members, "status"@, self.status);
        lemma_optional_member_round_trip(members, "emails_sent"@, self.emails_sent);
        lemma_optional_member_round_trip(members, "send_time"@, self.send_time);
        lemma_optional_member_round_trip(members, "content_type"@, self.content_type);
        lemma_optional_member_round_trip(members, "needs_block_refresh"@, self.needs_block_refresh);
        lemma_optional_member_round_trip(members, "has_logo_merge_tag"@, self.has_logo_merge_tag);
        lemma_optional_member_round_trip(members, "resendable"@, self.resendable);
        lemma_optional_member_round_trip(members, "recipients"@, self.recipients);
        lemma_optional_member_round_trip(members, "settings"@, self.settings);
        lemma_optional_member_round_trip(members, "variate_settings"@, self.variate_settings);
        lemma_optional_member_round_trip(members, "tracking"@, self.tracking);
        lemma_optional_member_round_trip(members, "rss_opts"@, self.rss_opts);
        lemma_optional_member_round_trip(members, "ab_split_opts"@, self.ab_split_opts);
        lemma_optional_member_round_trip(members, "social_card"@, self.social_card);
        lemma_optional_member_round_trip(members, "report_summary"@, self.report_summary);
        lemma_optional_member_round_trip(members, "delivery_status"@, self.delivery_status);
        lemma_optional_member_round_trip(members, "_links"@, self._links);
    }
}

/// One page of the campaigns of an account.
#[derive(Debug, Clone)]
pub struct CampaignsType<'a, R: HttpReq> {
    /// The campaigns of this page.
    pub campaigns: Vec<CampaignType<'a, R>>,
    /// The number of campaigns that match, over all pages.
    pub total_items: u32,
    /// Links to related resources and schema documents.
    pub _links: Vec<LinkType>,
}

impl<'a, R: HttpReq> CampaignsType<'a, R> {
    /// Whether this is the default page.
    pub open spec fn is_default(&self) -> bool {
        &&& self.campaigns@.len() == 0
        &&& self.total_items == 0
        &&& self._links@.len() == 0
    }
}

impl<'a, R: HttpReq> Default for CampaignsType<'a, R> {
    fn default() -> (r: Self)
        ensures
            r.is_default(),
    {
        CampaignsType {
            campaigns: Vec::new(),
            total_items: 0,
            _links: Vec::new(),
        }
    }
}

impl<'a, R: HttpReq> FromJson for CampaignsType<'a, R> {
    /// An object; every member may be absent.
    open spec fn decodable(tree: JsonTree) -> bool {
        &&& tree is Object
        &&& field_ok::<Vec<CampaignType<'a, R>>>(tree, "campaigns"@)
        &&& field_ok::<u32>(tree, "total_items"@)
        &&& field_ok::<Vec<LinkType>>(tree, "_links"@)
    }

    open spec fn decodes_to(tree: JsonTree, value: Self) -> bool {
        &&& field_is::<Vec<CampaignType<'a, R>>>(tree, "campaigns"@, value.campaigns)
        &&& field_is::<u32>(tree, "total_items"@, value.total_items)
        &&& field_is::<Vec<LinkType>>(tree, "_links"@, value._links)
    }

    open spec fn is_absent(value: Self) -> bool {
        value.is_default()
    }

    fn from_json(json: &Json) -> (r: Option<Self>) {
        if json.kind() != JsonKind::Object {
            return None;
        }
        let campaigns = read::<Vec<CampaignType<'a, R>>>(json, "campaigns")?;
        let total_items = read::<u32>(json, "total_items")?;
        let _links = read::<Vec<LinkType>>(json, "_links")?;
        Some(
            CampaignsType {
                campaigns,
                total_items,
                _links,
            },
        )
    }

    fn absent() -> (r: Self) {
        CampaignsType::default()
    }
}

impl<'a, R: HttpReq> ToJson for CampaignsType<'a, R> {
    open spec fn encoding(&self) -> JsonTree {
        let m = Map::<Seq<char>, JsonTree>::empty();
        let m = m.insert("campaigns"@, self.campaigns.encoding());
        let m = m.insert("total_items"@, self.total_items.encoding());
        let m = m.insert("_links"@, self._links.encoding());
        JsonTree::Object(m)
    }

    fn to_json(&self) -> (r: Json) {
        let mut json = Json::empty_object();
        store(&mut json, "campaigns", &self.campaigns);
        store(&mut json, "total_items", &self.total_items);
        store(&mut json, "_links", &self._links);
        json
    }
}

impl<'a, R: HttpReq> RoundTrip for CampaignsType<'a, R> {
    /// Every member is writable.
    open spec fn writable(&self) -> bool {
        &&& self.campaigns.writable()
        &&& self._links.writable()
    }

    proof fn lemma_round_trip(&self) {
        reveal_strlit("campaigns");
        reveal_strlit("total_items");
        reveal_strlit("_links");
        assert("campaigns"@.len() == 9);
        assert("total_items"@.len() == 11);
        assert("_links"@.len() == 6);
        let m0 = Map::<Seq<char>, JsonTree>::empty();
        let m1 = m0.insert("campaigns"@, self.campaigns.encoding());
        let m2 = m1.insert("total_items"@, self.total_items.encoding());
        let m3 = m2.insert("_links"@, self._links.encoding());
        let members = m3;
        assert(self.encoding() == JsonTree::Object(members));
        lemma_member_round_trip(members, "campaigns"@, self.campaigns);
        lemma_member_round_trip(members, "total_items"@, self.total_items);
        lemma_member_round_trip(members, "_links"@, self._links);
    }
}

impl<'a, R: HttpReq> CampaignType<'a, R> {
    /// Sets the client that reached the campaign.
    pub fn set_api(&mut self, n_api: &'a MailchimpApi<R>)
        ensures
            final(self)._api == Some(n_api),
            *final(self) == (CampaignType { _api: final(self)._api, ..*old(self) }),
    {
        self._api = Some(n_api);
    }
}

impl<'a, R: HttpReq> MailchimpCollection<CampaignType<'a, R>> for CampaignsType<'a, R> {
    open spec fn total(&self) -> u64 {
        self.total_items as u64
    }

    open spec fn values(&self) -> Seq<CampaignType<'a, R>> {
        self.campaigns@
    }

    fn get_total_items(&self) -> (r: u64) {
        self.total_items as u64
    }

    fn get_values(self) -> (r: Vec<CampaignType<'a, R>>) {
        self.campaigns
    }
}

} // verus!
