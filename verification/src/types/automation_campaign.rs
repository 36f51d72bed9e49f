//! Records of automation workflows and of the campaigns and emails that
//! belong to them.

use crate::codec::{field_is, field_ok, FromJson, read, store, store_present, ToJson, with_present};
use crate::decimal::Decimal;
use crate::json::{Json, JsonKind, JsonTree};
use crate::round_trip::{lemma_member_round_trip, lemma_optional_member_round_trip,
    lemma_with_present, RoundTrip, writable_if_present};
use crate::types::ecommerce::ECommerceReportType;
use crate::types::link::LinkType;
use vstd::prelude::*;

verus! {

/// One condition of a segment.
#[derive(Debug, Clone)]
pub struct SegmentConditionsType {
    /// The kind of condition, such as a date, a language or a static segment.
    pub condition_type: String,
}

impl SegmentConditionsType {
    /// Whether this is the default condition.
    pub open spec fn is_default(&self) -> bool {
        &&& self.condition_type@.len() == 0
    }
}

impl Default for SegmentConditionsType {
    fn default() -> (r: Self)
        ensures
            r.is_default(),
    {
        SegmentConditionsType {
            condition_type: String::new(),
        }
    }
}

impl FromJson for SegmentConditionsType {
    /// An object; every member may be absent.
    open spec fn decodable(tree: JsonTree) -> bool {
        &&& tree is Object
        &&& field_ok::<String>(tree, "condition_type"@)
    }

    open spec fn decodes_to(tree: JsonTree, value: Self) -> bool {
        &&& field_is::<String>(tree, "condition_type"@, value.condition_type)
    }

    open spec fn is_absent(value: Self) -> bool {
        value.is_default()
    }

    fn from_json(json: &Json) -> (r: Option<Self>) {
        if json.kind() != JsonKind::Object {
            return None;
        }
        let condition_type = read::<String>(json, "condition_type")?;
        Some(
            SegmentConditionsType {
                condition_type,
            },
        )
    }

    fn absent() -> (r: Self) {
        SegmentConditionsType::default()
    }
}

impl ToJson for SegmentConditionsType {
    open spec fn encoding(&self) -> JsonTree {
        let m = Map::<Seq<char>, JsonTree>::empty();
        let m = m.insert("condition_type"@, self.condition_type.encoding());
        JsonTree::Object(m)
    }

    fn to_json(&self) -> (r: Json) {
        let mut json = Json::empty_object();
        store(&mut json, "condition_type", &self.condition_type);
        json
    }
}

impl RoundTrip for SegmentConditionsType {
    open spec fn writable(&self) -> bool {
        true
    }

    proof fn lemma_round_trip(&self) {
        reveal_strlit("condition_type");
        assert("condition_type"@.len() == 14);
        let m0 = Map::<Seq<char>, JsonTree>::empty();
        let m1 = m0.insert("condition_type"@, self.condition_type.encoding());
        let members = m1;
        assert(self.encoding() == JsonTree::Object(members));
        lemma_member_round_trip(members, "condition_type"@, self.condition_type);
    }
}

/// How the recipients of a campaign are narrowed down to a segment.
#[derive(Debug, Clone)]
pub struct SegmentOptionsType {
    /// The saved segment to use.
    pub saved_segment_id: u64,
    /// The prebuilt segment to use, if one was chosen.
    pub prebuilt_segment_id: String,
    /// Whether any or all conditions have to hold.
    pub match_filter: String,
    /// The conditions of the segment.
    pub conditions: Vec<SegmentConditionsType>,
}

impl SegmentOptionsType {
    /// Whether this is the default set of options.
    pub open spec fn is_default(&self) -> bool {
        &&& self.saved_segment_id == 0
        &&& self.prebuilt_segment_id@.len() == 0
        &&& self.match_filter@.len() == 0
        &&& self.conditions@.len() == 0
    }
}

impl Default for SegmentOptionsType {
    fn default() -> (r: Self)
        ensures
            r.is_default(),
    {
        SegmentOptionsType {
            saved_segment_id: 0,
            prebuilt_segment_id: String::new(),
            match_filter: String::new(),
            conditions: Vec::new(),
        }
    }
}

impl FromJson for SegmentOptionsType {
    /// An object; every member may be absent.
    open spec fn decodable(tree: JsonTree) -> bool {
        &&& tree is Object
        &&& field_ok::<u64>(tree, "saved_segment_id"@)
        &&& field_ok::<String>(tree, "prebuilt_segment_id"@)
        &&& field_ok::<String>(tree, "match"@)
        &&& field_ok::<Vec<SegmentConditionsType>>(tree, "conditions"@)
    }

    open spec fn decodes_to(tree: JsonTree, value: Self) -> bool {
        &&& field_is::<u64>(tree, "saved_segment_id"@, value.saved_segment_id)
        &&& field_is::<String>(tree, "prebuilt_segment_id"@, value.prebuilt_segment_id)
        &&& field_is::<String>(tree, "match"@, value.match_filter)
        &&& field_is::<Vec<SegmentConditionsType>>(tree, "conditions"@, value.conditions)
    }

    open spec fn is_absent(value: Self) -> bool {
        value.is_default()
    }

    fn from_json(json: &Json) -> (r: Option<Self>) {
        if json.kind() != JsonKind::Object {
            return None;
        }
        let saved_segment_id = read::<u64>(json, "saved_segment_id")?;
        let prebuilt_segment_id = read::<String>(json, "prebuilt_segment_id")?;
        let match_filter = read::<String>(json, "match")?;
        let conditions = read::<Vec<SegmentConditionsType>>(json, "conditions")?;
        Some(
            SegmentOptionsType {
                saved_segment_id,
                prebuilt_segment_id,
                match_filter,
                conditions,
            },
        )
    }

    fn absent() -> (r: Self) {
        SegmentOptionsType::default()
    }
}

impl ToJson for SegmentOptionsType {
    open spec fn encoding(&self) -> JsonTree {
        let m = Map::<Seq<char>, JsonTree>::empty();
        let m = m.insert("saved_segment_id"@, self.saved_segment_id.encoding());
        let m = m.insert("prebuilt_segment_id"@, self.prebuilt_segment_id.encoding());
        let m = m.insert("match"@, self.match_filter.encoding());
        let m = m.insert("conditions"@, self.conditions.encoding());
        JsonTree::Object(m)
    }

    fn to_json(&self) -> (r: Json) {
        let mut json = Json::empty_object();
        store(&mut json, "saved_segment_id", &self.saved_segment_id);
        store(&mut json, "prebuilt_segment_id", &self.prebuilt_segment_id);
        store(&mut json, "match", &self.match_filter);
        store(&mut json, "conditions", &self.conditions);
        json
    }
}

impl RoundTrip for SegmentOptionsType {
    /// Every member is writable.
    open spec fn writable(&self) -> bool {
        &&& self.conditions.writable()
    }

    proof fn lemma_round_trip(&self) {
        reveal_strlit("saved_segment_id");
        reveal_strlit("prebuilt_segment_id");
        reveal_strlit("match");
        reveal_strlit("conditions");
        assert("saved_segment_id"@.len() == 16);
        assert("prebuilt_segment_id"@.len() == 19);
        assert("match"@.len() == 5);
        assert("conditions"@.len() == 10);
        let m0 = Map::<Seq<char>, JsonTree>::empty();
        let m1 = m0.insert("saved_segment_id"@, self.saved_segment_id.encoding());
        let m2 = m1.insert("prebuilt_segment_id"@, self.prebuilt_segment_id.encoding());
        let m3 = m2.insert("match"@, self.match_filter.encoding());
        let m4 = m3.insert("conditions"@, self.conditions.encoding());
        let members = m4;
        assert(self.encoding() == JsonTree::Object(members));
        lemma_member_round_trip(members, "saved_segment_id"@, self.saved_segment_id);
        lemma_member_round_trip(members, "prebuilt_segment_id"@, self.prebuilt_segment_id);
        lemma_member_round_trip(members, "match"@, self.match_filter);
        lemma_member_round_trip(members, "conditions"@, self.conditions);
    }
}

/// The delay of an automation email. The default delay has every member
/// present: amount zero, the texts empty.
#[derive(Debug, Clone)]
pub struct AutomationDelayType {
    /// The length of the delay.
    pub amount: Option<u64>,
    /// The unit of the delay.
    pub delay_type: Option<String>,
    /// Whether the delay counts before or after the action.
    pub direction: Option<String>,
    /// The action that starts the delay.
    pub action: Option<String>,
}

impl AutomationDelayType {
    /// Whether this is the default delay.
    pub open spec fn is_default(&self) -> bool {
        &&& self.amount == Some(0u64)
        &&& self.delay_type.deep_view() == Some(Seq::<char>::empty())
        &&& self.direction.deep_view() == Some(Seq::<char>::empty())
        &&& self.action.deep_view() == Some(Seq::<char>::empty())
    }
}

impl Default for AutomationDelayType {
    fn default() -> (r: Self)
        ensures
            r.is_default(),
    {
        AutomationDelayType {
            amount: Some(0),
            delay_type: Some(String::new()),
            direction: Some(String::new()),
            action: Some(String::new()),
        }
    }
}

impl FromJson for AutomationDelayType {
    /// An object; every member may be absent.
    open spec fn decodable(tree: JsonTree) -> bool {
        &&& tree is Object
        &&& field_ok::<Option<u64>>(tree, "amount"@)
        &&& field_ok::<Option<String>>(tree, "type"@)
        &&& field_ok::<Option<String>>(tree, "direction"@)
        &&& field_ok::<Option<String>>(tree, "action"@)
    }

    open spec fn decodes_to(tree: JsonTree, value: Self) -> bool {
        &&& field_is::<Option<u64>>(tree, "amount"@, value.amount)
        &&& field_is::<Option<String>>(tree, "type"@, value.delay_type)
        &&& field_is::<Option<String>>(tree, "direction"@, value.direction)
        &&& field_is::<Option<String>>(tree, "action"@, value.action)
    }

    open spec fn is_absent(value: Self) -> bool {
        value.is_default()
    }

    fn from_json(json: &Json) -> (r: Option<Self>) {
        if json.kind() != JsonKind::Object {
            return None;
        }
        let amount = read::<Option<u64>>(json, "amount")?;
        let delay_type = read::<Option<String>>(json, "type")?;
        let direction = read::<Option<String>>(json, "direction")?;
        let action = read::<Option<String>>(json, "action")?;
        Some(
            AutomationDelayType {
                amount,
                delay_type,
                direction,
                action,
            },
        )
    }

    fn absent() -> (r: Self) {
        AutomationDelayType::default()
    }
}

impl ToJson for AutomationDelayType {
    open spec fn encoding(&self) -> JsonTree {
        let m = Map::<Seq<char>, JsonTree>::empty();
        let m = with_present(m, "amount"@, self.amount);
        let m = with_present(m, "type"@, self.delay_type);
        let m = with_present(m, "direction"@, self.direction);
        let m = with_present(m, "action"@, self.action);
        JsonTree::Object(m)
    }

    fn to_json(&self) -> (r: Json) {
        let mut json = Json::empty_object();
        store_present(&mut json, "amount", &self.amount);
        store_present(&mut json, "type", &self.delay_type);
        store_present(&mut json, "direction", &self.direction);
        store_present(&mut json, "action", &self.action);
        json
    }
}

impl RoundTrip for AutomationDelayType {
    open spec fn writable(&self) -> bool {
        true
    }

    proof fn lemma_round_trip(&self) {
        reveal_strlit("amount");
        reveal_strlit("type");
        reveal_strlit("direction");
        reveal_strlit("action");
        assert("amount"@.len() == 6);
        assert("type"@.len() == 4);
        assert("direction"@.len() == 9);
        assert("action"@.len() == 6);
        assert("amount"@[1] != "action"@[1]);
        let m0 = Map::<Seq<char>, JsonTree>::empty();
        let m1 = with_present(m0, "amount"@, self.amount);
        lemma_with_present(m0, "amount"@, self.amount);
        let m2 = with_present(m1, "type"@, self.delay_type);
        lemma_with_present(m1, "type"@, self.delay_type);
        let m3 = with_present(m2, "direction"@, self.direction);
        lemma_with_present(m2, "direction"@, self.direction);
        let m4 = with_present(m3, "action"@, self.action);
        lemma_with_present(m3, "action"@, self.action);
        let members = m4;
        assert(self.encoding() == JsonTree::Object(members));
        lemma_optional_member_round_trip(members, "amount"@, self.amount);
        lemma_optional_member_round_trip(members, "type"@, self.delay_type);
        lemma_optional_member_round_trip(members, "direction"@, self.direction);
        lemma_optional_member_round_trip(members, "action"@, self.action);
    }
}

/// The list that a campaign or automation is sent to.
#[derive(Debug, Clone)]
pub struct RecipientType {
    /// The list.
    pub list_id: Option<String>,
    /// Whether the list is in use: not deleted and not disabled.
    pub list_is_active: Option<bool>,
    /// The name of the list.
    pub list_name: Option<String>,
    /// A description of the segment, marked up with HTML.
    pub segment_text: Option<String>,
    /// The number of recipients on the list.
    pub recipient_count: Option<u64>,
    /// The options of the segment.
    pub segment_opts: Option<SegmentOptionsType>,
    /// The store.
    pub store_id: Option<String>,
}

impl RecipientType {
    /// Whether this is the default recipient setting.
    pub open spec fn is_default(&self) -> bool {
        &&& self.list_id is None
        &&& self.list_is_active is None
        &&& self.list_name is None
        &&& self.segment_text is None
        &&& self.recipient_count is None
        &&& self.segment_opts is None
        &&& self.store_id is None
    }

    /// The recipient setting with which an automation is created: the list
    /// and the store.
    pub fn create(list_id: &str, store_id: &str) -> (r: Self)
        ensures
            r.list_id.deep_view() == Some(list_id@),
            r.list_is_active is None,
            r.list_name is None,
            r.segment_text is None,
            r.recipient_count is None,
            r.segment_opts is None,
            r.store_id.deep_view() == Some(store_id@),
    {
        RecipientType {
            list_id: Some(String::from_str(list_id)),
            list_is_active: None,
            list_name: None,
            segment_text: None,
            recipient_count: None,
            segment_opts: None,
            store_id: Some(String::from_str(store_id)),
        }
    }
}

impl Default for RecipientType {
    fn default() -> (r: Self)
        ensures
            r.is_default(),
    {
        RecipientType {
            list_id: None,
            list_is_active: None,
            list_name: None,
            segment_text: None,
            recipient_count: None,
            segment_opts: None,
            store_id: None,
        }
    }
}

impl FromJson for RecipientType {
    /// An object; every member may be absent.
    open spec fn decodable(tree: JsonTree) -> bool {
        &&& tree is Object
        &&& field_ok::<Option<String>>(tree, "list_id"@)
        &&& field_ok::<Option<bool>>(tree, "list_is_active"@)
        &&& field_ok::<Option<String>>(tree, "list_name"@)
        &&& field_ok::<Option<String>>(tree, "segment_text"@)
        &&& field_ok::<Option<u64>>(tree, "recipient_count"@)
        &&& field_ok::<Option<SegmentOptionsType>>(tree, "segment_opts"@)
        &&& field_ok::<Option<String>>(tree, "store_id"@)
    }

    open spec fn decodes_to(tree: JsonTree, value: Self) -> bool {
        &&& field_is::<Option<String>>(tree, "list_id"@, value.list_id)
        &&& field_is::<Option<bool>>(tree, "list_is_active"@, value.list_is_active)
        &&& field_is::<Option<String>>(tree, "list_name"@, value.list_name)
        &&& field_is::<Option<String>>(tree, "segment_text"@, value.segment_text)
        &&& field_is::<Option<u64>>(tree, "recipient_count"@, value.recipient_count)
        &&& field_is::<Option<SegmentOptionsType>>(tree, "segment_opts"@, value.segment_opts)
        &&& field_is::<Option<String>>(tree, "store_id"@, value.store_id)
    }

    open spec fn is_absent(value: Self) -> bool {
        value.is_default()
    }

    fn from_json(json: &Json) -> (r: Option<Self>) {
        if json.kind() != JsonKind::Object {
            return None;
        }
        let list_id = read::<Option<String>>(json, "list_id")?;
        let list_is_active = read::<Option<bool>>(json, "list_is_active")?;
        let list_name = read::<Option<String>>(json, "list_name")?;
        let segment_text = read::<Option<String>>(json, "segment_text")?;
        let recipient_count = read::<Option<u64>>(json, "recipient_count")?;
        let segment_opts = read::<Option<SegmentOptionsType>>(json, "segment_opts")?;
        let store_id = read::<Option<String>>(json, "store_id")?;
        Some(
            RecipientType {
                list_id,
                list_is_active,
                list_name,
                segment_text,
                recipient_count,
                segment_opts,
                store_id,
            },
        )
    }

    fn absent() -> (r: Self) {
        RecipientType::default()
    }
}

impl ToJson for RecipientType {
    open spec fn encoding(&self) -> JsonTree {
        let m = Map::<Seq<char>, JsonTree>::empty();
        let m = with_present(m, "list_id"@, self.list_id);
        let m = with_present(m, "list_is_active"@, self.list_is_active);
        let m = with_present(m, "list_name"@, self.list_name);
        let m = with_present(m, "segment_text"@, self.segment_text);
        let m = with_present(m, "recipient_count"@, self.recipient_count);
        let m = with_present(m, "segment_opts"@, self.segment_opts);
        let m = with_present(m, "store_id"@, self.store_id);
        JsonTree::Object(m)
    }

    fn to_json(&self) -> (r: Json) {
        let mut json = Json::empty_object();
        store_present(&mut json, "list_id", &self.list_id);
        store_present(&mut json, "list_is_active", &self.list_is_active);
        store_present(&mut json, "list_name", &self.list_name);
        store_present(&mut json, "segment_text", &self.segment_text);
        store_present(&mut json, "recipient_count", &self.recipient_count);
        store_present(&mut json, "segment_opts", &self.segment_opts);
        store_present(&mut json, "store_id", &self.store_id);
        json
    }
}

impl RoundTrip for RecipientType {
    /// Every member is writable.
    open spec fn writable(&self) -> bool {
        &&& writable_if_present(self.segment_opts)
    }

    proof fn lemma_round_trip(&self) {
        reveal_strlit("list_id");
        reveal_strlit("list_is_active");
        reveal_strlit("list_name");
        reveal_strlit("segment_text");
        reveal_strlit("recipient_count");
        reveal_strlit("segment_opts");
        reveal_strlit("store_id");
        assert("list_id"@.len() == 7);
        assert("list_is_active"@.len() == 14);
        assert("list_name"@.len() == 9);
        assert("segment_text"@.len() == 12);
        assert("recipient_count"@.len() == 15);
        assert("segment_opts"@.len() == 12);
        assert("store_id"@.len() == 8);
        assert("segment_text"@[8] != "segment_opts"@[8]);
        let m0 = Map::<Seq<char>, JsonTree>::empty();
        let m1 = with_present(m0, "list_id"@, self.list_id);
        lemma_with_present(m0, "list_id"@, self.list_id);
        let m2 = with_present(m1, "list_is_active"@, self.list_is_active);
        lemma_with_present(m1, "list_is_active"@, self.list_is_active);
        let m3 = with_present(m2, "list_name"@, self.list_name);
        lemma_with_present(m2, "list_name"@, self.list_name);
        let m4 = with_present(m3, "segment_text"@, self.segment_text);
        lemma_with_present(m3, "segment_text"@, self.segment_text);
        let m5 = with_present(m4, "recipient_count"@, self.recipient_count);
        lemma_with_present(m4, "recipient_count"@, self.recipient_count);
        let m6 = with_present(m5, "segment_opts"@, self.segment_opts);
        lemma_with_present(m5, "segment_opts"@, self.segment_opts);
        let m7 = with_present(m6, "store_id"@, self.store_id);
        lemma_with_present(m6, "store_id"@, self.store_id);
        let members = m7;
        assert(self.encoding() == JsonTree::Object(members));
        lemma_optional_member_round_trip(members, "list_id"@, self.list_id);
        lemma_optional_member_round_trip(members, "list_is_active"@, self.list_is_active);
        lemma_optional_member_round_trip(members, "list_name"@, self.list_name);
        lemma_optional_member_round_trip(members, "segment_text"@, self.segment_text);
        lemma_optional_member_round_trip(members, "recipient_count"@, self.recipient_count);
        lemma_optional_member_round_trip(members, "segment_opts"@, self.segment_opts);
        lemma_optional_member_round_trip(members, "store_id"@, self.store_id);
    }
}

/// Tracking through a connected Salesforce account.
#[derive(Debug, Clone)]
pub struct SalesforceCRMTrackingType {
    /// Whether a campaign is created in the Salesforce account.
    pub campaign: bool,
    /// Whether contact notes are updated by email address.
    pub notes: bool,
}

impl SalesforceCRMTrackingType {
    /// Whether this is the default setting.
    pub open spec fn is_default(&self) -> bool {
        &&& !self.campaign
        &&& !self.notes
    }
}

impl Default for SalesforceCRMTrackingType {
    fn default() -> (r: Self)
        ensures
            r.is_default(),
    {
        SalesforceCRMTrackingType {
            campaign: false,
            notes: false,
        }
    }
}

impl FromJson for SalesforceCRMTrackingType {
    /// An object; every member may be absent.
    open spec fn decodable(tree: JsonTree) -> bool {
        &&& tree is Object
        &&& field_ok::<bool>(tree, "campaign"@)
        &&& field_ok::<bool>(tree, "notes"@)
    }

    open spec fn decodes_to(tree: JsonTree, value: Self) -> bool {
        &&& field_is::<bool>(tree, "campaign"@, value.campaign)
        &&& field_is::<bool>(tree, "notes"@, value.notes)
    }

    open spec fn is_absent(value: Self) -> bool {
        value.is_default()
    }

    fn from_json(json: &Json) -> (r: Option<Self>) {
        if json.kind() != JsonKind::Object {
            return None;
        }
        let campaign = read::<bool>(json, "campaign")?;
        let notes = read::<bool>(json, "notes")?;
        Some(
            SalesforceCRMTrackingType {
                campaign,
                notes,
            },
        )
    }

    fn absent() -> (r: Self) {
        SalesforceCRMTrackingType::default()
    }
}

impl ToJson for SalesforceCRMTrackingType {
    open spec fn encoding(&self) -> JsonTree {
        let m = Map::<Seq<char>, JsonTree>::empty();
        let m = m.insert("campaign"@, self.campaign.encoding());
        let m = m.insert("notes"@, self.notes.encoding());
        JsonTree::Object(m)
    }

    fn to_json(&self) -> (r: Json) {
        let mut json = Json::empty_object();
        store(&mut json, "campaign", &self.campaign);
        store(&mut json, "notes", &self.notes);
        json
    }
}

impl RoundTrip for SalesforceCRMTrackingType {
    open spec fn writable(&self) -> bool {
        true
    }

    proof fn lemma_round_trip(&self) {
        reveal_strlit("campaign");
        reveal_strlit("notes");
        assert("campaign"@.len() == 8);
        assert("notes"@.len() == 5);
        let m0 = Map::<Seq<char>, JsonTree>::empty();
        let m1 = m0.insert("campaign"@, self.campaign.encoding());
        let m2 = m1.insert("notes"@, self.notes.encoding());
        let members = m2;
        assert(self.encoding() == JsonTree::Object(members));
        lemma_member_round_trip(members, "campaign"@, self.campaign);
        lemma_member_round_trip(members, "notes"@, self.notes);
    }
}

/// Tracking through a connected Capsule account.
#[derive(Debug, Clone)]
pub struct CapsuleCRMTrackingType {
    /// Whether contact notes are updated by email address.
    pub notes: bool,
}

impl CapsuleCRMTrackingType {
    /// Whether this is the default setting.
    pub open spec fn is_default(&self) -> bool {
        &&& !self.notes
    }
}

impl Default for CapsuleCRMTrackingType {
    fn default() -> (r: Self)
        ensures
            r.is_default(),
    {
        CapsuleCRMTrackingType {
            notes: false,
        }
    }
}

impl FromJson for CapsuleCRMTrackingType {
    /// An object; every member may be absent.
    open spec fn decodable(tree: JsonTree) -> bool {
        &&& tree is Object
        &&& field_ok::<bool>(tree, "notes"@)
    }

    open spec fn decodes_to(tree: JsonTree, value: Self) -> bool {
        &&& field_is::<bool>(tree, "notes"@, value.notes)
    }

    open spec fn is_absent(value: Self) -> bool {
        value.is_default()
    }

    fn from_json(json: &Json) -> (r: Option<Self>) {
        if json.kind() != JsonKind::Object {
            return None;
        }
        let notes = read::<bool>(json, "notes")?;
        Some(
            CapsuleCRMTrackingType {
                notes,
            },
        )
    }

    fn absent() -> (r: Self) {
        CapsuleCRMTrackingType::default()
    }
}

impl ToJson for CapsuleCRMTrackingType {
    open spec fn encoding(&self) -> JsonTree {
        let m = Map::<Seq<char>, JsonTree>::empty();
        let m = m.insert("notes"@, self.notes.encoding());
        JsonTree::Object(m)
    }

    fn to_json(&self) -> (r: Json) {
        let mut json = Json::empty_object();
        store(&mut json, "notes", &self.notes);
        json
    }
}

impl RoundTrip for CapsuleCRMTrackingType {
    open spec fn writable(&self) -> bool {
        true
    }

    proof fn lemma_round_trip(&self) {
        reveal_strlit("notes");
        assert("notes"@.len() == 5);
        let m0 = Map::<Seq<char>, JsonTree>::empty();
        let m1 = m0.insert("notes"@, self.notes.encoding());
        let members = m1;
        assert(self.encoding() == JsonTree::Object(members));
        lemma_member_round_trip(members, "notes"@, self.notes);
    }
}

/// What became of the mail that a campaign sent.
#[derive(Debug, Clone)]
pub struct CampaignReportSummaryType {
    /// How often the mail was opened.
    pub opens: u64,
    /// How many recipients opened the mail.
    pub unique_opens: u64,
    /// The recipients who opened, as a share of the mail delivered.
    pub open_rate: Decimal,
    /// How often a link was clicked.
    pub clicks: u64,
    /// How many recipients clicked a link.
    pub subscriber_clicks: u64,
    /// The recipients who clicked, as a share of the mail delivered.
    pub click_rate: Decimal,
    /// The e-commerce figures.
    pub ecommerce: Option<ECommerceReportType>,
}

impl CampaignReportSummaryType {
    /// Whether this is the default summary.
    pub open spec fn is_default(&self) -> bool {
        &&& self.opens == 0
        &&& self.unique_opens == 0
        &&& self.open_rate.is_zero()
        &&& self.clicks == 0
        &&& self.subscriber_clicks == 0
        &&& self.click_rate.is_zero()
        &&& self.ecommerce is None
    }
}

impl Default for CampaignReportSummaryType {
    fn default() -> (r: Self)
        ensures
            r.is_default(),
    {
        CampaignReportSummaryType {
            opens: 0,
            unique_opens: 0,
            open_rate: Decimal::default(),
            clicks: 0,
            subscriber_clicks: 0,
            click_rate: Decimal::default(),
            ecommerce: None,
        }
    }
}

impl FromJson for CampaignReportSummaryType {
    /// An object; every member may be absent.
    open spec fn decodable(tree: JsonTree) -> bool {
        &&& tree is Object
        &&& field_ok::<u64>(tree, "opens"@)
        &&& field_ok::<u64>(tree, "unique_opens"@)
        &&& field_ok::<Decimal>(tree, "open_rate"@)
        &&& field_ok::<u64>(tree, "clicks"@)
        &&& field_ok::<u64>(tree, "subscriber_clicks"@)
        &&& field_ok::<Decimal>(tree, "click_rate"@)
        &&& field_ok::<Option<ECommerceReportType>>(tree, "ecommerce"@)
    }

    open spec fn decodes_to(tree: JsonTree, value: Self) -> bool {
        &&& field_is::<u64>(tree, "opens"@, value.opens)
        &&& field_is::<u64>(tree, "unique_opens"@, value.unique_opens)
        &&& field_is::<Decimal>(tree, "open_rate"@, value.open_rate)
        &&& field_is::<u64>(tree, "clicks"@, value.clicks)
        &&& field_is::<u64>(tree, "subscriber_clicks"@, value.subscriber_clicks)
        &&& field_is::<Decimal>(tree, "click_rate"@, value.click_rate)
        &&& field_is::<Option<ECommerceReportType>>(tree, "ecommerce"@, value.ecommerce)
    }

    open spec fn is_absent(value: Self) -> bool {
        value.is_default()
    }

    fn from_json(json: &Json) -> (r: Option<Self>) {
        if json.kind() != JsonKind::Object {
            return None;
        }
        let opens = read::<u64>(json, "opens")?;
        let unique_opens = read::<u64>(json, "unique_opens")?;
        let open_rate = read::<Decimal>(json, "open_rate")?;
        let clicks = read::<u64>(json, "clicks")?;
        let subscriber_clicks = read::<u64>(json, "subscriber_clicks")?;
        let click_rate = read::<Decimal>(json, "click_rate")?;
        let ecommerce = read::<Option<ECommerceReportType>>(json, "ecommerce")?;
        Some(
            CampaignReportSummaryType {
                opens,
                unique_opens,
                open_rate,
                clicks,
                subscriber_clicks,
                click_rate,
                ecommerce,
            },
        )
    }

    fn absent() -> (r: Self) {
        CampaignReportSummaryType::default()
    }
}

impl ToJson for CampaignReportSummaryType {
    open spec fn encoding(&self) -> JsonTree {
        let m = Map::<Seq<char>, JsonTree>::empty();
        let m = m.insert("opens"@, self.opens.encoding());
        let m = m.insert("unique_opens"@, self.unique_opens.encoding());
        let m = m.insert("open_rate"@, self.open_rate.encoding());
        let m = m.insert("clicks"@, self.clicks.encoding());
        let m = m.insert("subscriber_clicks"@, self.subscriber_clicks.encoding());
        let m = m.insert("click_rate"@, self.click_rate.encoding());
        let m = m.insert("ecommerce"@, self.ecommerce.encoding());
        JsonTree::Object(m)
    }

    fn to_json(&self) -> (r: Json) {
        let mut json = Json::empty_object();
        store(&mut json, "opens", &self.opens);
        store(&mut json, "unique_opens", &self.unique_opens);
        store(&mut json, "open_rate", &self.open_rate);
        store(&mut json, "clicks", &self.clicks);
        store(&mut json, "subscriber_clicks", &self.subscriber_clicks);
        store(&mut json, "click_rate", &self.click_rate);
        store(&mut json, "ecommerce", &self.ecommerce);
        json
    }
}

impl RoundTrip for CampaignReportSummaryType {
    /// Every member is writable.
    open spec fn writable(&self) -> bool {
        &&& self.open_rate.writable()
        &&& self.click_rate.writable()
        &&& writable_if_present(self.ecommerce)
    }

    proof fn lemma_round_trip(&self) {
        reveal_strlit("opens");
        reveal_strlit("unique_opens");
        reveal_strlit("open_rate");
        reveal_strlit("clicks");
        reveal_strlit("subscriber_clicks");
        reveal_strlit("click_rate");
        reveal_strlit("ecommerce");
        assert("opens"@.len() == 5);
        assert("unique_opens"@.len() == 12);
        assert("open_rate"@.len() == 9);
        assert("clicks"@.len() == 6);
        assert("subscriber_clicks"@.len() == 17);
        assert("click_rate"@.len() == 10);
        assert("ecommerce"@.len() == 9);
        assert("open_rate"@[0] != "ecommerce"@[0]);
        let m0 = Map::<Seq<char>, JsonTree>::empty();
        let m1 = m0.insert("opens"@, self.opens.encoding());
        let m2 = m1.insert("unique_opens"@, self.unique_opens.encoding());
        let m3 = m2.insert("open_rate"@, self.open_rate.encoding());
        let m4 = m3.insert("clicks"@, self.clicks.encoding());
        let m5 = m4.insert("subscriber_clicks"@, self.subscriber_clicks.encoding());
        let m6 = m5.insert("click_rate"@, self.click_rate.encoding());
        let m7 = m6.insert("ecommerce"@, self.ecommerce.encoding());
        let members = m7;
        assert(self.encoding() == JsonTree::Object(members));
        lemma_member_round_trip(members, "opens"@, self.opens);
        lemma_member_round_trip(members, "unique_opens"@, self.unique_opens);
        lemma_member_round_trip(members, "open_rate"@, self.open_rate);
        lemma_member_round_trip(members, "clicks"@, self.clicks);
        lemma_member_round_trip(members, "subscriber_clicks"@, self.subscriber_clicks);
        lemma_member_round_trip(members, "click_rate"@, self.click_rate);
        lemma_optional_member_round_trip(members, "ecommerce"@, self.ecommerce);
    }
}

/// What sets an automation workflow off.
#[derive(Debug, Clone)]
pub struct AutomationTriggerType {
    /// The type of the workflow.
    pub workflow_type: Option<String>,
}

impl AutomationTriggerType {
    /// Whether this is the default trigger.
    pub open spec fn is_default(&self) -> bool {
        &&& self.workflow_type is None
    }

    /// The trigger with which an automation is created: its workflow type.
    pub fn create(workflow_type: &str) -> (r: Self)
        ensures
            r.workflow_type.deep_view() == Some(workflow_type@),
    {
        AutomationTriggerType {
            workflow_type: Some(String::from_str(workflow_type)),
        }
    }
}

impl Default for AutomationTriggerType {
    fn default() -> (r: Self)
        ensures
            r.is_default(),
    {
        AutomationTriggerType {
            workflow_type: None,
        }
    }
}

impl FromJson for AutomationTriggerType {
    /// An object; every member may be absent.
    open spec fn decodable(tree: JsonTree) -> bool {
        &&& tree is Object
        &&& field_ok::<Option<String>>(tree, "workflow_type"@)
    }

    open spec fn decodes_to(tree: JsonTree, value: Self) -> bool {
        &&& field_is::<Option<String>>(tree, "workflow_type"@, value.workflow_type)
    }

    open spec fn is_absent(value: Self) -> bool {
        value.is_default()
    }

    fn from_json(json: &Json) -> (r: Option<Self>) {
        if json.kind() != JsonKind::Object {
            return None;
        }
        let workflow_type = read::<Option<String>>(json, "workflow_type")?;
        Some(
            AutomationTriggerType {
                workflow_type,
            },
        )
    }

    fn absent() -> (r: Self) {
        AutomationTriggerType::default()
    }
}

impl ToJson for AutomationTriggerType {
    open spec fn encoding(&self) -> JsonTree {
        let m = Map::<Seq<char>, JsonTree>::empty();
        let m = with_present(m, "workflow_type"@, self.workflow_type);
        JsonTree::Object(m)
    }

    fn to_json(&self) -> (r: Json) {
        let mut json = Json::empty_object();
        store_present(&mut json, "workflow_type", &self.workflow_type);
        json
    }
}

impl RoundTrip for AutomationTriggerType {
    open spec fn writable(&self) -> bool {
        true
    }

    proof fn lemma_round_trip(&self) {
        reveal_strlit("workflow_type");
        assert("workflow_type"@.len() == 13);
        let m0 = Map::<Seq<char>, JsonTree>::empty();
        let m1 = with_present(m0, "workflow_type"@, self.workflow_type);
        lemma_with_present(m0, "workflow_type"@, self.workflow_type);
        let members = m1;
        assert(self.encoding() == JsonTree::Object(members));
        lemma_optional_member_round_trip(members, "workflow_type"@, self.workflow_type);
    }
}

/// The settings of an automation or campaign: subject, sender and the like.
#[derive(Debug, Clone)]
pub struct AutomationCampaignSettingsType {
    /// The subject line.
    pub subject_line: Option<String>,
    /// The preview text.
    pub preview_text: Option<String>,
    /// The title of the automation.
    pub title: Option<String>,
    /// The name that mail is sent from (no address).
    pub from_name: Option<String>,
    /// The address that replies go to.
    pub reply_to: Option<String>,
    /// Whether the service authenticated the automation.
    pub authenticate: Option<bool>,
    /// Whether out-of-office replies are handled by the conversations
    /// feature.
    pub use_conversation: Option<bool>,
    /// The name in the `To` line, usually a merge field for the first name.
    pub to_name: Option<String>,
    /// The folder that holds the campaign, if any.
    pub folder_id: Option<String>,
    /// Whether the default footer is appended.
    pub auto_footer: Option<bool>,
    /// Whether the CSS of the content is inlined.
    pub inline_css: Option<bool>,
    /// Whether a link to the archive page is tweeted when the campaign is
    /// sent.
    pub auto_tweet: Option<bool>,
    /// The Facebook pages to post to.
    pub auto_fb_post: Option<Vec<u64>>,
    /// Whether Facebook comments are allowed on the campaign.
    pub fb_comments: Option<bool>,
    /// Whether the campaign is sent by recipient time zone.
    pub timewarp: Option<bool>,
    /// The template of the content.
    pub template_id: Option<u64>,
    /// Whether the campaign uses the drag-and-drop editor.
    pub drag_and_drop: Option<bool>,
}

impl AutomationCampaignSettingsType {
    /// Whether this is the default settings.
    pub open spec fn is_default(&self) -> bool {
        &&& self.subject_line is None
        &&& self.preview_text is None
        &&& self.title is None
        &&& self.from_name is None
        &&& self.reply_to is None
        &&& self.authenticate is None
        &&& self.use_conversation is None
        &&& self.to_name is None
        &&& self.folder_id is None
        &&& self.auto_footer is None
        &&& self.inline_css is None
        &&& self.auto_tweet is None
        &&& self.auto_fb_post is None
        &&& self.fb_comments is None
        &&& self.timewarp is None
        &&& self.template_id is None
        &&& self.drag_and_drop is None
    }

    /// The settings with which an automation is created: the sender's name
    /// and the reply address.
    pub fn create(from_name: &str, reply_to: &str) -> (r: Self)
        ensures
            r.subject_line is None,
            r.preview_text is None,
            r.title is None,
            r.from_name.deep_view() == Some(from_name@),
            r.reply_to.deep_view() == Some(reply_to@),
            r.authenticate is None,
            r.use_conversation is None,
            r.to_name is None,
            r.folder_id is None,
            r.auto_footer is None,
            r.inline_css is None,
            r.auto_tweet is None,
            r.auto_fb_post is None,
            r.fb_comments is None,
            r.timewarp is None,
            r.template_id is None,
            r.drag_and_drop is None,
    {
        AutomationCampaignSettingsType {
            subject_line: None,
            preview_text: None,
            title: None,
            from_name: Some(String::from_str(from_name)),
            reply_to: Some(String::from_str(reply_to)),
            authenticate: None,
            use_conversation: None,
            to_name: None,
            folder_id: None,
            auto_footer: None,
            inline_css: None,
            auto_tweet: None,
            auto_fb_post: None,
            fb_comments: None,
            timewarp: None,
            template_id: None,
            drag_and_drop: None,
        }
    }

    /// The settings with which an automation is updated: title, the sender's
    /// name and the reply address.
    pub fn update(title: &str, from_name: &str, reply_to: &str) -> (r: Self)
        ensures
            r.subject_line is None,
            r.preview_text is None,
            r.title.deep_view() == Some(title@),
            r.from_name.deep_view() == Some(from_name@),
            r.reply_to.deep_view() == Some(reply_to@),
            r.authenticate is None,
            r.use_conversation is None,
            r.to_name is None,
            r.folder_id is None,
            r.auto_footer is None,
            r.inline_css is None,
            r.auto_tweet is None,
            r.auto_fb_post is None,
            r.fb_comments is None,
            r.timewarp is None,
            r.template_id is None,
            r.drag_and_drop is None,
    {
        AutomationCampaignSettingsType {
            subject_line: None,
            preview_text: None,
            title: Some(String::from_str(title)),
            from_name: Some(String::from_str(from_name)),
            reply_to: Some(String::from_str(reply_to)),
            authenticate: None,
            use_conversation: None,
            to_name: None,
            folder_id: None,
            auto_footer: None,
            inline_css: None,
            auto_tweet: None,
            auto_fb_post: None,
            fb_comments: None,
            timewarp: None,
            template_id: None,
            drag_and_drop: None,
        }
    }
}

impl Default for AutomationCampaignSettingsType {
    fn default() -> (r: Self)
        ensures
            r.is_default(),
    {
        AutomationCampaignSettingsType {
            subject_line: None,
            preview_text: None,
            title: None,
            from_name: None,
            reply_to: None,
            authenticate: None,
            use_conversation: None,
            to_name: None,
            folder_id: None,
            auto_footer: None,
            inline_css: None,
            auto_tweet: None,
            auto_fb_post: None,
            fb_comments: None,
            timewarp: None,
            template_id: None,
            drag_and_drop: None,
        }
    }
}

impl FromJson for AutomationCampaignSettingsType {
    /// An object; every member may be absent.
    open spec fn decodable(tree: JsonTree) -> bool {
        &&& tree is Object
        &&& field_ok::<Option<String>>(tree, "subject_line"@)
        &&& field_ok::<Option<String>>(tree, "preview_text"@)
        &&& field_ok::<Option<String>>(tree, "title"@)
        &&& field_ok::<Option<String>>(tree, "from_name"@)
        &&& field_ok::<Option<String>>(tree, "reply_to"@)
        &&& field_ok::<Option<bool>>(tree, "authenticate"@)
        &&& field_ok::<Option<bool>>(tree, "use_conversation"@)
        &&& field_ok::<Option<String>>(tree, "to_name"@)
        &&& field_ok::<Option<String>>(tree, "folder_id"@)
        &&& field_ok::<Option<bool>>(tree, "auto_footer"@)
        &&& field_ok::<Option<bool>>(tree, "inline_css"@)
        &&& field_ok::<Option<bool>>(tree, "auto_tweet"@)
        &&& field_ok::<Option<Vec<u64>>>(tree, "auto_fb_post"@)
        &&& field_ok::<Option<bool>>(tree, "fb_comments"@)
        &&& field_ok::<Option<bool>>(tree, "timewarp"@)
        &&& field_ok::<Option<u64>>(tree, "template_id"@)
        &&& field_ok::<Option<bool>>(tree, "drag_and_drop"@)
    }

    open spec fn decodes_to(tree: JsonTree, value: Self) -> bool {
        &&& field_is::<Option<String>>(tree, "subject_line"@, value.subject_line)
        &&& field_is::<Option<String>>(tree, "preview_text"@, value.preview_text)
        &&& field_is::<Option<String>>(tree, "title"@, value.title)
        &&& field_is::<Option<String>>(tree, "from_name"@, value.from_name)
        &&& field_is::<Option<String>>(tree, "reply_to"@, value.reply_to)
        &&& field_is::<Option<bool>>(tree, "authenticate"@, value.authenticate)
        &&& field_is::<Option<bool>>(tree, "use_conversation"@, value.use_conversation)
        &&& field_is::<Option<String>>(tree, "to_name"@, value.to_name)
        &&& field_is::<Option<String>>(tree, "folder_id"@, value.folder_id)
        &&& field_is::<Option<bool>>(tree, "auto_footer"@, value.auto_footer)
        &&& field_is::<Option<bool>>(tree, "inline_css"@, value.inline_css)
        &&& field_is::<Option<bool>>(tree, "auto_tweet"@, value.auto_tweet)
        &&& field_is::<Option<Vec<u64>>>(tree, "auto_fb_post"@, value.auto_fb_post)
        &&& field_is::<Option<bool>>(tree, "fb_comments"@, value.fb_comments)
        &&& field_is::<Option<bool>>(tree, "timewarp"@, value.timewarp)
        &&& field_is::<Option<u64>>(tree, "template_id"@, value.template_id)
        &&& field_is::<Option<bool>>(tree, "drag_and_drop"@, value.drag_and_drop)
    }

    open spec fn is_absent(value: Self) -> bool {
        value.is_default()
    }

    #[verifier::rlimit(40)]
    fn from_json(json: &Json) -> (r: Option<Self>) {
        if json.kind() != JsonKind::Object {
            return None;
        }
        let subject_line = read::<Option<String>>(json, "subject_line")?;
        let preview_text = read::<Option<String>>(json, "preview_text")?;
        let title = read::<Option<String>>(json, "title")?;
        let from_name = read::<Option<String>>(json, "from_name")?;
        let reply_to = read::<Option<String>>(json, "reply_to")?;
        let authenticate = read::<Option<bool>>(json, "authenticate")?;
        let use_conversation = read::<Option<bool>>(json, "use_conversation")?;
        let to_name = read::<Option<String>>(json, "to_name")?;
        let folder_id = read::<Option<String>>(json, "folder_id")?;
        let auto_footer = read::<Option<bool>>(json, "auto_footer")?;
        let inline_css = read::<Option<bool>>(json, "inline_css")?;
        let auto_tweet = read::<Option<bool>>(json, "auto_tweet")?;
        let auto_fb_post = read::<Option<Vec<u64>>>(json, "auto_fb_post")?;
        let fb_comments = read::<Option<bool>>(json, "fb_comments")?;
        let timewarp = read::<Option<bool>>(json, "timewarp")?;
        let template_id = read::<Option<u64>>(json, "template_id")?;
        let drag_and_drop = read::<Option<bool>>(json, "drag_and_drop")?;
        Some(
            AutomationCampaignSettingsType {
                subject_line,
                preview_text,
                title,
                from_name,
                reply_to,
                authenticate,
                use_conversation,
                to_name,
                folder_id,
                auto_footer,
                inline_css,
                auto_tweet,
                auto_fb_post,
                fb_comments,
                timewarp,
                template_id,
                drag_and_drop,
            },
        )
    }

    fn absent() -> (r: Self) {
        AutomationCampaignSettingsType::default()
    }
}

impl ToJson for AutomationCampaignSettingsType {
    open spec fn encoding(&self) -> JsonTree {
        let m = Map::<Seq<char>, JsonTree>::empty();
        let m = with_present(m, "subject_line"@, self.subject_line);
        let m = with_present(m, "preview_text"@, self.preview_text);
        let m = with_present(m, "title"@, self.title);
        let m = with_present(m, "from_name"@, self.from_name);
        let m = with_present(m, "reply_to"@, self.reply_to);
        let m = with_present(m, "authenticate"@, self.authenticate);
        let m = with_present(m, "use_conversation"@, self.use_conversation);
        let m = with_present(m, "to_name"@, self.to_name);
        let m = with_present(m, "folder_id"@, self.folder_id);
        let m = with_present(m, "auto_footer"@, self.auto_footer);
        let m = with_present(m, "inline_css"@, self.inline_css);
        let m = with_present(m, "auto_tweet"@, self.auto_tweet);
        let m = with_present(m, "auto_fb_post"@, self.auto_fb_post);
        let m = with_present(m, "fb_comments"@, self.fb_comments);
        let m = with_present(m, "timewarp"@, self.timewarp);
        let m = with_present(m, "template_id"@, self.template_id);
        let m = with_present(m, "drag_and_drop"@, self.drag_and_drop);
        JsonTree::Object(m)
    }

    #[verifier::rlimit(40)]
    fn to_json(&self) -> (r: Json) {
        let mut json = Json::empty_object();
        store_present(&mut json, "subject_line", &self.subject_line);
        store_present(&mut json, "preview_text", &self.preview_text);
        store_present(&mut json, "title", &self.title);
        store_present(&mut json, "from_name", &self.from_name);
        store_present(&mut json, "reply_to", &self.reply_to);
        store_present(&mut json, "authenticate", &self.authenticate);
        store_present(&mut json, "use_conversation", &self.use_conversation);
        store_present(&mut json, "to_name", &self.to_name);
        store_present(&mut json, "folder_id", &self.folder_id);
        store_present(&mut json, "auto_footer", &self.auto_footer);
        store_present(&mut json, "inline_css", &self.inline_css);
        store_present(&mut json, "auto_tweet", &self.auto_tweet);
        store_present(&mut json, "auto_fb_post", &self.auto_fb_post);
        store_present(&mut json, "fb_comments", &self.fb_comments);
        store_present(&mut json, "timewarp", &self.timewarp);
        store_present(&mut json, "template_id", &self.template_id);
        store_present(&mut json, "drag_and_drop", &self.drag_and_drop);
        json
    }
}

impl RoundTrip for AutomationCampaignSettingsType {
    open spec fn writable(&self) -> bool {
        true
    }

    #[verifier::rlimit(40)]
    proof fn lemma_round_trip(&self) {
        reveal_strlit("subject_line");
        reveal_strlit("preview_text");
        reveal_strlit("title");
        reveal_strlit("from_name");
        reveal_strlit("reply_to");
        reveal_strlit("authenticate");
        reveal_strlit("use_conversation");
        reveal_strlit("to_name");
        reveal_strlit("folder_id");
        reveal_strlit("auto_footer");
        reveal_strlit("inline_css");
        reveal_strlit("auto_tweet");
        reveal_strlit("auto_fb_post");
        reveal_strlit("fb_comments");
        reveal_strlit("timewarp");
        reveal_strlit("template_id");
        reveal_strlit("drag_and_drop");
        assert("subject_line"@.len() == 12);
        assert("preview_text"@.len() == 12);
        assert("title"@.len() == 5);
        assert("from_name"@.len() == 9);
        assert("reply_to"@.len() == 8);
        assert("authenticate"@.len() == 12);
        assert("use_conversation"@.len() == 16);
        assert("to_name"@.len() == 7);
        assert("folder_id"@.len() == 9);
        assert("auto_footer"@.len() == 11);
        assert("inline_css"@.len() == 10);
        assert("auto_tweet"@.len() == 10);
        assert("auto_fb_post"@.len() == 12);
        assert("fb_comments"@.len() == 11);
        assert("timewarp"@.len() == 8);
        assert("template_id"@.len() == 11);
        assert("drag_and_drop"@.len() == 13);
        assert("subject_line"@[0] != "preview_text"@[0]);
        assert("subject_line"@[0] != "authenticate"@[0]);
        assert("subject_line"@[0] != "auto_fb_post"@[0]);
        assert("preview_text"@[0] != "authenticate"@[0]);
        assert("preview_text"@[0] != "auto_fb_post"@[0]);
        assert("from_name"@[1] != "folder_id"@[1]);
        assert("reply_to"@[0] != "timewarp"@[0]);
        assert("authenticate"@[3] != "auto_fb_post"@[3]);
        assert("auto_footer"@[0] != "fb_comments"@[0]);
        assert("auto_footer"@[0] != "template_id"@[0]);
        assert("inline_css"@[0] != "auto_tweet"@[0]);
        assert("fb_comments"@[0] != "template_id"@[0]);
        let m0 = Map::<Seq<char>, JsonTree>::empty();
        let m1 = with_present(m0, "subject_line"@, self.subject_line);
        lemma_with_present(m0, "subject_line"@, self.subject_line);
        let m2 = with_present(m1, "preview_text"@, self.preview_text);
        lemma_with_present(m1, "preview_text"@, self.preview_text);
        let m3 = with_present(m2, "title"@, self.title);
        lemma_with_present(m2, "title"@, self.title);
        let m4 = with_present(m3, "from_name"@, self.from_name);
        lemma_with_present(m3, "from_name"@, self.from_name);
        let m5 = with_present(m4, "reply_to"@, self.reply_to);
        lemma_with_present(m4, "reply_to"@, self.reply_to);
        let m6 = with_present(m5, "authenticate"@, self.authenticate);
        lemma_with_present(m5, "authenticate"@, self.authenticate);
        let m7 = with_present(m6, "use_conversation"@, self.use_conversation);
        lemma_with_present(m6, "use_conversation"@, self.use_conversation);
        let m8 = with_present(m7, "to_name"@, self.to_name);
        lemma_with_present(m7, "to_name"@, self.to_name);
        let m9 = with_present(m8, "folder_id"@, self.folder_id);
        lemma_with_present(m8, "folder_id"@, self.folder_id);
        let m10 = with_present(m9, "auto_footer"@, self.auto_footer);
        lemma_with_present(m9, "auto_footer"@, self.auto_footer);
        let m11 = with_present(m10, "inline_css"@, self.inline_css);
        lemma_with_present(m10, "inline_css"@, self.inline_css);
        let m12 = with_present(m11, "auto_tweet"@, self.auto_tweet);
        lemma_with_present(m11, "auto_tweet"@, self.auto_tweet);
        let m13 = with_present(m12, "auto_fb_post"@, self.auto_fb_post);
        lemma_with_present(m12, "auto_fb_post"@, self.auto_fb_post);
        let m14 = with_present(m13, "fb_comments"@, self.fb_comments);
        lemma_with_present(m13, "fb_comments"@, self.fb_comments);
        let m15 = with_present(m14, "timewarp"@, self.timewarp);
        lemma_with_present(m14, "timewarp"@, self.timewarp);
        let m16 = with_present(m15, "template_id"@, self.template_id);
        lemma_with_present(m15, "template_id"@, self.template_id);
        let m17 = with_present(m16, "drag_and_drop"@, self.drag_and_drop);
        lemma_with_present(m16, "drag_and_drop"@, self.drag_and_drop);
        let members = m17;
        assert(self.encoding() == JsonTree::Object(members));
        lemma_optional_member_round_trip(members, "subject_line"@, self.subject_line);
        lemma_optional_member_round_trip(members, "preview_text"@, self.preview_text);
        lemma_optional_member_round_trip(members, "title"@, self.title);
        lemma_optional_member_round_trip(members, "from_name"@, self.from_name);
        lemma_optional_member_round_trip(members, "reply_to"@, self.reply_to);
        lemma_optional_member_round_trip(members, "authenticate"@, self.authenticate);
        lemma_optional_member_round_trip(members, "use_conversation"@, self.use_conversation);
        lemma_optional_member_round_trip(members, "to_name"@, self.to_name);
        lemma_optional_member_round_trip(members, "folder_id"@, self.folder_id);
        lemma_optional_member_round_trip(members, "auto_footer"@, self.auto_footer);
        lemma_optional_member_round_trip(members, "inline_css"@, self.inline_css);
        lemma_optional_member_round_trip(members, "auto_tweet"@, self.auto_tweet);
        lemma_optional_member_round_trip(members, "auto_fb_post"@, self.auto_fb_post);
        lemma_optional_member_round_trip(members, "fb_comments"@, self.fb_comments);
        lemma_optional_member_round_trip(members, "timewarp"@, self.timewarp);
        lemma_optional_member_round_trip(members, "template_id"@, self.template_id);
        lemma_optional_member_round_trip(members, "drag_and_drop"@, self.drag_and_drop);
    }
}

/// What is tracked of the mail of an automation or campaign. By default opens
/// and clicks are tracked; a member that a document leaves out is off.
#[derive(Debug, Clone)]
pub struct AutomationTrackingOptionsType {
    /// Whether opens are tracked.
    pub opens: bool,
    /// Whether clicks in the HTML version are tracked.
    pub html_clicks: bool,
    /// Whether clicks in the plain-text version are tracked.
    pub text_clicks: bool,
    /// Whether goals are tracked.
    pub goal_tracking: bool,
    /// Whether e-commerce tracking is on.
    pub ecomm360: bool,
    /// The slug for Google Analytics tracking.
    pub google_analytics: String,
    /// The slug for ClickTale tracking.
    pub clicktale: String,
    /// Tracking through Salesforce.
    pub salesforce: SalesforceCRMTrackingType,
    /// Tracking through Capsule.
    pub capsule: CapsuleCRMTrackingType,
}

impl AutomationTrackingOptionsType {
    /// Whether this is the default set of options.
    pub open spec fn is_default(&self) -> bool {
        &&& self.opens
        &&& self.html_clicks
        &&& self.text_clicks
        &&& !self.goal_tracking
        &&& !self.ecomm360
        &&& self.google_analytics@.len() == 0
        &&& self.clicktale@.len() == 0
        &&& self.salesforce.is_default()
        &&& self.capsule.is_default()
    }
}

impl Default for AutomationTrackingOptionsType {
    fn default() -> (r: Self)
        ensures
            r.is_default(),
    {
        AutomationTrackingOptionsType {
            opens: true,
            html_clicks: true,
            text_clicks: true,
            goal_tracking: false,
            ecomm360: false,
            google_analytics: String::new(),
            clicktale: String::new(),
            salesforce: SalesforceCRMTrackingType::default(),
            capsule: CapsuleCRMTrackingType::default(),
        }
    }
}

impl FromJson for AutomationTrackingOptionsType {
    /// An object; every member may be absent.
    open spec fn decodable(tree: JsonTree) -> bool {
        &&& tree is Object
        &&& field_ok::<bool>(tree, "opens"@)
        &&& field_ok::<bool>(tree, "html_clicks"@)
        &&& field_ok::<bool>(tree, "text_clicks"@)
        &&& field_ok::<bool>(tree, "goal_tracking"@)
        &&& field_ok::<bool>(tree, "ecomm360"@)
        &&& field_ok::<String>(tree, "google_analytics"@)
        &&& field_ok::<String>(tree, "clicktale"@)
        &&& field_ok::<SalesforceCRMTrackingType>(tree, "salesforce"@)
        &&& field_ok::<CapsuleCRMTrackingType>(tree, "capsule"@)
    }

    open spec fn decodes_to(tree: JsonTree, value: Self) -> bool {
        &&& field_is::<bool>(tree, "opens"@, value.opens)
        &&& field_is::<bool>(tree, "html_clicks"@, value.html_clicks)
        &&& field_is::<bool>(tree, "text_clicks"@, value.text_clicks)
        &&& field_is::<bool>(tree, "goal_tracking"@, value.goal_tracking)
        &&& field_is::<bool>(tree, "ecomm360"@, value.ecomm360)
        &&& field_is::<String>(tree, "google_analytics"@, value.google_analytics)
        &&& field_is::<String>(tree, "clicktale"@, value.clicktale)
        &&& field_is::<SalesforceCRMTrackingType>(tree, "salesforce"@, value.salesforce)
        &&& field_is::<CapsuleCRMTrackingType>(tree, "capsule"@, value.capsule)
    }

    open spec fn is_absent(value: Self) -> bool {
        value.is_default()
    }

    fn from_json(json: &Json) -> (r: Option<Self>) {
        if json.kind() != JsonKind::Object {
            return None;
        }
        let opens = read::<bool>(json, "opens")?;
        let html_clicks = read::<bool>(json, "html_clicks")?;
        let text_clicks = read::<bool>(json, "text_clicks")?;
        let goal_tracking = read::<bool>(json, "goal_tracking")?;
        let ecomm360 = read::<bool>(json, "ecomm360")?;
        let google_analytics = read::<String>(json, "google_analytics")?;
        let clicktale = read::<String>(json, "clicktale")?;
        let salesforce = read::<SalesforceCRMTrackingType>(json, "salesforce")?;
        let capsule = read::<CapsuleCRMTrackingType>(json, "capsule")?;
        Some(
            AutomationTrackingOptionsType {
                opens,
                html_clicks,
                text_clicks,
                goal_tracking,
                ecomm360,
                google_analytics,
                clicktale,
                salesforce,
                capsule,
            },
        )
    }

    fn absent() -> (r: Self) {
        AutomationTrackingOptionsType::default()
    }
}

impl ToJson for AutomationTrackingOptionsType {
    open spec fn encoding(&self) -> JsonTree {
        let m = Map::<Seq<char>, JsonTree>::empty();
        let m = m.insert("opens"@, self.opens.encoding());
        let m = m.insert("html_clicks"@, self.html_clicks.encoding());
        let m = m.insert("text_clicks"@, self.text_clicks.encoding());
        let m = m.insert("goal_tracking"@, self.goal_tracking.encoding());
        let m = m.insert("ecomm360"@, self.ecomm360.encoding());
        let m = m.insert("google_analytics"@, self.google_analytics.encoding());
        let m = m.insert("clicktale"@, self.clicktale.encoding());
        let m = m.insert("salesforce"@, self.salesforce.encoding());
        let m = m.insert("capsule"@, self.capsule.encoding());
        JsonTree::Object(m)
    }

    fn to_json(&self) -> (r: Json) {
        let mut json = Json::empty_object();
        store(&mut json, "opens", &self.opens);
        store(&mut json, "html_clicks", &self.html_clicks);
        store(&mut json, "text_clicks", &self.text_clicks);
        store(&mut json, "goal_tracking", &self.goal_tracking);
        store(&mut json, "ecomm360", &self.ecomm360);
        store(&mut json, "google_analytics", &self.google_analytics);
        store(&mut json, "clicktale", &self.clicktale);
        store(&mut json, "salesforce", &self.salesforce);
        store(&mut json, "capsule", &self.capsule);
        json
    }
}

impl RoundTrip for AutomationTrackingOptionsType {
    /// Every member is writable.
    open spec fn writable(&self) -> bool {
        &&& self.salesforce.writable()
        &&& self.capsule.writable()
    }

    proof fn lemma_round_trip(&self) {
        reveal_strlit("opens");
        reveal_strlit("html_clicks");
        reveal_strlit("text_clicks");
        reveal_strlit("goal_tracking");
        reveal_strlit("ecomm360");
        reveal_strlit("google_analytics");
        reveal_strlit("clicktale");
        reveal_strlit("salesforce");
        reveal_strlit("capsule");
        assert("opens"@.len() == 5);
        assert("html_clicks"@.len() == 11);
        assert("text_clicks"@.len() == 11);
        assert("goal_tracking"@.len() == 13);
        assert("ecomm360"@.len() == 8);
        assert("google_analytics"@.len() == 16);
        assert("clicktale"@.len() == 9);
        assert("salesforce"@.len() == 10);
        assert("capsule"@.len() == 7);
        assert("html_clicks"@[0] != "text_clicks"@[0]);
        let m0 = Map::<Seq<char>, JsonTree>::empty();
        let m1 = m0.insert("opens"@, self.opens.encoding());
        let m2 = m1.insert("html_clicks"@, self.html_clicks.encoding());
        let m3 = m2.insert("text_clicks"@, self.text_clicks.encoding());
        let m4 = m3.insert("goal_tracking"@, self.goal_tracking.encoding());
        let m5 = m4.insert("ecomm360"@, self.ecomm360.encoding());
        let m6 = m5.insert("google_analytics"@, self.google_analytics.encoding());
        let m7 = m6.insert("clicktale"@, self.clicktale.encoding());
        let m8 = m7.insert("salesforce"@, self.salesforce.encoding());
        let m9 = m8.insert("capsule"@, self.capsule.encoding());
        let members = m9;
        assert(self.encoding() == JsonTree::Object(members));
        lemma_member_round_trip(members, "opens"@, self.opens);
        lemma_member_round_trip(members, "html_clicks"@, self.html_clicks);
        lemma_member_round_trip(members, "text_clicks"@, self.text_clicks);
        lemma_member_round_trip(members, "goal_tracking"@, self.goal_tracking);
        lemma_member_round_trip(members, "ecomm360"@, self.ecomm360);
        lemma_member_round_trip(members, "google_analytics"@, self.google_analytics);
        lemma_member_round_trip(members, "clicktale"@, self.clicktale);
        lemma_member_round_trip(members, "salesforce"@, self.salesforce);
        lemma_member_round_trip(members, "capsule"@, self.capsule);
    }
}

/// An automation workflow.
#[derive(Debug, Clone)]
pub struct AutomationWorkflowType {
    /// The identifier of the automation.
    pub id: Option<String>,
    /// When the automation was created, in ISO 8601 format.
    pub create_time: Option<String>,
    /// When the automation was started, in ISO 8601 format.
    pub start_time: Option<String>,
    /// The state the automation is in.
    pub status: Option<String>,
    /// The number of emails sent.
    pub emails_sent: Option<u64>,
    /// The list that the automation is sent to.
    pub recipients: Option<RecipientType>,
    /// The settings of the workflow.
    pub settings: Option<AutomationCampaignSettingsType>,
    /// What is tracked.
    pub tracking: Option<AutomationTrackingOptionsType>,
    /// What sets the workflow off.
    pub trigger_settings: Option<AutomationTriggerType>,
    /// What became of the mail sent.
    pub report_summary: Option<CampaignReportSummaryType>,
    /// Links to related resources and schema documents.
    pub _links: Option<Vec<LinkType>>,
}

impl AutomationWorkflowType {
    /// Whether this is the default workflow.
    pub open spec fn is_default(&self) -> bool {
        &&& self.id is None
        &&& self.create_time is None
        &&& self.start_time is None
        &&& self.status is None
        &&& self.emails_sent is None
        &&& self.recipients is None
        &&& self.settings is None
        &&& self.tracking is None
        &&& self.trigger_settings is None
        &&& self.report_summary is None
        &&& self._links is None
    }
}

impl Default for AutomationWorkflowType {
    fn default() -> (r: Self)
        ensures
            r.is_default(),
    {
        AutomationWorkflowType {
            id: None,
            create_time: None,
            start_time: None,
            status: None,
            emails_sent: None,
            recipients: None,
            settings: None,
            tracking: None,
            trigger_settings: None,
            report_summary: None,
            _links: None,
        }
    }
}

impl FromJson for AutomationWorkflowType {
    /// An object; every member may be absent.
    open spec fn decodable(tree: JsonTree) -> bool {
        &&& tree is Object
        &&& field_ok::<Option<String>>(tree, "id"@)
        &&& field_ok::<Option<String>>(tree, "create_time"@)
        &&& field_ok::<Option<String>>(tree, "start_time"@)
        &&& field_ok::<Option<String>>(tree, "status"@)
        &&& field_ok::<Option<u64>>(tree, "emails_sent"@)
        &&& field_ok::<Option<RecipientType>>(tree, "recipients"@)
        &&& field_ok::<Option<AutomationCampaignSettingsType>>(tree, "settings"@)
        &&& field_ok::<Option<AutomationTrackingOptionsType>>(tree, "tracking"@)
        &&& field_ok::<Option<AutomationTriggerType>>(tree, "trigger_settings"@)
        &&& field_ok::<Option<CampaignReportSummaryType>>(tree, "report_summary"@)
        &&& field_ok::<Option<Vec<LinkType>>>(tree, "_links"@)
    }

    open spec fn decodes_to(tree: JsonTree, value: Self) -> bool {
        &&& field_is::<Option<String>>(tree, "id"@, value.id)
        &&& field_is::<Option<String>>(tree, "create_time"@, value.create_time)
        &&& field_is::<Option<String>>(tree, "start_time"@, value.start_time)
        &&& field_is::<Option<String>>(tree, "status"@, value.status)
        &&& field_is::<Option<u64>>(tree, "emails_sent"@, value.emails_sent)
        &&& field_is::<Option<RecipientType>>(tree, "recipients"@, value.recipients)
        &&& field_is::<Option<AutomationCampaignSettingsType>>(tree, "settings"@, value.settings)
        &&& field_is::<Option<AutomationTrackingOptionsType>>(tree, "tracking"@, value.tracking)
        &&& field_is::<Option<AutomationTriggerType>>(tree, "trigger_settings"@, value.trigger_settings)
        &&& field_is::<Option<CampaignReportSummaryType>>(tree, "report_summary"@, value.report_summary)
        &&& field_is::<Option<Vec<LinkType>>>(tree, "_links"@, value._links)
    }

    open spec fn is_absent(value: Self) -> bool {
        value.is_default()
    }

    #[verifier::rlimit(40)]
    fn from_json(json: &Json) -> (r: Option<Self>) {
        if json.kind() != JsonKind::Object {
            return None;
        }
        let id = read::<Option<String>>(json, "id")?;
        let create_time = read::<Option<String>>(json, "create_time")?;
        let start_time = read::<Option<String>>(json, "start_time")?;
        let status = read::<Option<String>>(json, "status")?;
        let emails_sent = read::<Option<u64>>(json, "emails_sent")?;
        let recipients = read::<Option<RecipientType>>(json, "recipients")?;
        let settings = read::<Option<AutomationCampaignSettingsType>>(json, "settings")?;
        let tracking = read::<Option<AutomationTrackingOptionsType>>(json, "tracking")?;
        let trigger_settings = read::<Option<AutomationTriggerType>>(json, "trigger_settings")?;
        let report_summary = read::<Option<CampaignReportSummaryType>>(json, "report_summary")?;
        let _links = read::<Option<Vec<LinkType>>>(json, "_links")?;
        Some(
            AutomationWorkflowType {
                id,
                create_time,
                start_time,
                status,
                emails_sent,
                recipients,
                settings,
                tracking,
                trigger_settings,
                report_summary,
                _links,
            },
        )
    }

    fn absent() -> (r: Self) {
        AutomationWorkflowType::default()
    }
}

impl ToJson for AutomationWorkflowType {
    open spec fn encoding(&self) -> JsonTree {
        let m = Map::<Seq<char>, JsonTree>::empty();
        let m = with_present(m, "id"@, self.id);
        let m = with_present(m, "create_time"@, self.create_time);
        let m = with_present(m, "start_time"@, self.start_time);
        let m = with_present(m, "status"@, self.status);
        let m = with_present(m, "emails_sent"@, self.emails_sent);
        let m = with_present(m, "recipients"@, self.recipients);
        let m = with_present(m, "settings"@, self.settings);
        let m = with_present(m, "tracking"@, self.tracking);
        let m = with_present(m, "trigger_settings"@, self.trigger_settings);
        let m = with_present(m, "report_summary"@, self.report_summary);
        let m = with_present(m, "_links"@, self._links);
        JsonTree::Object(m)
    }

    #[verifier::rlimit(40)]
    fn to_json(&self) -> (r: Json) {
        let mut json = Json::empty_object();
        store_present(&mut json, "id", &self.id);
        store_present(&mut json, "create_time", &self.create_time);
        store_present(&mut json, "start_time", &self.start_time);
        store_present(&mut json, "status", &self.status);
        store_present(&mut json, "emails_sent", &self.emails_sent);
        store_present(&mut json, "recipients", &self.recipients);
        store_present(&mut json, "settings", &self.settings);
        store_present(&mut json, "tracking", &self.tracking);
        store_present(&mut json, "trigger_settings", &self.trigger_settings);
        store_present(&mut json, "report_summary", &self.report_summary);
        store_present(&mut json, "_links", &self._links);
        json
    }
}

impl RoundTrip for AutomationWorkflowType {
    /// Every member is writable.
    open spec fn writable(&self) -> bool {
        &&& writable_if_present(self.recipients)
        &&& writable_if_present(self.settings)
        &&& writable_if_present(self.tracking)
        &&& writable_if_present(self.trigger_settings)
        &&& writable_if_present(self.report_summary)
        &&& writable_if_present(self._links)
    }

    proof fn lemma_round_trip(&self) {
        reveal_strlit("id");
        reveal_strlit("create_time");
        reveal_strlit("start_time");
        reveal_strlit("status");
        reveal_strlit("emails_sent");
        reveal_strlit("recipients");
        reveal_strlit("settings");
        reveal_strlit("tracking");
        reveal_strlit("trigger_settings");
        reveal_strlit("report_summary");
        reveal_strlit("_links");
        assert("id"@.len() == 2);
        assert("create_time"@.len() == 11);
        assert("start_time"@.len() == 10);
        assert("status"@.len() == 6);
        assert("emails_sent"@.len() == 11);
        assert("recipients"@.len() == 10);
        assert("settings"@.len() == 8);
        assert("tracking"@.len() == 8);
        assert("trigger_settings"@.len() == 16);
        assert("report_summary"@.len() == 14);
        assert("_links"@.len() == 6);
        assert("create_time"@[0] != "emails_sent"@[0]);
        assert("start_time"@[0] != "recipients"@[0]);
        assert("status"@[0] != "_links"@[0]);
        assert("settings"@[0] != "tracking"@[0]);
        let m0 = Map::<Seq<char>, JsonTree>::empty();
        let m1 = with_present(m0, "id"@, self.id);
        lemma_with_present(m0, "id"@, self.id);
        let m2 = with_present(m1, "create_time"@, self.create_time);
        lemma_with_present(m1, "create_time"@, self.create_time);
        let m3 = with_present(m2, "start_time"@, self.start_time);
        lemma_with_present(m2, "start_time"@, self.start_time);
        let m4 = with_present(m3, "status"@, self.status);
        lemma_with_present(m3, "status"@, self.status);
        let m5 = with_present(m4, "emails_sent"@, self.emails_sent);
        lemma_with_present(m4, "emails_sent"@, self.emails_sent);
        let m6 = with_present(m5, "recipients"@, self.recipients);
        lemma_with_present(m5, "recipients"@, self.recipients);
        let m7 = with_present(m6, "settings"@, self.settings);
        lemma_with_present(m6, "settings"@, self.settings);
        let m8 = with_present(m7, "tracking"@, self.tracking);
        lemma_with_present(m7, "tracking"@, self.tracking);
        let m9 = with_present(m8, "trigger_settings"@, self.trigger_settings);
        lemma_with_present(m8, "trigger_settings"@, self.trigger_settings);
        let m10 = with_present(m9, "report_summary"@, self.report_summary);
        lemma_with_present(m9, "report_summary"@, self.report_summary);
        let m11 = with_present(m10, "_links"@, self._links);
        lemma_with_present(m10, "_links"@, self._links);
        let members = m11;
        assert(self.encoding() == JsonTree::Object(members));
        lemma_optional_member_round_trip(members, "id"@, self.id);
        lemma_optional_member_round_trip(members, "create_time"@, self.create_time);
        lemma_optional_member_round_trip(members, "start_time"@, self.start_time);
        lemma_optional_member_round_trip(members, "status"@, self.status);
        lemma_optional_member_round_trip(members, "emails_sent"@, self.emails_sent);
        lemma_optional_member_round_trip(members, "recipients"@, self.recipients);
        lemma_optional_member_round_trip(members, "settings"@, self.settings);
        lemma_optional_member_round_trip(members, "tracking"@, self.tracking);
        lemma_optional_member_round_trip(members, "trigger_settings"@, self.trigger_settings);
        lemma_optional_member_round_trip(members, "report_summary"@, self.report_summary);
        lemma_optional_member_round_trip(members, "_links"@, self._links);
    }
}

/// One page of the automations of an account.
#[derive(Debug, Clone)]
pub struct AutomationsType {
    /// The automations of this page.
    pub automations: Vec<AutomationWorkflowType>,
    /// The number of automations that match, over all pages.
    pub total_items: u32,
    /// Links to related resources and schema documents.
    pub _links: Vec<LinkType>,
}

impl AutomationsType {
    /// Whether this is the default page.
    pub open spec fn is_default(&self) -> bool {
        &&& self.automations@.len() == 0
        &&& self.total_items == 0
        &&& self._links@.len() == 0
    }
}

impl Default for AutomationsType {
    fn default() -> (r: Self)
        ensures
            r.is_default(),
    {
        AutomationsType {
            automations: Vec::new(),
            total_items: 0,
            _links: Vec::new(),
        }
    }
}

impl FromJson for AutomationsType {
    /// An object; every member may be absent.
    open spec fn decodable(tree: JsonTree) -> bool {
        &&& tree is Object
        &&& field_ok::<Vec<AutomationWorkflowType>>(tree, "automations"@)
        &&& field_ok::<u32>(tree, "total_items"@)
        &&& field_ok::<Vec<LinkType>>(tree, "_links"@)
    }

    open spec fn decodes_to(tree: JsonTree, value: Self) -> bool {
        &&& field_is::<Vec<AutomationWorkflowType>>(tree, "automations"@, value.automations)
        &&& field_is::<u32>(tree, "total_items"@, value.total_items)
        &&& field_is::<Vec<LinkType>>(tree, "_links"@, value._links)
    }

    open spec fn is_absent(value: Self) -> bool {
        value.is_default()
    }

    fn from_json(json: &Json) -> (r: Option<Self>) {
        if json.kind() != JsonKind::Object {
            return None;
        }
        let automations = read::<Vec<AutomationWorkflowType>>(json, "automations")?;
        let total_items = read::<u32>(json, "total_items")?;
        let _links = read::<Vec<LinkType>>(json, "_links")?;
        Some(
            AutomationsType {
                automations,
                total_items,
                _links,
            },
        )
    }

    fn absent() -> (r: Self) {
        AutomationsType::default()
    }
}

impl ToJson for AutomationsType {
    open spec fn encoding(&self) -> JsonTree {
        let m = Map::<Seq<char>, JsonTree>::empty();
        let m = m.insert("automations"@, self.automations.encoding());
        let m = m.insert("total_items"@, self.total_items.encoding());
        let m = m.insert("_links"@, self._links.encoding());
        JsonTree::Object(m)
    }

    fn to_json(&self) -> (r: Json) {
        let mut json = Json::empty_object();
        store(&mut json, "automations", &self.automations);
        store(&mut json, "total_items", &self.total_items);
        store(&mut json, "_links", &self._links);
        json
    }
}

impl RoundTrip for AutomationsType {
    /// Every member is writable.
    open spec fn writable(&self) -> bool {
        &&& self.automations.writable()
        &&& self._links.writable()
    }

    proof fn lemma_round_trip(&self) {
        reveal_strlit("automations");
        reveal_strlit("total_items");
        reveal_strlit("_links");
        assert("automations"@.len() == 11);
        assert("total_items"@.len() == 11);
        assert("_links"@.len() == 6);
        assert("automations"@[0] != "total_items"@[0]);
        let m0 = Map::<Seq<char>, JsonTree>::empty();
        let m1 = m0.insert("automations"@, self.automations.encoding());
        let m2 = m1.insert("total_items"@, self.total_items.encoding());
        let m3 = m2.insert("_links"@, self._links.encoding());
        let members = m3;
        assert(self.encoding() == JsonTree::Object(members));
        lemma_member_round_trip(members, "automations"@, self.automations);
        lemma_member_round_trip(members, "total_items"@, self.total_items);
        lemma_member_round_trip(members, "_links"@, self._links);
    }
}

/// What is sent to create or change an automation.
#[derive(Debug, Clone)]
pub struct AutomationModifier {
    /// The settings of the workflow.
    pub settings: Option<AutomationCampaignSettingsType>,
    /// The delay of an email.
    pub delay: Option<AutomationDelayType>,
    /// The list that the automation is sent to.
    pub recipients: Option<RecipientType>,
    /// What sets the workflow off.
    pub trigger_settings: Option<AutomationTriggerType>,
}

impl AutomationModifier {
    /// Whether this is the default change.
    pub open spec fn is_default(&self) -> bool {
        &&& self.settings is None
        &&& self.delay is None
        &&& self.recipients is None
        &&& self.trigger_settings is None
    }
}

impl Default for AutomationModifier {
    fn default() -> (r: Self)
        ensures
            r.is_default(),
    {
        AutomationModifier {
            settings: None,
            delay: None,
            recipients: None,
            trigger_settings: None,
        }
    }
}

impl FromJson for AutomationModifier {
    /// An object; every member may be absent.
    open spec fn decodable(tree: JsonTree) -> bool {
        &&& tree is Object
        &&& field_ok::<Option<AutomationCampaignSettingsType>>(tree, "settings"@)
        &&& field_ok::<Option<AutomationDelayType>>(tree, "delay"@)
        &&& field_ok::<Option<RecipientType>>(tree, "recipients"@)
        &&& field_ok::<Option<AutomationTriggerType>>(tree, "trigger_settings"@)
    }

    open spec fn decodes_to(tree: JsonTree, value: Self) -> bool {
        &&& field_is::<Option<AutomationCampaignSettingsType>>(tree, "settings"@, value.settings)
        &&& field_is::<Option<AutomationDelayType>>(tree, "delay"@, value.delay)
        &&& field_is::<Option<RecipientType>>(tree, "recipients"@, value.recipients)
        &&& field_is::<Option<AutomationTriggerType>>(tree, "trigger_settings"@, value.trigger_settings)
    }

    open spec fn is_absent(value: Self) -> bool {
        value.is_default()
    }

    fn from_json(json: &Json) -> (r: Option<Self>) {
        if json.kind() != JsonKind::Object {
            return None;
        }
        let settings = read::<Option<AutomationCampaignSettingsType>>(json, "settings")?;
        let delay = read::<Option<AutomationDelayType>>(json, "delay")?;
        let recipients = read::<Option<RecipientType>>(json, "recipients")?;
        let trigger_settings = read::<Option<AutomationTriggerType>>(json, "trigger_settings")?;
        Some(
            AutomationModifier {
                settings,
                delay,
                recipients,
                trigger_settings,
            },
        )
    }

    fn absent() -> (r: Self) {
        AutomationModifier::default()
    }
}

impl ToJson for AutomationModifier {
    open spec fn encoding(&self) -> JsonTree {
        let m = Map::<Seq<char>, JsonTree>::empty();
        let m = m.insert("settings"@, self.settings.encoding());
        let m = m.insert("delay"@, self.delay.encoding());
        let m = m.insert("recipients"@, self.recipients.encoding());
        let m = m.insert("trigger_settings"@, self.trigger_settings.encoding());
        JsonTree::Object(m)
    }

    fn to_json(&self) -> (r: Json) {
        let mut json = Json::empty_object();
        store(&mut json, "settings", &self.settings);
        store(&mut json, "delay", &self.delay);
        store(&mut json, "recipients", &self.recipients);
        store(&mut json, "trigger_settings", &self.trigger_settings);
        json
    }
}

impl RoundTrip for AutomationModifier {
    /// Every member is writable.
    open spec fn writable(&self) -> bool {
        &&& writable_if_present(self.settings)
        &&& writable_if_present(self.delay)
        &&& writable_if_present(self.recipients)
        &&& writable_if_present(self.trigger_settings)
    }

    proof fn lemma_round_trip(&self) {
        reveal_strlit("settings");
        reveal_strlit("delay");
        reveal_strlit("recipients");
        reveal_strlit("trigger_settings");
        assert("settings"@.len() == 8);
        assert("delay"@.len() == 5);
        assert("recipients"@.len() == 10);
        assert("trigger_settings"@.len() == 16);
        let m0 = Map::<Seq<char>, JsonTree>::empty();
        let m1 = m0.insert("settings"@, self.settings.encoding());
        let m2 = m1.insert("delay"@, self.delay.encoding());
        let m3 = m2.insert("recipients"@, self.recipients.encoding());
        let m4 = m3.insert("trigger_settings"@, self.trigger_settings.encoding());
        let members = m4;
        assert(self.encoding() == JsonTree::Object(members));
        lemma_optional_member_round_trip(members, "settings"@, self.settings);
        lemma_optional_member_round_trip(members, "delay"@, self.delay);
        lemma_optional_member_round_trip(members, "recipients"@, self.recipients);
        lemma_optional_member_round_trip(members, "trigger_settings"@, self.trigger_settings);
    }
}

/// The preview of a campaign that social networks show.
#[derive(Debug, Clone)]
pub struct SocialCardType {
    /// The URL of the header image.
    pub image_url: Option<String>,
    /// A short summary of the campaign.
    pub description: Option<String>,
    /// The title, usually the subject line.
    pub title: Option<String>,
}

impl SocialCardType {
    /// Whether this is the default card.
    pub open spec fn is_default(&self) -> bool {
        &&& self.image_url is None
        &&& self.description is None
        &&& self.title is None
    }
}

impl Default for SocialCardType {
    fn default() -> (r: Self)
        ensures
            r.is_default(),
    {
        SocialCardType {
            image_url: None,
            description: None,
            title: None,
        }
    }
}

impl FromJson for SocialCardType {
    /// An object; every member may be absent.
    open spec fn decodable(tree: JsonTree) -> bool {
        &&& tree is Object
        &&& field_ok::<Option<String>>(tree, "image_url"@)
        &&& field_ok::<Option<String>>(tree, "description"@)
        &&& field_ok::<Option<String>>(tree, "title"@)
    }

    open spec fn decodes_to(tree: JsonTree, value: Self) -> bool {
        &&& field_is::<Option<String>>(tree, "image_url"@, value.image_url)
        &&& field_is::<Option<String>>(tree, "description"@, value.description)
        &&& field_is::<Option<String>>(tree, "title"@, value.title)
    }

    open spec fn is_absent(value: Self) -> bool {
        value.is_default()
    }

    fn from_json(json: &Json) -> (r: Option<Self>) {
        if json.kind() != JsonKind::Object {
            return None;
        }
        let image_url = read::<Option<String>>(json, "image_url")?;
        let description = read::<Option<String>>(json, "description")?;
        let title = read::<Option<String>>(json, "title")?;
        Some(
            SocialCardType {
                image_url,
                description,
                title,
            },
        )
    }

    fn absent() -> (r: Self) {
        SocialCardType::default()
    }
}

impl ToJson for SocialCardType {
    open spec fn encoding(&self) -> JsonTree {
        let m = Map::<Seq<char>, JsonTree>::empty();
        let m = m.insert("image_url"@, self.image_url.encoding());
        let m = m.insert("description"@, self.description.encoding());
        let m = m.insert("title"@, self.title.encoding());
        JsonTree::Object(m)
    }

    fn to_json(&self) -> (r: Json) {
        let mut json = Json::empty_object();
        store(&mut json, "image_url", &self.image_url);
        store(&mut json, "description", &self.description);
        store(&mut json, "title", &self.title);
        json
    }
}

impl RoundTrip for SocialCardType {
    open spec fn writable(&self) -> bool {
        true
    }

    proof fn lemma_round_trip(&self) {
        reveal_strlit("image_url");
        reveal_strlit("description");
        reveal_strlit("title");
        assert("image_url"@.len() == 9);
        assert("description"@.len() == 11);
        assert("title"@.len() == 5);
        let m0 = Map::<Seq<char>, JsonTree>::empty();
        let m1 = m0.insert("image_url"@, self.image_url.encoding());
        let m2 = m1.insert("description"@, self.description.encoding());
        let m3 = m2.insert("title"@, self.title.encoding());
        let members = m3;
        assert(self.encoding() == JsonTree::Object(members));
        lemma_optional_member_round_trip(members, "image_url"@, self.image_url);
        lemma_optional_member_round_trip(members, "description"@, self.description);
        lemma_optional_member_round_trip(members, "title"@, self.title);
    }
}

/// One email of an automation workflow.
#[derive(Debug, Clone)]
pub struct WorkflowEmailType {
    /// The identifier of the email.
    pub id: Option<String>,
    /// The identifier that the web application uses.
    pub web_id: Option<u64>,
    /// The workflow that the email belongs to.
    pub workflow_id: Option<String>,
    /// The place of the email in the workflow.
    pub position: Option<u64>,
    /// The delay of the email.
    pub delay: Option<AutomationDelayType>,
    /// When the email was created, in ISO 8601 format.
    pub create_time: Option<String>,
    /// When the email was started, in ISO 8601 format.
    pub start_time: Option<String>,
    /// The link to the archived version.
    pub archive_url: Option<String>,
    /// The number of emails sent.
    pub emails_sent: Option<u64>,
    /// When the email was sent, in ISO 8601 format.
    pub send_time: Option<String>,
    /// How the content is put together: template, drag-and-drop, HTML or URL.
    pub content_type: Option<String>,
    /// Whether the blocks have to be refreshed in the web editor.
    pub needs_block_refresh: Option<bool>,
    /// Whether the content holds the logo merge tag.
    pub has_logo_merge_tag: Option<bool>,
    /// The list that the email is sent to.
    pub recipients: Option<RecipientType>,
    /// Subject, sender and the like.
    pub settings: Option<AutomationCampaignSettingsType>,
    /// What is tracked.
    pub tracking: Option<AutomationTrackingOptionsType>,
    /// The preview that social networks show.
    pub social_card: Option<SocialCardType>,
    /// What sets the workflow off.
    pub trigger_settings: Option<AutomationTriggerType>,
    /// What became of the mail sent.
    pub report_summary: Option<CampaignReportSummaryType>,
    /// Links to related resources and schema documents.
    pub _links: Option<Vec<LinkType>>,
}

impl WorkflowEmailType {
    /// Whether this is the default email.
    pub open spec fn is_default(&self) -> bool {
        &&& self.id is None
        &&& self.web_id is None
        &&& self.workflow_id is None
        &&& self.position is None
        &&& self.delay is None
        &&& self.create_time is None
        &&& self.start_time is None
        &&& self.archive_url is None
        &&& self.emails_sent is None
        &&& self.send_time is None
        &&& self.content_type is None
        &&& self.needs_block_refresh is None
        &&& self.has_logo_merge_tag is None
        &&& self.recipients is None
        &&& self.settings is None
        &&& self.tracking is None
        &&& self.social_card is None
        &&& self.trigger_settings is None
        &&& self.report_summary is None
        &&& self._links is None
    }
}

impl Default for WorkflowEmailType {
    fn default() -> (r: Self)
        ensures
            r.is_default(),
    {
        WorkflowEmailType {
            id: None,
            web_id: None,
            workflow_id: None,
            position: None,
            delay: None,
            create_time: None,
            start_time: None,
            archive_url: None,
            emails_sent: None,
            send_time: None,
            content_type: None,
            needs_block_refresh: None,
            has_logo_merge_tag: None,
            recipients: None,
            settings: None,
            tracking: None,
            social_card: None,
            trigger_settings: None,
            report_summary: None,
            _links: None,
        }
    }
}

impl FromJson for WorkflowEmailType {
    /// An object; every member may be absent.
    open spec fn decodable(tree: JsonTree) -> bool {
        &&& tree is Object
        &&& field_ok::<Option<String>>(tree, "id"@)
        &&& field_ok::<Option<u64>>(tree, "web_id"@)
        &&& field_ok::<Option<String>>(tree, "workflow_id"@)
        &&& field_ok::<Option<u64>>(tree, "position"@)
        &&& field_ok::<Option<AutomationDelayType>>(tree, "delay"@)
        &&& field_ok::<Option<String>>(tree, "create_time"@)
        &&& field_ok::<Option<String>>(tree, "start_time"@)
        &&& field_ok::<Option<String>>(tree, "archive_url"@)
        &&& field_ok::<Option<u64>>(tree, "emails_sent"@)
        &&& field_ok::<Option<String>>(tree, "send_time"@)
        &&& field_ok::<Option<String>>(tree, "content_type"@)
        &&& field_ok::<Option<bool>>(tree, "needs_block_refresh"@)
        &&& field_ok::<Option<bool>>(tree, "has_logo_merge_tag"@)
        &&& field_ok::<Option<RecipientType>>(tree, "recipients"@)
        &&& field_ok::<Option<AutomationCampaignSettingsType>>(tree, "settings"@)
        &&& field_ok::<Option<AutomationTrackingOptionsType>>(tree, "tracking"@)
        &&& field_ok::<Option<SocialCardType>>(tree, "social_card"@)
        &&& field_ok::<Option<AutomationTriggerType>>(tree, "trigger_settings"@)
        &&& field_ok::<Option<CampaignReportSummaryType>>(tree, "report_summary"@)
        &&& field_ok::<Option<Vec<LinkType>>>(tree, "_links"@)
    }

    open spec fn decodes_to(tree: JsonTree, value: Self) -> bool {
        &&& field_is::<Option<String>>(tree, "id"@, value.id)
        &&& field_is::<Option<u64>>(tree, "web_id"@, value.web_id)
        &&& field_is::<Option<String>>(tree, "workflow_id"@, value.workflow_id)
        &&& field_is::<Option<u64>>(tree, "position"@, value.position)
        &&& field_is::<Option<AutomationDelayType>>(tree, "delay"@, value.delay)
        &&& field_is::<Option<String>>(tree, "create_time"@, value.create_time)
        &&& field_is::<Option<String>>(tree, "start_time"@, value.start_time)
        &&& field_is::<Option<String>>(tree, "archive_url"@, value.archive_url)
        &&& field_is::<Option<u64>>(tree, "emails_sent"@, value.emails_sent)
        &&& field_is::<Option<String>>(tree, "send_time"@, value.send_time)
        &&& field_is::<Option<String>>(tree, "content_type"@, value.content_type)
        &&& field_is::<Option<bool>>(tree, "needs_block_refresh"@, value.needs_block_refresh)
        &&& field_is::<Option<bool>>(tree, "has_logo_merge_tag"@, value.has_logo_merge_tag)
        &&& field_is::<Option<RecipientType>>(tree, "recipients"@, value.recipients)
        &&& field_is::<Option<AutomationCampaignSettingsType>>(tree, "settings"@, value.settings)
        &&& field_is::<Option<AutomationTrackingOptionsType>>(tree, "tracking"@, value.tracking)
        &&& field_is::<Option<SocialCardType>>(tree, "social_card"@, value.social_card)
        &&& field_is::<Option<AutomationTriggerType>>(tree, "trigger_settings"@, value.trigger_settings)
        &&& field_is::<Option<CampaignReportSummaryType>>(tree, "report_summary"@, value.report_summary)
        &&& field_is::<Option<Vec<LinkType>>>(tree, "_links"@, value._links)
    }

    open spec fn is_absent(value: Self) -> bool {
        value.is_default()
    }

    #[verifier::rlimit(40)]
    fn from_json(json: &Json) -> (r: Option<Self>) {
        if json.kind() != JsonKind::Object {
            return None;
        }
        let id = read::<Option<String>>(json, "id")?;
        let web_id = read::<Option<u64>>(json, "web_id")?;
        let workflow_id = read::<Option<String>>(json, "workflow_id")?;
        let position = read::<Option<u64>>(json, "position")?;
        let delay = read::<Option<AutomationDelayType>>(json, "delay")?;
        let create_time = read::<Option<String>>(json, "create_time")?;
        let start_time = read::<Option<String>>(json, "start_time")?;
        let archive_url = read::<Option<String>>(json, "archive_url")?;
        let emails_sent = read::<Option<u64>>(json, "emails_sent")?;
        let send_time = read::<Option<String>>(json, "send_time")?;
        let content_type = read::<Option<String>>(json, "content_type")?;
        let needs_block_refresh = read::<Option<bool>>(json, "needs_block_refresh")?;
        let has_logo_merge_tag = read::<Option<bool>>(json, "has_logo_merge_tag")?;
        let recipients = read::<Option<RecipientType>>(json, "recipients")?;
        let settings = read::<Option<AutomationCampaignSettingsType>>(json, "settings")?;
        let tracking = read::<Option<AutomationTrackingOptionsType>>(json, "tracking")?;
        let social_card = read::<Option<SocialCardType>>(json, "social_card")?;
        let trigger_settings = read::<Option<AutomationTriggerType>>(json, "trigger_settings")?;
        let report_summary = read::<Option<CampaignReportSummaryType>>(json, "report_summary")?;
        let _links = read::<Option<Vec<LinkType>>>(json, "_links")?;
        Some(
            WorkflowEmailType {
                id,
                web_id,
                workflow_id,
                position,
                delay,
                create_time,
                start_time,
                archive_url,
                emails_sent,
                send_time,
                content_type,
                needs_block_refresh,
                has_logo_merge_tag,
                recipients,
                settings,
                tracking,
                social_card,
                trigger_settings,
                report_summary,
                _links,
            },
        )
    }

    fn absent() -> (r: Self) {
        WorkflowEmailType::default()
    }
}

impl ToJson for WorkflowEmailType {
    open spec fn encoding(&self) -> JsonTree {
        let m = Map::<Seq<char>, JsonTree>::empty();
        let m = with_present(m, "id"@, self.id);
        let m = with_present(m, "web_id"@, self.web_id);
        let m = with_present(m, "workflow_id"@, self.workflow_id);
        let m = with_present(m, "position"@, self.position);
        let m = with_present(m, "delay"@, self.delay);
        let m = with_present(m, "create_time"@, self.create_time);
        let m = with_present(m, "start_time"@, self.start_time);
        let m = with_present(m, "archive_url"@, self.archive_url);
        let m = with_present(m, "emails_sent"@, self.emails_sent);
        let m = with_present(m, "send_time"@, self.send_time);
        let m = with_present(m, "content_type"@, self.content_type);
        let m = with_present(m, "needs_block_refresh"@, self.needs_block_refresh);
        let m = with_present(m, "has_logo_merge_tag"@, self.has_logo_merge_tag);
        let m = with_present(m, "recipients"@, self.recipients);
        let m = with_present(m, "settings"@, self.settings);
        let m = with_present(m, "tracking"@, self.tracking);
        let m = with_present(m, "social_card"@, self.social_card);
        let m = with_present(m, "trigger_settings"@, self.trigger_settings);
        let m = with_present(m, "report_summary"@, self.report_summary);
        let m = with_present(m, "_links"@, self._links);
        JsonTree::Object(m)
    }

    #[verifier::rlimit(40)]
    fn to_json(&self) -> (r: Json) {
        let mut json = Json::empty_object();
        store_present(&mut json, "id", &self.id);
        store_present(&mut json, "web_id", &self.web_id);
        store_present(&mut json, "workflow_id", &self.workflow_id);
        store_present(&mut json, "position", &self.position);
        store_present(&mut json, "delay", &self.delay);
        store_present(&mut json, "create_time", &self.create_time);
        store_present(&mut json, "start_time", &self.start_time);
        store_present(&mut json, "archive_url", &self.archive_url);
        store_present(&mut json, "emails_sent", &self.emails_sent);
        store_present(&mut json, "send_time", &self.send_time);
        store_present(&mut json, "content_type", &self.content_type);
        store_present(&mut json, "needs_block_refresh", &self.needs_block_refresh);
        store_present(&mut json, "has_logo_merge_tag", &self.has_logo_merge_tag);
        store_present(&mut json, "recipients", &self.recipients);
        store_present(&mut json, "settings", &self.settings);
        store_present(&mut json, "tracking", &self.tracking);
        store_present(&mut json, "social_card", &self.social_card);
        store_present(&mut json, "trigger_settings", &self.trigger_settings);
        store_present(&mut json, "report_summary", &self.report_summary);
        store_present(&mut json, "_links", &self._links);
        json
    }
}

impl RoundTrip for WorkflowEmailType {
    /// Every member is writable.
    open spec fn writable(&self) -> bool {
        &&& writable_if_present(self.delay)
        &&& writable_if_present(self.recipients)
        &&& writable_if_present(self.settings)
        &&& writable_if_present(self.tracking)
        &&& writable_if_present(self.social_card)
        &&& writable_if_present(self.trigger_settings)
        &&& writable_if_present(self.report_summary)
        &&& writable_if_present(self._links)
    }

    #[verifier::rlimit(40)]
    proof fn lemma_round_trip(&self) {
        reveal_strlit("id");
        reveal_strlit("web_id");
        reveal_strlit("workflow_id");
        reveal_strlit("position");
        reveal_strlit("delay");
        reveal_strlit("create_time");
        reveal_strlit("start_time");
        reveal_strlit("archive_url");
        reveal_strlit("emails_sent");
        reveal_strlit("send_time");
        reveal_strlit("content_type");
        reveal_strlit("needs_block_refresh");
        reveal_strlit("has_logo_merge_tag");
        reveal_strlit("recipients");
        reveal_strlit("settings");
        reveal_strlit("tracking");
        reveal_strlit("social_card");
        reveal_strlit("trigger_settings");
        reveal_strlit("report_summary");
        reveal_strlit("_links");
        assert("id"@.len() == 2);
        assert("web_id"@.len() == 6);
        assert("workflow_id"@.len() == 11);
        assert("position"@.len() == 8);
        assert("delay"@.len() == 5);
        assert("create_time"@.len() == 11);
        assert("start_time"@.len() == 10);
        assert("archive_url"@.len() == 11);
        assert("emails_sent"@.len() == 11);
        assert("send_time"@.len() == 9);
        assert("content_type"@.len() == 12);
        assert("needs_block_refresh"@.len() == 19);
        assert("has_logo_merge_tag"@.len() == 18);
        assert("recipients"@.len() == 10);
        assert("settings"@.len() == 8);
        assert("tracking"@.len() == 8);
        assert("social_card"@.len() == 11);
        assert("trigger_settings"@.len() == 16);
        assert("report_summary"@.len() == 14);
        assert("_links"@.len() == 6);
        assert("web_id"@[0] != "_links"@[0]);
        assert("workflow_id"@[0] != "create_time"@[0]);
        assert("workflow_id"@[0] != "archive_url"@[0]);
        assert("workflow_id"@[0] != "emails_sent"@[0]);
        assert("workflow_id"@[0] != "social_card"@[0]);
        assert("position"@[0] != "settings"@[0]);
        assert("position"@[0] != "tracking"@[0]);
        assert("create_time"@[0] != "archive_url"@[0]);
        assert("create_time"@[0] != "emails_sent"@[0]);
        assert("create_time"@[0] != "social_card"@[0]);
        assert("start_time"@[0] != "recipients"@[0]);
        assert("archive_url"@[0] != "emails_sent"@[0]);
        assert("archive_url"@[0] != "social_card"@[0]);
        assert("emails_sent"@[0] != "social_card"@[0]);
        assert("settings"@[0] != "tracking"@[0]);
        let m0 = Map::<Seq<char>, JsonTree>::empty();
        let m1 = with_present(m0, "id"@, self.id);
        lemma_with_present(m0, "id"@, self.id);
        let m2 = with_present(m1, "web_id"@, self.web_id);
        lemma_with_present(m1, "web_id"@, self.web_id);
        let m3 = with_present(m2, "workflow_id"@, self.workflow_id);
        lemma_with_present(m2, "workflow_id"@, self.workflow_id);
        let m4 = with_present(m3, "position"@, self.position);
        lemma_with_present(m3, "position"@, self.position);
        let m5 = with_present(m4, "delay"@, self.delay);
        lemma_with_present(m4, "delay"@, self.delay);
        let m6 = with_present(m5, "create_time"@, self.create_time);
        lemma_with_present(m5, "create_time"@, self.create_time);
        let m7 = with_present(m6, "start_time"@, self.start_time);
        lemma_with_present(m6, "start_time"@, self.start_time);
        let m8 = with_present(m7, "archive_url"@, self.archive_url);
        lemma_with_present(m7, "archive_url"@, self.archive_url);
        let m9 = with_present(m8, "emails_sent"@, self.emails_sent);
        lemma_with_present(m8, "emails_sent"@, self.emails_sent);
        let m10 = with_present(m9, "send_time"@, self.send_time);
        lemma_with_present(m9, "send_time"@, self.send_time);
        let m11 = with_present(m10, "content_type"@, self.content_type);
        lemma_with_present(m10, "content_type"@, self.content_type);
        let m12 = with_present(m11, "needs_block_refresh"@, self.needs_block_refresh);
        lemma_with_present(m11, "needs_block_refresh"@, self.needs_block_refresh);
        let m13 = with_present(m12, "has_logo_merge_tag"@, self.has_logo_merge_tag);
        lemma_with_present(m12, "has_logo_merge_tag"@, self.has_logo_merge_tag);
        let m14 = with_present(m13, "recipients"@, self.recipients);
        lemma_with_present(m13, "recipients"@, self.recipients);
        let m15 = with_present(m14, "settings"@, self.settings);
        lemma_with_present(m14, "settings"@, self.settings);
        let m16 = with_present(m15, "tracking"@, self.tracking);
        lemma_with_present(m15, "tracking"@, self.tracking);
        let m17 = with_present(m16, "social_card"@, self.social_card);
        lemma_with_present(m16, "social_card"@, self.social_card);
        let m18 = with_present(m17, "trigger_settings"@, self.trigger_settings);
        lemma_with_present(m17, "trigger_settings"@, self.trigger_settings);
        let m19 = with_present(m18, "report_summary"@, self.report_summary);
        lemma_with_present(m18, "report_summary"@, self.report_summary);
        let m20 = with_present(m19, "_links"@, self._links);
        lemma_with_present(m19, "_links"@, self._links);
        let members = m20;
        assert(self.encoding() == JsonTree::Object(members));
        lemma_optional_member_round_trip(members, "id"@, self.id);
        lemma_optional_member_round_trip(members, "web_id"@, self.web_id);
        lemma_optional_member_round_trip(members, "workflow_id"@, self.workflow_id);
        lemma_optional_member_round_trip(members, "position"@, self.position);
        lemma_optional_member_round_trip(members, "delay"@, self.delay);
        lemma_optional_member_round_trip(members, "create_time"@, self.create_time);
        lemma_optional_member_round_trip(members, "start_time"@, self.start_time);
        lemma_optional_member_round_trip(members, "archive_url"@, self.archive_url);
        lemma_optional_member_round_trip(members, "emails_sent"@, self.emails_sent);
        lemma_optional_member_round_trip(members, "send_time"@, self.send_time);
        lemma_optional_member_round_trip(members, "content_type"@, self.content_type);
        lemma_optional_member_round_trip(members, "needs_block_refresh"@, self.needs_block_refresh);
        lemma_optional_member_round_trip(members, "has_logo_merge_tag"@, self.has_logo_merge_tag);
        lemma_optional_member_round_trip(members, "recipients"@, self.recipients);
        lemma_optional_member_round_trip(members, "settings"@, self.settings);
        lemma_optional_member_round_trip(members, "tracking"@, self.tracking);
        lemma_optional_member_round_trip(members, "social_card"@, self.social_card);
        lemma_optional_member_round_trip(members, "trigger_settings"@, self.trigger_settings);
        lemma_optional_member_round_trip(members, "report_summary"@, self.report_summary);
        lemma_optional_member_round_trip(members, "_links"@, self._links);
    }
}

/// One page of the emails of an automation workflow.
#[derive(Debug, Clone)]
pub struct WorkflowEmailsType {
    /// The emails of this page.
    pub emails: Vec<WorkflowEmailType>,
    /// The number of emails that match, over all pages.
    pub total_items: u32,
    /// Links to related resources and schema documents.
    pub _links: Vec<LinkType>,
}

impl WorkflowEmailsType {
    /// Whether this is the default page.
    pub open spec fn is_default(&self) -> bool {
        &&& self.emails@.len() == 0
        &&& self.total_items == 0
        &&& self._links@.len() == 0
    }
}

impl Default for WorkflowEmailsType {
    fn default() -> (r: Self)
        ensures
            r.is_default(),
    {
        WorkflowEmailsType {
            emails: Vec::new(),
            total_items: 0,
            _links: Vec::new(),
        }
    }
}

impl FromJson for WorkflowEmailsType {
    /// An object; every member may be absent.
    open spec fn decodable(tree: JsonTree) -> bool {
        &&& tree is Object
        &&& field_ok::<Vec<WorkflowEmailType>>(tree, "emails"@)
        &&& field_ok::<u32>(tree, "total_items"@)
        &&& field_ok::<Vec<LinkType>>(tree, "_links"@)
    }

    open spec fn decodes_to(tree: JsonTree, value: Self) -> bool {
        &&& field_is::<Vec<WorkflowEmailType>>(tree, "emails"@, value.emails)
        &&& field_is::<u32>(tree, "total_items"@, value.total_items)
        &&& field_is::<Vec<LinkType>>(tree, "_links"@, value._links)
    }

    open spec fn is_absent(value: Self) -> bool {
        value.is_default()
    }

    fn from_json(json: &Json) -> (r: Option<Self>) {
        if json.kind() != JsonKind::Object {
            return None;
        }
        let emails = read::<Vec<WorkflowEmailType>>(json, "emails")?;
        let total_items = read::<u32>(json, "total_items")?;
        let _links = read::<Vec<LinkType>>(json, "_links")?;
        Some(
            WorkflowEmailsType {
                emails,
                total_items,
                _links,
            },
        )
    }

    fn absent() -> (r: Self) {
        WorkflowEmailsType::default()
    }
}

impl ToJson for WorkflowEmailsType {
    open spec fn encoding(&self) -> JsonTree {
        let m = Map::<Seq<char>, JsonTree>::empty();
        let m = m.insert("emails"@, self.emails.encoding());
        let m = m.insert("total_items"@, self.total_items.encoding());
        let m = m.insert("_links"@, self._links.encoding());
        JsonTree::Object(m)
    }

    fn to_json(&self) -> (r: Json) {
        let mut json = Json::empty_object();
        store(&mut json, "emails", &self.emails);
        store(&mut json, "total_items", &self.total_items);
        store(&mut json, "_links", &self._links);
        json
    }
}

impl RoundTrip for WorkflowEmailsType {
    /// Every member is writable.
    open spec fn writable(&self) -> bool {
        &&& self.emails.writable()
        &&& self._links.writable()
    }

    proof fn lemma_round_trip(&self) {
        reveal_strlit("emails");
        reveal_strlit("total_items");
        reveal_strlit("_links");
        assert("emails"@.len() == 6);
        assert("total_items"@.len() == 11);
        assert("_links"@.len() == 6);
        assert("emails"@[0] != "_links"@[0]);
        let m0 = Map::<Seq<char>, JsonTree>::empty();
        let m1 = m0.insert("emails"@, self.emails.encoding());
        let m2 = m1.insert("total_items"@, self.total_items.encoding());
        let m3 = m2.insert("_links"@, self._links.encoding());
        let members = m3;
        assert(self.encoding() == JsonTree::Object(members));
        lemma_member_round_trip(members, "emails"@, self.emails);
        lemma_member_round_trip(members, "total_items"@, self.total_items);
        lemma_member_round_trip(members, "_links"@, self._links);
    }
}

/// The settings of a campaign.
pub type CampaignSettingsType = AutomationCampaignSettingsType;

/// What is tracked of the mail of a campaign.
pub type CampaignTrackingOptionsType = AutomationTrackingOptionsType;

} // verus!
