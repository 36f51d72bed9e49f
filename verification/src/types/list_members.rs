//! Records of the members of a list, the filter of the member collection, and
//! the binding of the pagination to it.

use crate::api::{is_action_outcome, MailchimpApi, RequestMethod};
use crate::codec::{field_is, field_ok, FromJson, read, store, ToJson};
use crate::decimal::Decimal;
use crate::error_type::MailchimpErrorType;
use crate::iter::{BuildIter, MailchimpCollection, ResourceFilter};
use crate::json::{Json, JsonKind, JsonTree};
use crate::params::{agree_but, lemma_agree_empty, lemma_agree_flag, lemma_agree_number,
    lemma_agree_text, value_of, with_flag, with_number, with_text, ParamSeq, Params};
use crate::request::{HttpReq, MailchimpResult};
use crate::round_trip::{lemma_member_round_trip, RoundTrip, writable_if_present};
use crate::text::{copy_text, decimal};
use crate::types::link::LinkType;
use crate::types::member_filter::lemma_filter_value;
use vstd::prelude::*;

verus! {

/// The latest note on a member.
#[derive(Debug, Clone)]
pub struct ListNote {
    /// The identifier of the note.
    pub note_id: u64,
    /// When the note was written, in ISO 8601 format.
    pub created_at: String,
    /// Who wrote the note.
    pub created_by: String,
    /// The text of the note.
    pub note: String,
}

impl ListNote {
    /// Whether this is the default note.
    pub open spec fn is_default(&self) -> bool {
        &&& self.note_id == 0
        &&& self.created_at@.len() == 0
        &&& self.created_by@.len() == 0
        &&& self.note@.len() == 0
    }
}

impl Default for ListNote {
    fn default() -> (r: Self)
        ensures
            r.is_default(),
    {
        ListNote {
            note_id: 0,
            created_at: String::new(),
            created_by: String::new(),
            note: String::new(),
        }
    }
}

impl FromJson for ListNote {
    /// An object; every member may be absent.
    open spec fn decodable(tree: JsonTree) -> bool {
        &&& tree is Object
        &&& field_ok::<u64>(tree, "note_id"@)
        &&& field_ok::<String>(tree, "created_at"@)
        &&& field_ok::<String>(tree, "created_by"@)
        &&& field_ok::<String>(tree, "note"@)
    }

    open spec fn decodes_to(tree: JsonTree, value: Self) -> bool {
        &&& field_is::<u64>(tree, "note_id"@, value.note_id)
        &&& field_is::<String>(tree, "created_at"@, value.created_at)
        &&& field_is::<String>(tree, "created_by"@, value.created_by)
        &&& field_is::<String>(tree, "note"@, value.note)
    }

    open spec fn is_absent(value: Self) -> bool {
        value.is_default()
    }

    fn from_json(json: &Json) -> (r: Option<Self>) {
        if json.kind() != JsonKind::Object {
            return None;
        }
        let note_id = read::<u64>(json, "note_id")?;
        let created_at = read::<String>(json, "created_at")?;
        let created_by = read::<String>(json, "created_by")?;
        let note = read::<String>(json, "note")?;
        Some(
            ListNote {
                note_id,
                created_at,
                created_by,
                note,
            },
        )
    }

    fn absent() -> (r: Self) {
        ListNote::default()
    }
}

impl ToJson for ListNote {
    open spec fn encoding(&self) -> JsonTree {
        let m = Map::<Seq<char>, JsonTree>::empty();
        let m = m.insert("note_id"@, self.note_id.encoding());
        let m = m.insert("created_at"@, self.created_at.encoding());
        let m = m.insert("created_by"@, self.created_by.encoding());
        let m = m.insert("note"@, self.note.encoding());
        JsonTree::Object(m)
    }

    fn to_json(&self) -> (r: Json) {
        let mut json = Json::empty_object();
        store(&mut json, "note_id", &self.note_id);
        store(&mut json, "created_at", &self.created_at);
        store(&mut json, "created_by", &self.created_by);
        store(&mut json, "note", &self.note);
        json
    }
}

impl RoundTrip for ListNote {
    open spec fn writable(&self) -> bool {
        true
    }

    proof fn lemma_round_trip(&self) {
        reveal_strlit("note_id");
        reveal_strlit("created_at");
        reveal_strlit("created_by");
        reveal_strlit("note");
        assert("note_id"@.len() == 7);
        assert("created_at"@.len() == 10);
        assert("created_by"@.len() == 10);
        assert("note"@.len() == 4);
        assert("created_at"@[8] != "created_by"@[8]);
        let m0 = Map::<Seq<char>, JsonTree>::empty();
        let m1 = m0.insert("note_id"@, self.note_id.encoding());
        let m2 = m1.insert("created_at"@, self.created_at.encoding());
        let m3 = m2.insert("created_by"@, self.created_by.encoding());
        let m4 = m3.insert("note"@, self.note.encoding());
        let members = m4;
        assert(self.encoding() == JsonTree::Object(members));
        lemma_member_round_trip(members, "note_id"@, self.note_id);
        lemma_member_round_trip(members, "created_at"@, self.created_at);
        lemma_member_round_trip(members, "created_by"@, self.created_by);
        lemma_member_round_trip(members, "note"@, self.note);
    }
}

/// One marketing permission of a member.
#[derive(Debug, Clone)]
pub struct ListMarketingPermision {
    /// The identifier of the permission on the list.
    pub marketing_permission_id: String,
    /// The wording of the permission.
    pub text: String,
    /// Whether the member has given it.
    pub enabled: bool,
}

impl ListMarketingPermision {
    /// Whether this is the default permission.
    pub open spec fn is_default(&self) -> bool {
        &&& self.marketing_permission_id@.len() == 0
        &&& self.text@.len() == 0
        &&& !self.enabled
    }
}

impl Default for ListMarketingPermision {
    fn default() -> (r: Self)
        ensures
            r.is_default(),
    {
        ListMarketingPermision {
            marketing_permission_id: String::new(),
            text: String::new(),
            enabled: false,
        }
    }
}

impl FromJson for ListMarketingPermision {
    /// An object; every member may be absent.
    open spec fn decodable(tree: JsonTree) -> bool {
        &&& tree is Object
        &&& field_ok::<String>(tree, "marketing_permission_id"@)
        &&& field_ok::<String>(tree, "text"@)
        &&& field_ok::<bool>(tree, "enabled"@)
    }

    open spec fn decodes_to(tree: JsonTree, value: Self) -> bool {
        &&& field_is::<String>(tree, "marketing_permission_id"@, value.marketing_permission_id)
        &&& field_is::<String>(tree, "text"@, value.text)
        &&& field_is::<bool>(tree, "enabled"@, value.enabled)
    }

    open spec fn is_absent(value: Self) -> bool {
        value.is_default()
    }

    fn from_json(json: &Json) -> (r: Option<Self>) {
        if json.kind() != JsonKind::Object {
            return None;
        }
        let marketing_permission_id = read::<String>(json, "marketing_permission_id")?;
        let text = read::<String>(json, "text")?;
        let enabled = read::<bool>(json, "enabled")?;
        Some(
            ListMarketingPermision {
                marketing_permission_id,
                text,
                enabled,
            },
        )
    }

    fn absent() -> (r: Self) {
        ListMarketingPermision::default()
    }
}

impl ToJson for ListMarketingPermision {
    open spec fn encoding(&self) -> JsonTree {
        let m = Map::<Seq<char>, JsonTree>::empty();
        let m = m.insert("marketing_permission_id"@, self.marketing_permission_id.encoding());
        let m = m.insert("text"@, self.text.encoding());
        let m = m.insert("enabled"@, self.enabled.encoding());
        JsonTree::Object(m)
    }

    fn to_json(&self) -> (r: Json) {
        let mut json = Json::empty_object();
        store(&mut json, "marketing_permission_id", &self.marketing_permission_id);
        store(&mut json, "text", &self.text);
        store(&mut json, "enabled", &self.enabled);
        json
    }
}

impl RoundTrip for ListMarketingPermision {
    open spec fn writable(&self) -> bool {
        true
    }

    proof fn lemma_round_trip(&self) {
        reveal_strlit("marketing_permission_id");
        reveal_strlit("text");
        reveal_strlit("enabled");
        assert("marketing_permission_id"@.len() == 23);
        assert("text"@.len() == 4);
        assert("enabled"@.len() == 7);
        let m0 = Map::<Seq<char>, JsonTree>::empty();
        let m1 = m0.insert("marketing_permission_id"@, self.marketing_permission_id.encoding());
        let m2 = m1.insert("text"@, self.text.encoding());
        let m3 = m2.insert("enabled"@, self.enabled.encoding());
        let members = m3;
        assert(self.encoding() == JsonTree::Object(members));
        lemma_member_round_trip(members, "marketing_permission_id"@, self.marketing_permission_id);
        lemma_member_round_trip(members, "text"@, self.text);
        lemma_member_round_trip(members, "enabled"@, self.enabled);
    }
}

/// How often a member opens and clicks.
#[derive(Debug, Clone)]
pub struct SubscriberStats {
    /// The member's average open rate.
    pub avg_open_rate: Decimal,
    /// The member's average click rate.
    pub avg_click_rate: Decimal,
}

impl SubscriberStats {
    /// Whether this is the default figures.
    pub open spec fn is_default(&self) -> bool {
        &&& self.avg_open_rate.is_zero()
        &&& self.avg_click_rate.is_zero()
    }
}

impl Default for SubscriberStats {
    fn default() -> (r: Self)
        ensures
            r.is_default(),
    {
        SubscriberStats {
            avg_open_rate: Decimal::default(),
            avg_click_rate: Decimal::default(),
        }
    }
}

impl FromJson for SubscriberStats {
    /// An object; every member may be absent.
    open spec fn decodable(tree: JsonTree) -> bool {
        &&& tree is Object
        &&& field_ok::<Decimal>(tree, "avg_open_rate"@)
        &&& field_ok::<Decimal>(tree, "avg_click_rate"@)
    }

    open spec fn decodes_to(tree: JsonTree, value: Self) -> bool {
        &&& field_is::<Decimal>(tree, "avg_open_rate"@, value.avg_open_rate)
        &&& field_is::<Decimal>(tree, "avg_click_rate"@, value.avg_click_rate)
    }

    open spec fn is_absent(value: Self) -> bool {
        value.is_default()
    }

    fn from_json(json: &Json) -> (r: Option<Self>) {
        if json.kind() != JsonKind::Object {
            return None;
        }
        let avg_open_rate = read::<Decimal>(json, "avg_open_rate")?;
        let avg_click_rate = read::<Decimal>(json, "avg_click_rate")?;
        Some(
            SubscriberStats {
                avg_open_rate,
                avg_click_rate,
            },
        )
    }

    fn absent() -> (r: Self) {
        SubscriberStats::default()
    }
}

impl ToJson for SubscriberStats {
    open spec fn encoding(&self) -> JsonTree {
        let m = Map::<Seq<char>, JsonTree>::empty();
        let m = m.insert("avg_open_rate"@, self.avg_open_rate.encoding());
        let m = m.insert("avg_click_rate"@, self.avg_click_rate.encoding());
        JsonTree::Object(m)
    }

    fn to_json(&self) -> (r: Json) {
        let mut json = Json::empty_object();
        store(&mut json, "avg_open_rate", &self.avg_open_rate);
        store(&mut json, "avg_click_rate", &self.avg_click_rate);
        json
    }
}

impl RoundTrip for SubscriberStats {
    /// Every member is writable.
    open spec fn writable(&self) -> bool {
        &&& self.avg_open_rate.writable()
        &&& self.avg_click_rate.writable()
    }

    proof fn lemma_round_trip(&self) {
        reveal_strlit("avg_open_rate");
        reveal_strlit("avg_click_rate");
        assert("avg_open_rate"@.len() == 13);
        assert("avg_click_rate"@.len() == 14);
        let m0 = Map::<Seq<char>, JsonTree>::empty();
        let m1 = m0.insert("avg_open_rate"@, self.avg_open_rate.encoding());
        let m2 = m1.insert("avg_click_rate"@, self.avg_click_rate.encoding());
        let members = m2;
        assert(self.encoding() == JsonTree::Object(members));
        lemma_member_round_trip(members, "avg_open_rate"@, self.avg_open_rate);
        lemma_member_round_trip(members, "avg_click_rate"@, self.avg_click_rate);
    }
}

/// Where a member is.
#[derive(Debug, Clone)]
pub struct SubscriberLocation {
    /// The latitude.
    pub latitude: Decimal,
    /// The longitude.
    pub longitude: Decimal,
    /// The hours ahead of GMT.
    pub gmtoff: i64,
    /// The offset while daylight saving time is observed.
    pub dstoff: i64,
    /// The code of the country.
    pub country_code: String,
    /// The time zone.
    pub timezone: String,
}

impl SubscriberLocation {
    /// Whether this is the default location.
    pub open spec fn is_default(&self) -> bool {
        &&& self.latitude.is_zero()
        &&& self.longitude.is_zero()
        &&& self.gmtoff == 0
        &&& self.dstoff == 0
        &&& self.country_code@.len() == 0
        &&& self.timezone@.len() == 0
    }
}

impl Default for SubscriberLocation {
    fn default() -> (r: Self)
        ensures
            r.is_default(),
    {
        SubscriberLocation {
            latitude: Decimal::default(),
            longitude: Decimal::default(),
            gmtoff: 0,
            dstoff: 0,
            country_code: String::new(),
            timezone: String::new(),
        }
    }
}

impl FromJson for SubscriberLocation {
    /// An object; every member may be absent.
    open spec fn decodable(tree: JsonTree) -> bool {
        &&& tree is Object
        &&& field_ok::<Decimal>(tree, "latitude"@)
        &&& field_ok::<Decimal>(tree, "longitude"@)
        &&& field_ok::<i64>(tree, "gmtoff"@)
        &&& field_ok::<i64>(tree, "dstoff"@)
        &&& field_ok::<String>(tree, "country_code"@)
        &&& field_ok::<String>(tree, "timezone"@)
    }

    open spec fn decodes_to(tree: JsonTree, value: Self) -> bool {
        &&& field_is::<Decimal>(tree, "latitude"@, value.latitude)
        &&& field_is::<Decimal>(tree, "longitude"@, value.longitude)
        &&& field_is::<i64>(tree, "gmtoff"@, value.gmtoff)
        &&& field_is::<i64>(tree, "dstoff"@, value.dstoff)
        &&& field_is::<String>(tree, "country_code"@, value.country_code)
        &&& field_is::<String>(tree, "timezone"@, value.timezone)
    }

    open spec fn is_absent(value: Self) -> bool {
        value.is_default()
    }

    fn from_json(json: &Json) -> (r: Option<Self>) {
        if json.kind() != JsonKind::Object {
            return None;
        }
        let latitude = read::<Decimal>(json, "latitude")?;
        let longitude = read::<Decimal>(json, "longitude")?;
        let gmtoff = read::<i64>(json, "gmtoff")?;
        let dstoff = read::<i64>(json, "dstoff")?;
        let country_code = read::<String>(json, "country_code")?;
        let timezone = read::<String>(json, "timezone")?;
        Some(
            SubscriberLocation {
                latitude,
                longitude,
                gmtoff,
                dstoff,
                country_code,
                timezone,
            },
        )
    }

    fn absent() -> (r: Self) {
        SubscriberLocation::default()
    }
}

impl ToJson for SubscriberLocation {
    open spec fn encoding(&self) -> JsonTree {
        let m = Map::<Seq<char>, JsonTree>::empty();
        let m = m.insert("latitude"@, self.latitude.encoding());
        let m = m.insert("longitude"@, self.longitude.encoding());
        let m = m.insert("gmtoff"@, self.gmtoff.encoding());
        let m = m.insert("dstoff"@, self.dstoff.encoding());
        let m = m.insert("country_code"@, self.country_code.encoding());
        let m = m.insert("timezone"@, self.timezone.encoding());
        JsonTree::Object(m)
    }

    fn to_json(&self) -> (r: Json) {
        let mut json = Json::empty_object();
        store(&mut json, "latitude", &self.latitude);
        store(&mut json, "longitude", &self.longitude);
        store(&mut json, "gmtoff", &self.gmtoff);
        store(&mut json, "dstoff", &self.dstoff);
        store(&mut json, "country_code", &self.country_code);
        store(&mut json, "timezone", &self.timezone);
        json
    }
}

impl RoundTrip for SubscriberLocation {
    /// Every member is writable.
    open spec fn writable(&self) -> bool {
        &&& self.latitude.writable()
        &&& self.longitude.writable()
    }

    proof fn lemma_round_trip(&self) {
        reveal_strlit("latitude");
        reveal_strlit("longitude");
        reveal_strlit("gmtoff");
        reveal_strlit("dstoff");
        reveal_strlit("country_code");
        reveal_strlit("timezone");
        assert("latitude"@.len() == 8);
        assert("longitude"@.len() == 9);
        assert("gmtoff"@.len() == 6);
        assert("dstoff"@.len() == 6);
        assert("country_code"@.len() == 12);
        assert("timezone"@.len() == 8);
        assert("latitude"@[0] != "timezone"@[0]);
        assert("gmtoff"@[0] != "dstoff"@[0]);
        let m0 = Map::<Seq<char>, JsonTree>::empty();
        let m1 = m0.insert("latitude"@, self.latitude.encoding());
        let m2 = m1.insert("longitude"@, self.longitude.encoding());
        let m3 = m2.insert("gmtoff"@, self.gmtoff.encoding());
        let m4 = m3.insert("dstoff"@, self.dstoff.encoding());
        let m5 = m4.insert("country_code"@, self.country_code.encoding());
        let m6 = m5.insert("timezone"@, self.timezone.encoding());
        let members = m6;
        assert(self.encoding() == JsonTree::Object(members));
        lemma_member_round_trip(members, "latitude"@, self.latitude);
        lemma_member_round_trip(members, "longitude"@, self.longitude);
        lemma_member_round_trip(members, "gmtoff"@, self.gmtoff);
        lemma_member_round_trip(members, "dstoff"@, self.dstoff);
        lemma_member_round_trip(members, "country_code"@, self.country_code);
        lemma_member_round_trip(members, "timezone"@, self.timezone);
    }
}

/// A member of a list: subscribed, unsubscribed, or bounced. Beside what the
/// service sends, a member carries the client and the endpoint that its own
/// actions use; the pagination sets both.
#[derive(Debug, Clone)]
pub struct ListMember<'a, R: HttpReq> {
    /// The MD5 hash of the member's email address in lower case.
    pub id: String,
    /// The email address.
    pub email_address: String,
    /// The identifier of the address across the whole service.
    pub unique_email_id: String,
    /// The kind of mail the member asked for: HTML or text.
    pub email_type: String,
    /// The state of the subscription.
    pub status: String,
    /// Why the member unsubscribed.
    pub unsubscribe_reason: String,
    /// The merge fields of the member, by name.
    pub merge_fields: Params,
    /// The interests of the member, by identifier.
    pub interests: Params,
    /// How often the member opens and clicks.
    pub stats: SubscriberStats,
    /// The IP address that the member signed up from.
    pub ip_signup: String,
    /// When the member signed up, in ISO 8601 format.
    pub timestamp_signup: String,
    /// The IP address that the member confirmed from.
    pub ip_opt: String,
    /// When the member confirmed, in ISO 8601 format.
    pub timestamp_opt: String,
    /// The star rating of the member, from 1 to 5.
    pub member_rating: u64,
    /// When the member's data last changed, in ISO 8601 format.
    pub last_changed: String,
    /// The member's language, if known.
    pub language: String,
    /// Whether the member is a VIP.
    pub vip: bool,
    /// The member's email client.
    pub email_client: String,
    /// Where the member is.
    pub location: SubscriberLocation,
    /// The marketing permissions of the member.
    pub marketing_permissions: Vec<ListMarketingPermision>,
    /// The latest note on the member.
    pub last_note: ListNote,
    /// The number of tags on the member.
    pub tags_count: u64,
    /// The tags on the member.
    pub tags: Vec<String>,
    /// The list.
    pub list_id: String,
    /// Links to related resources and schema documents.
    pub _links: Vec<LinkType>,
    /// The client that the member's actions go through. No document holds it:
    /// a decoded member has none, and the pagination sets it.
    pub _api: Option<&'a MailchimpApi<R>>,
    /// The endpoint that the member's actions address. No document holds it:
    /// a decoded member has none, and the pagination sets it.
    pub _endpoint: String,
}

impl<'a, R: HttpReq> ListMember<'a, R> {
    /// Whether this is the default member.
    pub open spec fn is_default(&self) -> bool {
        &&& self.id@.len() == 0
        &&& self.email_address@.len() == 0
        &&& self.unique_email_id@.len() == 0
        &&& self.email_type@.len() == 0
        &&& self.status@.len() == 0
        &&& self.unsubscribe_reason@.len() == 0
        &&& self.merge_fields@.len() == 0
        &&& self.interests@.len() == 0
        &&& self.stats.is_default()
        &&& self.ip_signup@.len() == 0
        &&& self.timestamp_signup@.len() == 0
        &&& self.ip_opt@.len() == 0
        &&& self.timestamp_opt@.len() == 0
        &&& self.member_rating == 0
        &&& self.last_changed@.len() == 0
        &&& self.language@.len() == 0
        &&& !self.vip
        &&& self.email_client@.len() == 0
        &&& self.location.is_default()
        &&& self.marketing_permissions@.len() == 0
        &&& self.last_note.is_default()
        &&& self.tags_count == 0
        &&& self.tags@.len() == 0
        &&& self.list_id@.len() == 0
        &&& self._links@.len() == 0
        &&& self._api is None
        &&& self._endpoint@.len() == 0
    }
}

impl<'a, R: HttpReq> Default for ListMember<'a, R> {
    fn default() -> (r: Self)
        ensures
            r.is_default(),
    {
        ListMember {
            id: String::new(),
            email_address: String::new(),
            unique_email_id: String::new(),
            email_type: String::new(),
            status: String::new(),
            unsubscribe_reason: String::new(),
            merge_fields: Params::new(),
            interests: Params::new(),
            stats: SubscriberStats::default(),
            ip_signup: String::new(),
            timestamp_signup: String::new(),
            ip_opt: String::new(),
            timestamp_opt: String::new(),
            member_rating: 0,
            last_changed: String::new(),
            language: String::new(),
            vip: false,
            email_client: String::new(),
            location: SubscriberLocation::default(),
            marketing_permissions: Vec::new(),
            last_note: ListNote::default(),
            tags_count: 0,
            tags: Vec::new(),
            list_id: String::new(),
            _links: Vec::new(),
            _api: None,
            _endpoint: String::new(),
        }
    }
}

impl<'a, R: HttpReq> FromJson for ListMember<'a, R> {
    /// An object; every member may be absent.
    open spec fn decodable(tree: JsonTree) -> bool {
        &&& tree is Object
        &&& field_ok::<String>(tree, "id"@)
        &&& field_ok::<String>(tree, "email_address"@)
        &&& field_ok::<String>(tree, "unique_email_id"@)
        &&& field_ok::<String>(tree, "email_type"@)
        &&& field_ok::<String>(tree, "status"@)
        &&& field_ok::<String>(tree, "unsubscribe_reason"@)
        &&& field_ok::<Params>(tree, "merge_fields"@)
        &&& field_ok::<Params>(tree, "interests"@)
        &&& field_ok::<SubscriberStats>(tree, "stats"@)
        &&& field_ok::<String>(tree, "ip_signup"@)
        &&& field_ok::<String>(tree, "timestamp_signup"@)
        &&& field_ok::<String>(tree, "ip_opt"@)
        &&& field_ok::<String>(tree, "timestamp_opt"@)
        &&& field_ok::<u64>(tree, "member_rating"@)
        &&& field_ok::<String>(tree, "last_changed"@)
        &&& field_ok::<String>(tree, "language"@)
        &&& field_ok::<bool>(tree, "vip"@)
        &&& field_ok::<String>(tree, "email_client"@)
        &&& field_ok::<SubscriberLocation>(tree, "location"@)
        &&& field_ok::<Vec<ListMarketingPermision>>(tree, "marketing_permissions"@)
        &&& field_ok::<ListNote>(tree, "last_note"@)
        &&& field_ok::<u64>(tree, "tags_count"@)
        &&& field_ok::<Vec<String>>(tree, "tags"@)
        &&& field_ok::<String>(tree, "list_id"@)
        &&& field_ok::<Vec<LinkType>>(tree, "_links"@)
    }

    open spec fn decodes_to(tree: JsonTree, value: Self) -> bool {
        &&& field_is::<String>(tree, "id"@, value.id)
        &&& field_is::<String>(tree, "email_address"@, value.email_address)
        &&& field_is::<String>(tree, "unique_email_id"@, value.unique_email_id)
        &&& field_is::<String>(tree, "email_type"@, value.email_type)
        &&& field_is::<String>(tree, "status"@, value.status)
        &&& field_is::<String>(tree, "unsubscribe_reason"@, value.unsubscribe_reason)
        &&& field_is::<Params>(tree, "merge_fields"@, value.merge_fields)
        &&& field_is::<Params>(tree, "interests"@, value.interests)
        &&& field_is::<SubscriberStats>(tree, "stats"@, value.stats)
        &&& field_is::<String>(tree, "ip_signup"@, value.ip_signup)
        &&& field_is::<String>(tree, "timestamp_signup"@, value.timestamp_signup)
        &&& field_is::<String>(tree, "ip_opt"@, value.ip_opt)
        &&& field_is::<String>(tree, "timestamp_opt"@, value.timestamp_opt)
        &&& field_is::<u64>(tree, "member_rating"@, value.member_rating)
        &&& field_is::<String>(tree, "last_changed"@, value.last_changed)
        &&& field_is::<String>(tree, "language"@, value.language)
        &&& field_is::<bool>(tree, "vip"@, value.vip)
        &&& field_is::<String>(tree, "email_client"@, value.email_client)
        &&& field_is::<SubscriberLocation>(tree, "location"@, value.location)
        &&& field_is::<Vec<ListMarketingPermision>>(tree, "marketing_permissions"@, value.marketing_permissions)
        &&& field_is::<ListNote>(tree, "last_note"@, value.last_note)
        &&& field_is::<u64>(tree, "tags_count"@, value.tags_count)
        &&& field_is::<Vec<String>>(tree, "tags"@, value.tags)
        &&& field_is::<String>(tree, "list_id"@, value.list_id)
        &&& field_is::<Vec<LinkType>>(tree, "_links"@, value._links)
        &&& value._api is None
        &&& value._endpoint@.len() == 0
    }

    open spec fn is_absent(value: Self) -> bool {
        value.is_default()
    }

    #[verifier::rlimit(40)]
    fn from_json(json: &Json) -> (r: Option<Self>) {
        if json.kind() != JsonKind::Object {
            return None;
        }
        let id = read::<String>(json, "id")?;
        let email_address = read::<String>(json, "email_address")?;
        let unique_email_id = read::<String>(json, "unique_email_id")?;
        let email_type = read::<String>(json, "email_type")?;
        let status = read::<String>(json, "status")?;
        let unsubscribe_reason = read::<String>(json, "unsubscribe_reason")?;
        let merge_fields = read::<Params>(json, "merge_fields")?;
        let interests = read::<Params>(json, "interests")?;
        let stats = read::<SubscriberStats>(json, "stats")?;
        let ip_signup = read::<String>(json, "ip_signup")?;
        let timestamp_signup = read::<String>(json, "timestamp_signup")?;
        let ip_opt = read::<String>(json, "ip_opt")?;
        let timestamp_opt = read::<String>(json, "timestamp_opt")?;
        let member_rating = read::<u64>(json, "member_rating")?;
        let last_changed = read::<String>(json, "last_changed")?;
        let language = read::<String>(json, "language")?;
        let vip = read::<bool>(json, "vip")?;
        let email_client = read::<String>(json, "email_client")?;
        let location = read::<SubscriberLocation>(json, "location")?;
        let marketing_permissions = read::<Vec<ListMarketingPermision>>(json, "marketing_permissions")?;
        let last_note = read::<ListNote>(json, "last_note")?;
        let tags_count = read::<u64>(json, "tags_count")?;
        let tags = read::<Vec<String>>(json, "tags")?;
        let list_id = read::<String>(json, "list_id")?;
        let _links = read::<Vec<LinkType>>(json, "_links")?;
        Some(
            ListMember {
                id,
                email_address,
                unique_email_id,
                email_type,
                status,
                unsubscribe_reason,
                merge_fields,
                interests,
                stats,
                ip_signup,
                timestamp_signup,
                ip_opt,
                timestamp_opt,
                member_rating,
                last_changed,
                language,
                vip,
                email_client,
                location,
                marketing_permissions,
                last_note,
                tags_count,
                tags,
                list_id,
                _links,
                _api: None,
                _endpoint: String::new(),
            },
        )
    }

    fn absent() -> (r: Self) {
        ListMember::default()
    }
}

impl<'a, R: HttpReq> ToJson for ListMember<'a, R> {
    open spec fn encoding(&self) -> JsonTree {
        let m = Map::<Seq<char>, JsonTree>::empty();
        let m = m.insert("id"@, self.id.encoding());
        let m = m.insert("email_address"@, self.email_address.encoding());
        let m = m.insert("unique_email_id"@, self.unique_email_id.encoding());
        let m = m.insert("email_type"@, self.email_type.encoding());
        let m = m.insert("status"@, self.status.encoding());
        let m = m.insert("unsubscribe_reason"@, self.unsubscribe_reason.encoding());
        let m = m.insert("merge_fields"@, self.merge_fields.encoding());
        let m = m.insert("interests"@, self.interests.encoding());
        let m = m.insert("stats"@, self.stats.encoding());
        let m = m.insert("ip_signup"@, self.ip_signup.encoding());
        let m = m.insert("timestamp_signup"@, self.timestamp_signup.encoding());
        let m = m.insert("ip_opt"@, self.ip_opt.encoding());
        let m = m.insert("timestamp_opt"@, self.timestamp_opt.encoding());
        let m = m.insert("member_rating"@, self.member_rating.encoding());
        let m = m.insert("last_changed"@, self.last_changed.encoding());
        let m = m.insert("language"@, self.language.encoding());
        let m = m.insert("vip"@, self.vip.encoding());
        let m = m.insert("email_client"@, self.email_client.encoding());
        let m = m.insert("location"@, self.location.encoding());
        let m = m.insert("marketing_permissions"@, self.marketing_permissions.encoding());
        let m = m.insert("last_note"@, self.last_note.encoding());
        let m = m.insert("tags_count"@, self.tags_count.encoding());
        let m = m.insert("tags"@, self.tags.encoding());
        let m = m.insert("list_id"@, self.list_id.encoding());
        let m = m.insert("_links"@, self._links.encoding());
        JsonTree::Object(m)
    }

    #[verifier::rlimit(40)]
    fn to_json(&self) -> (r: Json) {
        let mut json = Json::empty_object();
        store(&mut json, "id", &self.id);
        store(&mut json, "email_address", &self.email_address);
        store(&mut json, "unique_email_id", &self.unique_email_id);
        store(&mut json, "email_type", &self.email_type);
        store(&mut json, "status", &self.status);
        store(&mut json, "unsubscribe_reason", &self.unsubscribe_reason);
        store(&mut json, "merge_fields", &self.merge_fields);
        store(&mut json, "interests", &self.interests);
        store(&mut json, "stats", &self.stats);
        store(&mut json, "ip_signup", &self.ip_signup);
        store(&mut json, "timestamp_signup", &self.timestamp_signup);
        store(&mut json, "ip_opt", &self.ip_opt);
        store(&mut json, "timestamp_opt", &self.timestamp_opt);
        store(&mut json, "member_rating", &self.member_rating);
        store(&mut json, "last_changed", &self.last_changed);
        store(&mut json, "language", &self.language);
        store(&mut json, "vip", &self.vip);
        store(&mut json, "email_client", &self.email_client);
        store(&mut json, "location", &self.location);
        store(&mut json, "marketing_permissions", &self.marketing_permissions);
        store(&mut json, "last_note", &self.last_note);
        store(&mut json, "tags_count", &self.tags_count);
        store(&mut json, "tags", &self.tags);
        store(&mut json, "list_id", &self.list_id);
        store(&mut json, "_links", &self._links);
        json
    }
}

impl<'a, R: HttpReq> RoundTrip for ListMember<'a, R> {
    /// Every member is writable, and there is nothing that no document
    /// holds: no client and no endpoint.
    open spec fn writable(&self) -> bool {
        &&& self.merge_fields.writable()
        &&& self.interests.writable()
        &&& self.stats.writable()
        &&& self.location.writable()
        &&& self.marketing_permissions.writable()
        &&& self.last_note.writable()
        &&& self._links.writable()
        &&& self._api is None
        &&& self._endpoint@.len() == 0
    }

    #[verifier::rlimit(40)]
    proof fn lemma_round_trip(&self) {
        reveal_strlit("id");
        reveal_strlit("email_address");
        reveal_strlit("unique_email_id");
        reveal_strlit("email_type");
        reveal_strlit("status");
        reveal_strlit("unsubscribe_reason");
        reveal_strlit("merge_fields");
        reveal_strlit("interests");
        reveal_strlit("stats");
        reveal_strlit("ip_signup");
        reveal_strlit("timestamp_signup");
        reveal_strlit("ip_opt");
        reveal_strlit("timestamp_opt");
        reveal_strlit("member_rating");
        reveal_strlit("last_changed");
        reveal_strlit("language");
        reveal_strlit("vip");
        reveal_strlit("email_client");
        reveal_strlit("location");
        reveal_strlit("marketing_permissions");
        reveal_strlit("last_note");
        reveal_strlit("tags_count");
        reveal_strlit("tags");
        reveal_strlit("list_id");
        reveal_strlit("_links");
        assert("id"@.len() == 2);
        assert("email_address"@.len() == 13);
        assert("unique_email_id"@.len() == 15);
        assert("email_type"@.len() == 10);
        assert("status"@.len() == 6);
        assert("unsubscribe_reason"@.len() == 18);
        assert("merge_fields"@.len() == 12);
        assert("interests"@.len() == 9);
        assert("stats"@.len() == 5);
        assert("ip_signup"@.len() == 9);
        assert("timestamp_signup"@.len() == 16);
        assert("ip_opt"@.len() == 6);
        assert("timestamp_opt"@.len() == 13);
        assert("member_rating"@.len() == 13);
        assert("last_changed"@.len() == 12);
        assert("language"@.len() == 8);
        assert("vip"@.len() == 3);
        assert("email_client"@.len() == 12);
        assert("location"@.len() == 8);
        assert("marketing_permissions"@.len() == 21);
        assert("last_note"@.len() == 9);
        assert("tags_count"@.len() == 10);
        assert("tags"@.len() == 4);
        assert("list_id"@.len() == 7);
        assert("_links"@.len() == 6);
        assert("email_address"@[0] != "timestamp_opt"@[0]);
        assert("email_address"@[0] != "member_rating"@[0]);
        assert("email_type"@[0] != "tags_count"@[0]);
        assert("status"@[0] != "ip_opt"@[0]);
        assert("status"@[0] != "_links"@[0]);
        assert("merge_fields"@[0] != "last_changed"@[0]);
        assert("merge_fields"@[0] != "email_client"@[0]);
        assert("interests"@[1] != "ip_signup"@[1]);
        assert("interests"@[0] != "last_note"@[0]);
        assert("ip_signup"@[0] != "last_note"@[0]);
        assert("ip_opt"@[0] != "_links"@[0]);
        assert("timestamp_opt"@[0] != "member_rating"@[0]);
        assert("last_changed"@[0] != "email_client"@[0]);
        assert("language"@[1] != "location"@[1]);
        let m0 = Map::<Seq<char>, JsonTree>::empty();
        let m1 = m0.insert("id"@, self.id.encoding());
        let m2 = m1.insert("email_address"@, self.email_address.encoding());
        let m3 = m2.insert("unique_email_id"@, self.unique_email_id.encoding());
        let m4 = m3.insert("email_type"@, self.email_type.encoding());
        let m5 = m4.insert("status"@, self.status.encoding());
        let m6 = m5.insert("unsubscribe_reason"@, self.unsubscribe_reason.encoding());
        let m7 = m6.insert("merge_fields"@, self.merge_fields.encoding());
        let m8 = m7.insert("interests"@, self.interests.encoding());
        let m9 = m8.insert("stats"@, self.stats.encoding());
        let m10 = m9.insert("ip_signup"@, self.ip_signup.encoding());
        let m11 = m10.insert("timestamp_signup"@, self.timestamp_signup.encoding());
        let m12 = m11.insert("ip_opt"@, self.ip_opt.encoding());
        let m13 = m12.insert("timestamp_opt"@, self.timestamp_opt.encoding());
        let m14 = m13.insert("member_rating"@, self.member_rating.encoding());
        let m15 = m14.insert("last_changed"@, self.last_changed.encoding());
        let m16 = m15.insert("language"@, self.language.encoding());
        let m17 = m16.insert("vip"@, self.vip.encoding());
        let m18 = m17.insert("email_client"@, self.email_client.encoding());
        let m19 = m18.insert("location"@, self.location.encoding());
        let m20 = m19.insert("marketing_permissions"@, self.marketing_permissions.encoding());
        let m21 = m20.insert("last_note"@, self.last_note.encoding());
        let m22 = m21.insert("tags_count"@, self.tags_count.encoding());
        let m23 = m22.insert("tags"@, self.tags.encoding());
        let m24 = m23.insert("list_id"@, self.list_id.encoding());
        let m25 = m24.insert("_links"@, self._links.encoding());
        let members = m25;
        assert(self.encoding() == JsonTree::Object(members));
        lemma_member_round_trip(members, "id"@, self.id);
        lemma_member_round_trip(members, "email_address"@, self.email_address);
        lemma_member_round_trip(members, "unique_email_id"@, self.unique_email_id);
        lemma_member_round_trip(members, "email_type"@, self.email_type);
        lemma_member_round_trip(members, "status"@, self.status);
        lemma_member_round_trip(members, "unsubscribe_reason"@, self.unsubscribe_reason);
        lemma_member_round_trip(members, "merge_fields"@, self.merge_fields);
        lemma_member_round_trip(members, "interests"@, self.interests);
        lemma_member_round_trip(members, "stats"@, self.stats);
        lemma_member_round_trip(members, "ip_signup"@, self.ip_signup);
        lemma_member_round_trip(members, "timestamp_signup"@, self.timestamp_signup);
        lemma_member_round_trip(members, "ip_opt"@, self.ip_opt);
        lemma_member_round_trip(members, "timestamp_opt"@, self.timestamp_opt);
        lemma_member_round_trip(members, "member_rating"@, self.member_rating);
        lemma_member_round_trip(members, "last_changed"@, self.last_changed);
        lemma_member_round_trip(members, "language"@, self.language);
        lemma_member_round_trip(members, "vip"@, self.vip);
        lemma_member_round_trip(members, "email_client"@, self.email_client);
        lemma_member_round_trip(members, "location"@, self.location);
        lemma_member_round_trip(members, "marketing_permissions"@, self.marketing_permissions);
        lemma_member_round_trip(members, "last_note"@, self.last_note);
        lemma_member_round_trip(members, "tags_count"@, self.tags_count);
        lemma_member_round_trip(members, "tags"@, self.tags);
        lemma_member_round_trip(members, "list_id"@, self.list_id);
        lemma_member_round_trip(members, "_links"@, self._links);
    }
}

/// One page of the members of a list.
#[derive(Debug, Clone)]
pub struct CollectionListMembers<'a, R: HttpReq> {
    /// The members of this page.
    pub members: Vec<ListMember<'a, R>>,
    /// The list.
    pub list_id: String,
    /// The number of members that match, over all pages.
    pub total_items: u64,
    /// Links to related resources and schema documents.
    pub _links: Vec<LinkType>,
}

impl<'a, R: HttpReq> CollectionListMembers<'a, R> {
    /// Whether this is the default page.
    pub open spec fn is_default(&self) -> bool {
        &&& self.members@.len() == 0
        &&& self.list_id@.len() == 0
        &&& self.total_items == 0
        &&& self._links@.len() == 0
    }
}

impl<'a, R: HttpReq> Default for CollectionListMembers<'a, R> {
    fn default() -> (r: Self)
        ensures
            r.is_default(),
    {
        CollectionListMembers {
            members: Vec::new(),
            list_id: String::new(),
            total_items: 0,
            _links: Vec::new(),
        }
    }
}

impl<'a, R: HttpReq> FromJson for CollectionListMembers<'a, R> {
    /// An object; every member may be absent.
    open spec fn decodable(tree: JsonTree) -> bool {
        &&& tree is Object
        &&& field_ok::<Vec<ListMember<'a, R>>>(tree, "members"@)
        &&& field_ok::<String>(tree, "list_id"@)
        &&& field_ok::<u64>(tree, "total_items"@)
        &&& field_ok::<Vec<LinkType>>(tree, "_links"@)
    }

    open spec fn decodes_to(tree: JsonTree, value: Self) -> bool {
        &&& field_is::<Vec<ListMember<'a, R>>>(tree, "members"@, value.members)
        &&& field_is::<String>(tree, "list_id"@, value.list_id)
        &&& field_is::<u64>(tree, "total_items"@, value.total_items)
        &&& field_is::<Vec<LinkType>>(tree, "_links"@, value._links)
    }

    open spec fn is_absent(value: Self) -> bool {
        value.is_default()
    }

    fn from_json(json: &Json) -> (r: Option<Self>) {
        if json.kind() != JsonKind::Object {
            return None;
        }
        let members = read::<Vec<ListMember<'a, R>>>(json, "members")?;
        let list_id = read::<String>(json, "list_id")?;
        let total_items = read::<u64>(json, "total_items")?;
        let _links = read::<Vec<LinkType>>(json, "_links")?;
        Some(
            CollectionListMembers {
                members,
                list_id,
                total_items,
                _links,
            },
        )
    }

    fn absent() -> (r: Self) {
        CollectionListMembers::default()
    }
}

impl<'a, R: HttpReq> ToJson for CollectionListMembers<'a, R> {
    open spec fn encoding(&self) -> JsonTree {
        let m = Map::<Seq<char>, JsonTree>::empty();
        let m = m.insert("members"@, self.members.encoding());
        let m = m.insert("list_id"@, self.list_id.encoding());
        let m = m.insert("total_items"@, self.total_items.encoding());
        let m = m.insert("_links"@, self._links.encoding());
        JsonTree::Object(m)
    }

    fn to_json(&self) -> (r: Json) {
        let mut json = Json::empty_object();
        store(&mut json, "members", &self.members);
        store(&mut json, "list_id", &self.list_id);
        store(&mut json, "total_items", &self.total_items);
        store(&mut json, "_links", &self._links);
        json
    }
}

impl<'a, R: HttpReq> RoundTrip for CollectionListMembers<'a, R> {
    /// Every member is writable.
    open spec fn writable(&self) -> bool {
        &&& self.members.writable()
        &&& self._links.writable()
    }

    proof fn lemma_round_trip(&self) {
        reveal_strlit("members");
        reveal_strlit("list_id");
        reveal_strlit("total_items");
        reveal_strlit("_links");
        assert("members"@.len() == 7);
        assert("list_id"@.len() == 7);
        assert("total_items"@.len() == 11);
        assert("_links"@.len() == 6);
        assert("members"@[0] != "list_id"@[0]);
        let m0 = Map::<Seq<char>, JsonTree>::empty();
        let m1 = m0.insert("members"@, self.members.encoding());
        let m2 = m1.insert("list_id"@, self.list_id.encoding());
        let m3 = m2.insert("total_items"@, self.total_items.encoding());
        let m4 = m3.insert("_links"@, self._links.encoding());
        let members = m4;
        assert(self.encoding() == JsonTree::Object(members));
        lemma_member_round_trip(members, "members"@, self.members);
        lemma_member_round_trip(members, "list_id"@, self.list_id);
        lemma_member_round_trip(members, "total_items"@, self.total_items);
        lemma_member_round_trip(members, "_links"@, self._links);
    }
}

impl<'a, R: HttpReq> ListMember<'a, R> {
    /// The endpoint of the action that deletes the member for good.
    pub open spec fn permanent_delete_endpoint_text(&self) -> Seq<char> {
        self._endpoint@ + "/actions/delete-permanent"@
    }

    /// Whether `r` is what an action of the member reports that requests
    /// `endpoint` with `method`: without client nothing is requested and the
    /// fallback error is reported; with a client the action is one request,
    /// without parameters, through that client, and `r` is what the answer
    /// of the transport stands for.
    pub open spec fn is_reported(
        &self,
        method: RequestMethod,
        endpoint: Seq<char>,
        r: Option<MailchimpErrorType>,
    ) -> bool {
        match self._api {
            Some(api) => exists|reply: MailchimpResult<String>| #[trigger]
                is_action_outcome(reply, r) && api.answers_call(
                    method,
                    endpoint,
                    ParamSeq::empty(),
                    reply,
                ),
            None => r matches Some(e) && e.is_fallback(),
        }
    }

    /// The endpoint of the action that deletes the member for good.
    pub fn permanent_delete_endpoint(&self) -> (r: String)
        ensures
            r@ == self.permanent_delete_endpoint_text(),
    {
        let mut b_endpoint = self._endpoint.clone();
        b_endpoint.append("/actions/delete-permanent");
        b_endpoint
    }

    /// Deletes the member for good: everything that identifies the person is
    /// removed, and the address cannot be imported again. One `POST`,
    /// without parameters, to the action under the member's endpoint. `None`
    /// reports success.
    pub fn permanently_delete(&self) -> (r: Option<MailchimpErrorType>)
        ensures
            self.is_reported(RequestMethod::Post, self.permanent_delete_endpoint_text(), r),
    {
        let b_endpoint = self.permanent_delete_endpoint();
        match self._api {
            Some(api) => api.action(RequestMethod::Post, b_endpoint.as_str()),
            None => Some(MailchimpErrorType::default()),
        }
    }

    /// Removes the member from the list: one `DELETE`, without parameters
    /// and without body, to the member's endpoint. `None` reports success.
    pub fn delete(&self) -> (r: Option<MailchimpErrorType>)
        ensures
            self.is_reported(RequestMethod::Delete, self._endpoint@, r),
    {
        match self._api {
            Some(api) => api.action(RequestMethod::Delete, self._endpoint.as_str()),
            None => Some(MailchimpErrorType::default()),
        }
    }

    /// Sets the client that the member's actions go through.
    pub fn set_api(&mut self, n_api: &'a MailchimpApi<R>)
        ensures
            final(self)._api == Some(n_api),
            *final(self) == (ListMember { _api: final(self)._api, ..*old(self) }),
    {
        self._api = Some(n_api);
    }

    /// Sets the endpoint that the member's actions address.
    pub fn set_endpoint(&mut self, n_endpoint: &str)
        ensures
            final(self)._endpoint@ == n_endpoint@,
            *final(self) == (ListMember { _endpoint: final(self)._endpoint, ..*old(self) }),
    {
        self._endpoint = String::from_str(n_endpoint);
    }

    /// The endpoint that the member's actions address.
    pub fn get_base_endpoint(&self) -> (r: &String)
        ensures
            r@ == self._endpoint@,
    {
        &self._endpoint
    }
}

impl<'a, R: HttpReq> MailchimpCollection<ListMember<'a, R>> for CollectionListMembers<'a, R> {
    open spec fn total(&self) -> u64 {
        self.total_items
    }

    open spec fn values(&self) -> Seq<ListMember<'a, R>> {
        self.members@
    }

    fn get_total_items(&self) -> (r: u64) {
        self.total_items
    }

    fn get_values(self) -> (r: Vec<ListMember<'a, R>>) {
        self.members
    }
}

/// The page size that the service uses where a filter names none.
pub const DEFAULT_COUNT: u64 = 10;

/// The filter of the members of a list. A member that is `None` is left out
/// of the request.
#[derive(Debug, Clone)]
pub struct ListMembersFilter {
    /// The fields to return, separated by commas; members of sub-objects in
    /// dot notation.
    pub fields: Option<String>,
    /// The fields to leave out, separated by commas.
    pub exclude_fields: Option<String>,
    /// The number of records per page. The service returns 10 where none is
    /// named.
    pub count: Option<u64>,
    /// The number of records to skip. The service skips none where none is
    /// named.
    pub offset: Option<u64>,
    /// The kind of mail the members asked for.
    pub email_type: Option<String>,
    /// The state of the subscription.
    pub status: Option<String>,
    /// Only members who confirmed after this time.
    pub since_timestamp_opt: Option<String>,
    /// Only members who confirmed before this time.
    pub before_timestamp_opt: Option<String>,
    /// Only members whose data changed after this time.
    pub since_last_changed: Option<String>,
    /// Only members whose data changed before this time.
    pub before_last_changed: Option<String>,
    /// Only the member with this identifier of the address.
    pub unique_email_id: Option<String>,
    /// Whether only VIP members are returned.
    pub vip_only: Option<String>,
    /// The interest category that `interest_ids` belong to.
    pub interest_category_id: Option<String>,
    /// The interests to filter by, separated by commas.
    pub interest_ids: Option<String>,
    /// Whether a member has to have any, all or none of the interests.
    pub interest_match: Option<String>,
    /// The field to sort by.
    pub sort_field: Option<String>,
    /// The direction to sort in.
    pub sort_dir: Option<String>,
    /// Whether only members are returned whose state changed since the last
    /// campaign was sent.
    pub since_last_campaign: Option<bool>,
    /// Only members who unsubscribed after this time.
    pub unsubscribed_since: Option<String>,
}

impl ListMembersFilter {
    /// Whether this is the default filter: pages of 50 from the start,
    /// nothing else named.
    pub open spec fn is_default(&self) -> bool {
        &&& self.fields is None
        &&& self.exclude_fields is None
        &&& self.count == Some(50u64)
        &&& self.offset == Some(0u64)
        &&& self.email_type is None
        &&& self.status is None
        &&& self.since_timestamp_opt is None
        &&& self.before_timestamp_opt is None
        &&& self.since_last_changed is None
        &&& self.before_last_changed is None
        &&& self.unique_email_id is None
        &&& self.vip_only is None
        &&& self.interest_category_id is None
        &&& self.interest_ids is None
        &&& self.interest_match is None
        &&& self.sort_field is None
        &&& self.sort_dir is None
        &&& self.since_last_campaign is None
        &&& self.unsubscribed_since is None
    }

    /// Whether `self` asks for what `other` asks for, the offset left aside.
    pub open spec fn same_but_offset(&self, other: &ListMembersFilter) -> bool {
        &&& self.fields.deep_view() == other.fields.deep_view()
        &&& self.exclude_fields.deep_view() == other.exclude_fields.deep_view()
        &&& self.count == other.count
        &&& self.email_type.deep_view() == other.email_type.deep_view()
        &&& self.status.deep_view() == other.status.deep_view()
        &&& self.since_timestamp_opt.deep_view() == other.since_timestamp_opt.deep_view()
        &&& self.before_timestamp_opt.deep_view() == other.before_timestamp_opt.deep_view()
        &&& self.since_last_changed.deep_view() == other.since_last_changed.deep_view()
        &&& self.before_last_changed.deep_view() == other.before_last_changed.deep_view()
        &&& self.unique_email_id.deep_view() == other.unique_email_id.deep_view()
        &&& self.vip_only.deep_view() == other.vip_only.deep_view()
        &&& self.interest_category_id.deep_view() == other.interest_category_id.deep_view()
        &&& self.interest_ids.deep_view() == other.interest_ids.deep_view()
        &&& self.interest_match.deep_view() == other.interest_match.deep_view()
        &&& self.sort_field.deep_view() == other.sort_field.deep_view()
        &&& self.sort_dir.deep_view() == other.sort_dir.deep_view()
        &&& self.since_last_campaign == other.since_last_campaign
        &&& self.unsubscribed_since.deep_view() == other.unsubscribed_since.deep_view()
    }
}

impl Default for ListMembersFilter {
    fn default() -> (r: Self)
        ensures
            r.is_default(),
    {
        ListMembersFilter {
            fields: None,
            exclude_fields: None,
            count: Some(50),
            offset: Some(0),
            email_type: None,
            status: None,
            since_timestamp_opt: None,
            before_timestamp_opt: None,
            since_last_changed: None,
            before_last_changed: None,
            unique_email_id: None,
            vip_only: None,
            interest_category_id: None,
            interest_ids: None,
            interest_match: None,
            sort_field: None,
            sort_dir: None,
            since_last_campaign: None,
            unsubscribed_since: None,
        }
    }
}

impl ResourceFilter for ListMembersFilter {
    /// Every member that is named, under its own name, in the order of the
    /// members; numbers in decimal digits, the boolean as `true` or `false`.
    open spec fn payload(&self) -> ParamSeq {
        let s = ParamSeq::empty();
        let s = with_text(s, "fields"@, self.fields);
        let s = with_text(s, "exclude_fields"@, self.exclude_fields);
        let s = with_number(s, "count"@, self.count);
        let s = with_number(s, "offset"@, self.offset);
        let s = with_text(s, "email_type"@, self.email_type);
        let s = with_text(s, "status"@, self.status);
        let s = with_text(s, "since_timestamp_opt"@, self.since_timestamp_opt);
        let s = with_text(s, "before_timestamp_opt"@, self.before_timestamp_opt);
        let s = with_text(s, "since_last_changed"@, self.since_last_changed);
        let s = with_text(s, "before_last_changed"@, self.before_last_changed);
        let s = with_text(s, "unique_email_id"@, self.unique_email_id);
        let s = with_text(s, "vip_only"@, self.vip_only);
        let s = with_text(s, "interest_category_id"@, self.interest_category_id);
        let s = with_text(s, "interest_ids"@, self.interest_ids);
        let s = with_text(s, "interest_match"@, self.interest_match);
        let s = with_text(s, "sort_field"@, self.sort_field);
        let s = with_text(s, "sort_dir"@, self.sort_dir);
        let s = with_flag(s, "since_last_campaign"@, self.since_last_campaign);
        let s = with_text(s, "unsubscribed_since"@, self.unsubscribed_since);
        s
    }

    /// The page size named, or the one that the service uses where none is.
    open spec fn count(&self) -> u64 {
        match self.count {
            Some(n) => n,
            None => DEFAULT_COUNT,
        }
    }

    /// The offset named, or zero.
    open spec fn offset(&self) -> u64 {
        match self.offset {
            Some(n) => n,
            None => 0,
        }
    }

    fn build_payload(&self) -> (r: Params) {
        let mut payload = Params::new();
        payload.insert_text("fields", &self.fields);
        payload.insert_text("exclude_fields", &self.exclude_fields);
        payload.insert_number("count", &self.count);
        payload.insert_number("offset", &self.offset);
        payload.insert_text("email_type", &self.email_type);
        payload.insert_text("status", &self.status);
        payload.insert_text("since_timestamp_opt", &self.since_timestamp_opt);
        payload.insert_text("before_timestamp_opt", &self.before_timestamp_opt);
        payload.insert_text("since_last_changed", &self.since_last_changed);
        payload.insert_text("before_last_changed", &self.before_last_changed);
        payload.insert_text("unique_email_id", &self.unique_email_id);
        payload.insert_text("vip_only", &self.vip_only);
        payload.insert_text("interest_category_id", &self.interest_category_id);
        payload.insert_text("interest_ids", &self.interest_ids);
        payload.insert_text("interest_match", &self.interest_match);
        payload.insert_text("sort_field", &self.sort_field);
        payload.insert_text("sort_dir", &self.sort_dir);
        payload.insert_flag("since_last_campaign", &self.since_last_campaign);
        payload.insert_text("unsubscribed_since", &self.unsubscribed_since);
        payload
    }

    fn page_size(&self) -> (r: u64) {
        match self.count {
            Some(n) => n,
            None => DEFAULT_COUNT,
        }
    }

    fn page_offset(&self) -> (r: u64) {
        match self.offset {
            Some(n) => n,
            None => 0,
        }
    }
}

/// A filter whose members are those of `f`, the offset left aside, asks for
/// what `f` asks for under every name but `offset`.
pub proof fn lemma_moved_filter_agrees(g: ListMembersFilter, f: ListMembersFilter)
    requires
        g.same_but_offset(&f),
    ensures
        agree_but(g.payload(), f.payload(), "offset"@),
{
    let skip = "offset"@;
    let a0 = ParamSeq::empty();
    let b0 = ParamSeq::empty();
    lemma_agree_empty(skip);
    let a1 = with_text(a0, "fields"@, g.fields);
    let b1 = with_text(b0, "fields"@, f.fields);
    lemma_agree_text(a0, b0, "fields"@, g.fields, f.fields, skip);
    let a2 = with_text(a1, "exclude_fields"@, g.exclude_fields);
    let b2 = with_text(b1, "exclude_fields"@, f.exclude_fields);
    lemma_agree_text(a1, b1, "exclude_fields"@, g.exclude_fields, f.exclude_fields, skip);
    let a3 = with_number(a2, "count"@, g.count);
    let b3 = with_number(b2, "count"@, f.count);
    lemma_agree_number(a2, b2, "count"@, g.count, f.count, skip);
    let a4 = with_number(a3, "offset"@, g.offset);
    let b4 = with_number(b3, "offset"@, f.offset);
    lemma_agree_number(a3, b3, "offset"@, g.offset, f.offset, skip);
    let a5 = with_text(a4, "email_type"@, g.email_type);
    let b5 = with_text(b4, "email_type"@, f.email_type);
    lemma_agree_text(a4, b4, "email_type"@, g.email_type, f.email_type, skip);
    let a6 = with_text(a5, "status"@, g.status);
    let b6 = with_text(b5, "status"@, f.status);
    lemma_agree_text(a5, b5, "status"@, g.status, f.status, skip);
    let a7 = with_text(a6, "since_timestamp_opt"@, g.since_timestamp_opt);
    let b7 = with_text(b6, "since_timestamp_opt"@, f.since_timestamp_opt);
    lemma_agree_text(a6, b6, "since_timestamp_opt"@, g.since_timestamp_opt, f.since_timestamp_opt, skip);
    let a8 = with_text(a7, "before_timestamp_opt"@, g.before_timestamp_opt);
    let b8 = with_text(b7, "before_timestamp_opt"@, f.before_timestamp_opt);
    lemma_agree_text(a7, b7, "before_timestamp_opt"@, g.before_timestamp_opt, f.before_timestamp_opt, skip);
    let a9 = with_text(a8, "since_last_changed"@, g.since_last_changed);
    let b9 = with_text(b8, "since_last_changed"@, f.since_last_changed);
    lemma_agree_text(a8, b8, "since_last_changed"@, g.since_last_changed, f.since_last_changed, skip);
    let a10 = with_text(a9, "before_last_changed"@, g.before_last_changed);
    let b10 = with_text(b9, "before_last_changed"@, f.before_last_changed);
    lemma_agree_text(a9, b9, "before_last_changed"@, g.before_last_changed, f.before_last_changed, skip);
    let a11 = with_text(a10, "unique_email_id"@, g.unique_email_id);
    let b11 = with_text(b10, "unique_email_id"@, f.unique_email_id);
    lemma_agree_text(a10, b10, "unique_email_id"@, g.unique_email_id, f.unique_email_id, skip);
    let a12 = with_text(a11, "vip_only"@, g.vip_only);
    let b12 = with_text(b11, "vip_only"@, f.vip_only);
    lemma_agree_text(a11, b11, "vip_only"@, g.vip_only, f.vip_only, skip);
    let a13 = with_text(a12, "interest_category_id"@, g.interest_category_id);
    let b13 = with_text(b12, "interest_category_id"@, f.interest_category_id);
    lemma_agree_text(a12, b12, "interest_category_id"@, g.interest_category_id, f.interest_category_id, skip);
    let a14 = with_text(a13, "interest_ids"@, g.interest_ids);
    let b14 = with_text(b13, "interest_ids"@, f.interest_ids);
    lemma_agree_text(a13, b13, "interest_ids"@, g.interest_ids, f.interest_ids, skip);
    let a15 = with_text(a14, "interest_match"@, g.interest_match);
    let b15 = with_text(b14, "interest_match"@, f.interest_match);
    lemma_agree_text(a14, b14, "interest_match"@, g.interest_match, f.interest_match, skip);
    let a16 = with_text(a15, "sort_field"@, g.sort_field);
    let b16 = with_text(b15, "sort_field"@, f.sort_field);
    lemma_agree_text(a15, b15, "sort_field"@, g.sort_field, f.sort_field, skip);
    let a17 = with_text(a16, "sort_dir"@, g.sort_dir);
    let b17 = with_text(b16, "sort_dir"@, f.sort_dir);
    lemma_agree_text(a16, b16, "sort_dir"@, g.sort_dir, f.sort_dir, skip);
    let a18 = with_flag(a17, "since_last_campaign"@, g.since_last_campaign);
    let b18 = with_flag(b17, "since_last_campaign"@, f.since_last_campaign);
    lemma_agree_flag(a17, b17, "since_last_campaign"@, g.since_last_campaign, f.since_last_campaign, skip);
    let a19 = with_text(a18, "unsubscribed_since"@, g.unsubscribed_since);
    let b19 = with_text(b18, "unsubscribed_since"@, f.unsubscribed_since);
    lemma_agree_text(a18, b18, "unsubscribed_since"@, g.unsubscribed_since, f.unsubscribed_since, skip);
    assert(g.payload() == a19);
    assert(f.payload() == b19);
}

impl ListMembersFilter {
    /// The filter of the page after the one that this filter asks for: the
    /// offset moves on by the page size, and nothing else changes.
    pub fn moved_on(&self) -> (r: ListMembersFilter)
        requires
            self.offset() + self.count() <= u64::MAX,
        ensures
            r.same_but_offset(self),
            r.offset == Some((self.offset() + self.count()) as u64),
            agree_but(r.payload(), self.payload(), "offset"@),
            value_of(r.payload(), "offset"@) == Some(
                decimal((self.offset() + self.count()) as nat),
            ),
    {
        let r = ListMembersFilter {
            fields: copy_text(&self.fields),
            exclude_fields: copy_text(&self.exclude_fields),
            count: self.count,
            offset: Some(self.page_offset() + self.page_size()),
            email_type: copy_text(&self.email_type),
            status: copy_text(&self.status),
            since_timestamp_opt: copy_text(&self.since_timestamp_opt),
            before_timestamp_opt: copy_text(&self.before_timestamp_opt),
            since_last_changed: copy_text(&self.since_last_changed),
            before_last_changed: copy_text(&self.before_last_changed),
            unique_email_id: copy_text(&self.unique_email_id),
            vip_only: copy_text(&self.vip_only),
            interest_category_id: copy_text(&self.interest_category_id),
            interest_ids: copy_text(&self.interest_ids),
            interest_match: copy_text(&self.interest_match),
            sort_field: copy_text(&self.sort_field),
            sort_dir: copy_text(&self.sort_dir),
            since_last_campaign: self.since_last_campaign,
            unsubscribed_since: copy_text(&self.unsubscribed_since),
        };
        proof {
            lemma_moved_filter_agrees(r, *self);
            lemma_filter_value(r, 3);
        }
        r
    }
}

/// The binding of the pagination to the members of a list.
#[derive(Debug)]
pub struct ListMembersBuilder {
    /// The endpoint of the collection: `lists/{list_id}/members`. Every
    /// member handed out is given its own endpoint below it.
    pub endpoint: String,
}

impl<'a, R: HttpReq + 'a> BuildIter<'a, R> for ListMembersBuilder {
    type Item = ListMember<'a, R>;

    type FilterItem = ListMembersFilter;

    type Collection = CollectionListMembers<'a, R>;

    /// The member as it arrived, with the client of the walk and with its
    /// own endpoint: the endpoint of the collection, a slash, and the
    /// member's identifier.
    open spec fn hooked(
        &self,
        raw: ListMember<'a, R>,
        api: &MailchimpApi<R>,
        out: ListMember<'a, R>,
    ) -> bool {
        &&& out._endpoint@ == self.endpoint@ + "/"@ + raw.id@
        &&& out._api matches Some(kept) && *kept == *api
        &&& out == (ListMember { _api: out._api, _endpoint: out._endpoint, ..raw })
    }

    fn update_item(&self, data: ListMember<'a, R>, api: &'a MailchimpApi<R>) -> (r: ListMember<
        'a,
        R,
    >) {
        let mut own = self.endpoint.clone();
        own.append("/");
        own.append(data.id.as_str());
        let mut in_data = data;
        in_data.set_api(api);
        in_data.set_endpoint(own.as_str());
        in_data
    }

    fn update_filter_offset(&self, filter: &ListMembersFilter) -> (r: ListMembersFilter) {
        filter.moved_on()
    }
}

} // verus!
