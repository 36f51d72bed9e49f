//! The error that every failed call reports.

use crate::codec::{field_is, field_ok, read, store, FromJson, ToJson};
use crate::round_trip::{lemma_member_round_trip, RoundTrip};
use crate::json::{Json, JsonKind, JsonTree};
use vstd::prelude::*;

verus! {

/// An error as the service reports it in the body of a response that is no
/// success. Where a response cannot be read as this shape, and where no
/// response came at all, the fallback value stands in: every text empty and
/// status zero.
#[derive(Debug, Clone)]
pub struct MailchimpErrorType {
    /// An absolute URI that identifies the kind of problem.
    pub error_type: String,
    /// A short summary of the kind of problem.
    pub title: String,
    /// The HTTP status code of the response.
    pub status: u64,
    /// An explanation of this occurrence of the problem.
    pub detail: String,
    /// An identifier of this occurrence, to be given to support.
    pub instance: String,
}

impl MailchimpErrorType {
    /// Whether this is the fallback error.
    pub open spec fn is_fallback(&self) -> bool {
        &&& self.error_type@.len() == 0
        &&& self.title@.len() == 0
        &&& self.status == 0
        &&& self.detail@.len() == 0
        &&& self.instance@.len() == 0
    }
}

impl MailchimpErrorType {
    /// Whether this is the fallback error.
    pub fn is_fallback_error(&self) -> (r: bool)
        ensures
            r == self.is_fallback(),
    {
        self.error_type.as_str().is_empty() && self.title.as_str().is_empty() && self.status == 0
            && self.detail.as_str().is_empty() && self.instance.as_str().is_empty()
    }
}

impl Default for MailchimpErrorType {
    /// The fallback error.
    fn default() -> (r: Self)
        ensures
            r.is_fallback(),
    {
        MailchimpErrorType {
            error_type: String::new(),
            title: String::new(),
            status: 0,
            detail: String::new(),
            instance: String::new(),
        }
    }
}

impl FromJson for MailchimpErrorType {
    /// An error document is an object whose members `type`, `title`,
    /// `detail` and `instance` are strings and whose member `status` is an
    /// unsigned integer, each of them optional.
    open spec fn decodable(tree: JsonTree) -> bool {
        &&& tree is Object
        &&& field_ok::<String>(tree, "type"@)
        &&& field_ok::<String>(tree, "title"@)
        &&& field_ok::<u64>(tree, "status"@)
        &&& field_ok::<String>(tree, "detail"@)
        &&& field_ok::<String>(tree, "instance"@)
    }

    open spec fn decodes_to(tree: JsonTree, value: Self) -> bool {
        &&& field_is::<String>(tree, "type"@, value.error_type)
        &&& field_is::<String>(tree, "title"@, value.title)
        &&& field_is::<u64>(tree, "status"@, value.status)
        &&& field_is::<String>(tree, "detail"@, value.detail)
        &&& field_is::<String>(tree, "instance"@, value.instance)
    }

    /// An absent error is the fallback error.
    open spec fn is_absent(value: Self) -> bool {
        value.is_fallback()
    }

    fn from_json(json: &Json) -> (r: Option<Self>) {
        if json.kind() != JsonKind::Object {
            return None;
        }
        let error_type = read::<String>(json, "type")?;
        let title = read::<String>(json, "title")?;
        let status = read::<u64>(json, "status")?;
        let detail = read::<String>(json, "detail")?;
        let instance = read::<String>(json, "instance")?;
        Some(MailchimpErrorType { error_type, title, status, detail, instance })
    }

    fn absent() -> (r: Self) {
        MailchimpErrorType::default()
    }
}

impl ToJson for MailchimpErrorType {
    /// An error is written as an object with all five members.
    open spec fn encoding(&self) -> JsonTree {
        let m = Map::<Seq<char>, JsonTree>::empty();
        let m = m.insert("type"@, self.error_type.encoding());
        let m = m.insert("title"@, self.title.encoding());
        let m = m.insert("status"@, self.status.encoding());
        let m = m.insert("detail"@, self.detail.encoding());
        let m = m.insert("instance"@, self.instance.encoding());
        JsonTree::Object(m)
    }

    fn to_json(&self) -> (r: Json) {
        let mut json = Json::empty_object();
        store(&mut json, "type", &self.error_type);
        store(&mut json, "title", &self.title);
        store(&mut json, "status", &self.status);
        store(&mut json, "detail", &self.detail);
        store(&mut json, "instance", &self.instance);
        json
    }
}

impl RoundTrip for MailchimpErrorType {
    open spec fn writable(&self) -> bool {
        true
    }

    proof fn lemma_round_trip(&self) {
        reveal_strlit("type");
        reveal_strlit("title");
        reveal_strlit("status");
        reveal_strlit("detail");
        reveal_strlit("instance");
        assert("type"@.len() == 4);
        assert("title"@.len() == 5);
        assert("status"@.len() == 6);
        assert("detail"@.len() == 6);
        assert("instance"@.len() == 8);
        assert("status"@[0] != "detail"@[0]);
        let members = self.encoding()->Object_0;
        lemma_member_round_trip(members, "type"@, self.error_type);
        lemma_member_round_trip(members, "title"@, self.title);
        lemma_member_round_trip(members, "status"@, self.status);
        lemma_member_round_trip(members, "detail"@, self.detail);
        lemma_member_round_trip(members, "instance"@, self.instance);
    }
}

} // verus!
