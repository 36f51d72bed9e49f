//! Links to the schema documents of the API.

use crate::codec::{field_is, field_ok, FromJson, read, store, ToJson};
use crate::json::{Json, JsonKind, JsonTree};
use crate::round_trip::{lemma_member_round_trip, RoundTrip};
use vstd::prelude::*;

verus! {

/// A link to a related resource or to a schema document of the API.
#[derive(Debug, Clone)]
pub struct LinkType {
    /// How the target relates to the resource that carries the link.
    pub rel: String,
    /// The URL of the target.
    pub href: String,
    /// The HTTP method to use on the target.
    pub method: String,
    /// The URL of the schema of the target.
    pub target_schema: String,
    /// The URL of the schema of the request body.
    pub schema: String,
}

impl LinkType {
    /// Whether this is the default link.
    pub open spec fn is_default(&self) -> bool {
        &&& self.rel@.len() == 0
        &&& self.href@.len() == 0
        &&& self.method@.len() == 0
        &&& self.target_schema@.len() == 0
        &&& self.schema@.len() == 0
    }
}

impl Default for LinkType {
    fn default() -> (r: Self)
        ensures
            r.is_default(),
    {
        LinkType {
            rel: String::new(),
            href: String::new(),
            method: String::new(),
            target_schema: String::new(),
            schema: String::new(),
        }
    }
}

impl FromJson for LinkType {
    /// An object; every member may be absent.
    open spec fn decodable(tree: JsonTree) -> bool {
        &&& tree is Object
        &&& field_ok::<String>(tree, "rel"@)
        &&& field_ok::<String>(tree, "href"@)
        &&& field_ok::<String>(tree, "method"@)
        &&& field_ok::<String>(tree, "targetSchema"@)
        &&& field_ok::<String>(tree, "schema"@)
    }

    open spec fn decodes_to(tree: JsonTree, value: Self) -> bool {
        &&& field_is::<String>(tree, "rel"@, value.rel)
        &&& field_is::<String>(tree, "href"@, value.href)
        &&& field_is::<String>(tree, "method"@, value.method)
        &&& field_is::<String>(tree, "targetSchema"@, value.target_schema)
        &&& field_is::<String>(tree, "schema"@, value.schema)
    }

    open spec fn is_absent(value: Self) -> bool {
        value.is_default()
    }

    fn from_json(json: &Json) -> (r: Option<Self>) {
        if json.kind() != JsonKind::Object {
            return None;
        }
        let rel = read::<String>(json, "rel")?;
        let href = read::<String>(json, "href")?;
        let method = read::<String>(json, "method")?;
        let target_schema = read::<String>(json, "targetSchema")?;
        let schema = read::<String>(json, "schema")?;
        Some(
            LinkType {
                rel,
                href,
                method,
                target_schema,
                schema,
            },
        )
    }

    fn absent() -> (r: Self) {
        LinkType::default()
    }
}

impl ToJson for LinkType {
    open spec fn encoding(&self) -> JsonTree {
        let m = Map::<Seq<char>, JsonTree>::empty();
        let m = m.insert("rel"@, self.rel.encoding());
        let m = m.insert("href"@, self.href.encoding());
        let m = m.insert("method"@, self.method.encoding());
        let m = m.insert("targetSchema"@, self.target_schema.encoding());
        let m = m.insert("schema"@, self.schema.encoding());
        JsonTree::Object(m)
    }

    fn to_json(&self) -> (r: Json) {
        let mut json = Json::empty_object();
        store(&mut json, "rel", &self.rel);
        store(&mut json, "href", &self.href);
        store(&mut json, "method", &self.method);
        store(&mut json, "targetSchema", &self.target_schema);
        store(&mut json, "schema", &self.schema);
        json
    }
}

impl RoundTrip for LinkType {
    open spec fn writable(&self) -> bool {
        true
    }

    proof fn lemma_round_trip(&self) {
        reveal_strlit("rel");
        reveal_strlit("href");
        reveal_strlit("method");
        reveal_strlit("targetSchema");
        reveal_strlit("schema");
        assert("rel"@.len() == 3);
        assert("href"@.len() == 4);
        assert("method"@.len() == 6);
        assert("targetSchema"@.len() == 12);
        assert("schema"@.len() == 6);
        assert("method"@[0] != "schema"@[0]);
        let m0 = Map::<Seq<char>, JsonTree>::empty();
        let m1 = m0.insert("rel"@, self.rel.encoding());
        let m2 = m1.insert("href"@, self.href.encoding());
        let m3 = m2.insert("method"@, self.method.encoding());
        let m4 = m3.insert("targetSchema"@, self.target_schema.encoding());
        let m5 = m4.insert("schema"@, self.schema.encoding());
        let members = m5;
        assert(self.encoding() == JsonTree::Object(members));
        lemma_member_round_trip(members, "rel"@, self.rel);
        lemma_member_round_trip(members, "href"@, self.href);
        lemma_member_round_trip(members, "method"@, self.method);
        lemma_member_round_trip(members, "targetSchema"@, self.target_schema);
        lemma_member_round_trip(members, "schema"@, self.schema);
    }
}

} // verus!
