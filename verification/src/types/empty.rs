//! The record of a response that carries no data.

use crate::codec::{FromJson, ToJson};
use crate::json::{Json, JsonKind, JsonTree};
use crate::round_trip::{RoundTrip};
use vstd::prelude::*;

verus! {

/// What an action returns: nothing. An empty body decodes to it, and so does
/// any object.
#[derive(Debug, Clone)]
pub struct EmptyType {}

impl EmptyType {
    /// Whether this is the default record.
    pub open spec fn is_default(&self) -> bool {
        true
    }
}

impl Default for EmptyType {
    fn default() -> (r: Self)
        ensures
            r.is_default(),
    {
        EmptyType {  }
    }
}

impl FromJson for EmptyType {
    /// Any object.
    open spec fn decodable(tree: JsonTree) -> bool {
        tree is Object
    }

    open spec fn decodes_to(tree: JsonTree, value: Self) -> bool {
        true
    }

    open spec fn is_absent(value: Self) -> bool {
        value.is_default()
    }

    fn from_json(json: &Json) -> (r: Option<Self>) {
        if json.kind() != JsonKind::Object {
            return None;
        }
        Some(EmptyType {  })
    }

    fn absent() -> (r: Self) {
        EmptyType::default()
    }
}

impl ToJson for EmptyType {
    open spec fn encoding(&self) -> JsonTree {
        JsonTree::Object(Map::empty())
    }

    fn to_json(&self) -> (r: Json) {
        Json::empty_object()
    }
}

impl RoundTrip for EmptyType {
    open spec fn writable(&self) -> bool {
        true
    }

    proof fn lemma_round_trip(&self) {
    }
}

} // verus!
