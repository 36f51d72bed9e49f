//! Numbers that need not be integers. The library carries such a number as
//! the JSON number it arrived as and hands out its text; it does no
//! arithmetic on it.

use crate::codec::{FromJson, ToJson};
use crate::json::{Json, JsonKind, JsonTree};
use vstd::prelude::*;

verus! {

/// A JSON number, integer or not.
#[derive(Debug)]
pub struct Decimal {
    value: Json,
}

impl Decimal {
    #[verifier::type_invariant]
    spec fn holds_a_number(self) -> bool {
        self.value@.kind() == JsonKind::Number
    }

    /// The number as a document.
    pub closed spec fn tree(&self) -> JsonTree {
        self.value@
    }

    /// Whether this is the integer zero.
    pub open spec fn is_zero(&self) -> bool {
        self.tree() == JsonTree::Integer(0)
    }

    /// The number `n`.
    pub fn from_unsigned(n: u64) -> (r: Self)
        ensures
            r.tree() == JsonTree::Integer(n as int),
    {
        Decimal { value: Json::of_unsigned(n) }
    }

    /// The text of the number: decimal digits for an integer, the canonical
    /// text for any other number.
    pub fn text(&self) -> (r: String)
        ensures
            self.tree().number_text() == Some(r@),
    {
        proof {
            use_type_invariant(self);
        }
        match self.value.number_text() {
            Some(t) => t,
            None => String::new(),
        }
    }
}

impl Clone for Decimal {
    /// The same number again.
    fn clone(&self) -> (r: Self)
        ensures
            r.tree() == self.tree(),
    {
        proof {
            use_type_invariant(self);
        }
        Decimal { value: self.value.clone() }
    }
}

impl Default for Decimal {
    /// Zero.
    fn default() -> (r: Self)
        ensures
            r.is_zero(),
    {
        Decimal::from_unsigned(0)
    }
}

impl FromJson for Decimal {
    /// A number document.
    open spec fn decodable(tree: JsonTree) -> bool {
        tree.kind() == JsonKind::Number
    }

    open spec fn decodes_to(tree: JsonTree, value: Self) -> bool {
        value.tree() == tree
    }

    /// An absent number is zero.
    open spec fn is_absent(value: Self) -> bool {
        value.is_zero()
    }

    fn from_json(json: &Json) -> (r: Option<Self>) {
        if json.kind() == JsonKind::Number {
            Some(Decimal { value: json.clone() })
        } else {
            None
        }
    }

    fn absent() -> (r: Self) {
        Decimal::default()
    }
}

impl ToJson for Decimal {
    open spec fn encoding(&self) -> JsonTree {
        self.tree()
    }

    fn to_json(&self) -> (r: Json) {
        self.value.clone()
    }
}

} // verus!
