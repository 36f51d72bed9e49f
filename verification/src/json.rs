//! JSON documents. Reading and writing JSON text is left to `serde_json`;
//! this module gives its document type a mathematical model, [`JsonTree`],
//! and states over that model what each operation on a document does.

use crate::text::decimal;
use vstd::prelude::*;

verus! {

/// The mathematical model of a JSON document.
pub enum JsonTree {
    /// `null`
    Null,
    /// `true` or `false`
    Bool(bool),
    /// A number written without fraction or exponent, within the range that
    /// `serde_json` keeps as an integer (`i64::MIN ..= u64::MAX`).
    Integer(int),
    /// Any other number, identified by its canonical text.
    Decimal(Seq<char>),
    /// A string.
    Text(Seq<char>),
    /// An array.
    Array(Seq<JsonTree>),
    /// An object: one value per key.
    Object(Map<Seq<char>, JsonTree>),
}

impl JsonTree {
    /// The boolean this node holds, if it is one.
    pub open spec fn boolean(self) -> Option<bool> {
        match self {
            JsonTree::Bool(b) => Some(b),
            _ => None,
        }
    }

    /// The integer this node holds, if it is one that fits in `u64`.
    pub open spec fn unsigned(self) -> Option<u64> {
        match self {
            JsonTree::Integer(n) => if 0 <= n <= u64::MAX {
                Some(n as u64)
            } else {
                None
            },
            _ => None,
        }
    }

    /// The integer this node holds, if it is one that fits in `i64`.
    pub open spec fn signed(self) -> Option<i64> {
        match self {
            JsonTree::Integer(n) => if i64::MIN <= n <= i64::MAX {
                Some(n as i64)
            } else {
                None
            },
            _ => None,
        }
    }

    /// The keys of this node, if it is an object.
    pub open spec fn keys(self) -> Option<Set<Seq<char>>> {
        match self {
            JsonTree::Object(m) => Some(m.dom()),
            _ => None,
        }
    }

    /// The string this node holds, if it is one.
    pub open spec fn text(self) -> Option<Seq<char>> {
        match self {
            JsonTree::Text(s) => Some(s),
            _ => None,
        }
    }

    /// The value stored under `key`, if this node is an object that has it.
    pub open spec fn member(self, key: Seq<char>) -> Option<JsonTree> {
        match self {
            JsonTree::Object(m) => if m.dom().contains(key) {
                Some(m[key])
            } else {
                None
            },
            _ => None,
        }
    }

    /// The `i`-th element, if this node is an array that long.
    pub open spec fn element(self, i: int) -> Option<JsonTree> {
        match self {
            JsonTree::Array(s) => if 0 <= i < s.len() {
                Some(s[i])
            } else {
                None
            },
            _ => None,
        }
    }

    /// This node with `member` stored under `key`, if it is an object; any
    /// other node as it is.
    pub open spec fn with_member(self, key: Seq<char>, member: JsonTree) -> JsonTree {
        match self {
            JsonTree::Object(m) => JsonTree::Object(m.insert(key, member)),
            _ => self,
        }
    }

    /// The number of elements, if this node is an array.
    pub open spec fn element_count(self) -> Option<nat> {
        match self {
            JsonTree::Array(s) => Some(s.len()),
            _ => None,
        }
    }

    /// The text of the number this node holds, if it is one: an integer in
    /// decimal digits, with `-` before a negative one; any other number in
    /// its canonical text.
    pub open spec fn number_text(self) -> Option<Seq<char>> {
        match self {
            JsonTree::Integer(n) => if n >= 0 {
                Some(decimal(n as nat))
            } else {
                Some("-"@ + decimal((-n) as nat))
            },
            JsonTree::Decimal(t) => Some(t),
            _ => None,
        }
    }

    /// Which of the six JSON kinds this node is.
    pub open spec fn kind(self) -> JsonKind {
        match self {
            JsonTree::Null => JsonKind::Null,
            JsonTree::Bool(_) => JsonKind::Bool,
            JsonTree::Integer(_) => JsonKind::Number,
            JsonTree::Decimal(_) => JsonKind::Number,
            JsonTree::Text(_) => JsonKind::Text,
            JsonTree::Array(_) => JsonKind::Array,
            JsonTree::Object(_) => JsonKind::Object,
        }
    }
}

/// The six kinds of JSON value.
#[derive(Clone, Copy, PartialEq, Eq, Structural, Debug)]
pub enum JsonKind {
    /// `null`
    Null,
    /// `true` or `false`
    Bool,
    /// A number, integer or not.
    Number,
    /// A string.
    Text,
    /// An array.
    Array,
    /// An object.
    Object,
}

/// `serde_json::Value`, taken as it is: nothing of what is inside a value is
/// visible but through the operations below.
#[verifier::external_type_specification]
#[verifier::external_body]
pub struct ExSerdeValue(serde_json::Value);

/// The document that a `serde_json::Value` holds.
pub uninterp spec fn json_tree(v: serde_json::Value) -> JsonTree;

/// What `serde_json` reads from a text: the document, or `None` where the
/// text is not one JSON value.
pub uninterp spec fn json_parse(text: Seq<char>) -> Option<JsonTree>;

/// `serde_json::from_str` for a `Value`. The contract names the outcome
/// [`json_parse`]: the same text always gives the same document, and an
/// error is reported as `None`.
#[verifier::external_body]
fn value_from_text(text: &str) -> (r: Option<serde_json::Value>)
    ensures
        match r {
            Some(v) => json_parse(text@) == Some(json_tree(v)),
            None => json_parse(text@).is_none(),
        },
{
    match serde_json::from_str::<serde_json::Value>(text) {
        Ok(v) => Some(v),
        Err(_) => None,
    }
}

/// Tells the variants of `serde_json::Value` apart.
#[verifier::external_body]
fn value_kind(v: &serde_json::Value) -> (r: JsonKind)
    ensures
        r == json_tree(*v).kind(),
{
    match v {
        serde_json::Value::Null => JsonKind::Null,
        serde_json::Value::Bool(_) => JsonKind::Bool,
        serde_json::Value::Number(_) => JsonKind::Number,
        serde_json::Value::String(_) => JsonKind::Text,
        serde_json::Value::Array(_) => JsonKind::Array,
        serde_json::Value::Object(_) => JsonKind::Object,
    }
}

/// `Value::as_bool`: the boolean of a `Bool`, `None` for every other variant.
#[verifier::external_body]
fn value_bool(v: &serde_json::Value) -> (r: Option<bool>)
    ensures
        r == json_tree(*v).boolean(),
{
    v.as_bool()
}

/// `Value::as_u64`: the number where it is a non-negative integer that
/// `serde_json` holds as `u64`, `None` for negative integers, for other
/// numbers and for every other variant.
#[verifier::external_body]
fn value_u64(v: &serde_json::Value) -> (r: Option<u64>)
    ensures
        r == json_tree(*v).unsigned(),
{
    v.as_u64()
}

/// `Value::as_i64`: the number where it is an integer that fits in `i64`,
/// `None` for larger integers, for other numbers and for every other
/// variant.
#[verifier::external_body]
fn value_i64(v: &serde_json::Value) -> (r: Option<i64>)
    ensures
        r == json_tree(*v).signed(),
{
    v.as_i64()
}

/// `Value::as_object` and the keys of the map, copied: every key of the
/// object, each once; `None` where the value is not an object.
#[verifier::external_body]
fn value_keys(v: &serde_json::Value) -> (r: Option<Vec<String>>)
    ensures
        match r {
            Some(keys) => {
                &&& json_tree(*v).keys() is Some
                &&& keys.deep_view().no_duplicates()
                &&& forall|k: Seq<char>|
                    keys.deep_view().contains(k) <==> json_tree(*v).keys()->0.contains(k)
            },
            None => json_tree(*v).keys().is_none(),
        },
{
    match v.as_object() {
        Some(m) => Some(m.keys().cloned().collect()),
        None => None,
    }
}

/// `Value::as_str`, copied into an owned string: the text of a `String`,
/// `None` for every other variant.
#[verifier::external_body]
fn value_text(v: &serde_json::Value) -> (r: Option<String>)
    ensures
        match r {
            Some(s) => json_tree(*v).text() == Some(s@),
            None => json_tree(*v).text().is_none(),
        },
{
    match v.as_str() {
        Some(s) => Some(s.to_owned()),
        None => None,
    }
}

/// `Value::get` with a string key, the result cloned: the member of an
/// object under that key, `None` where the key is absent or the value is not
/// an object.
#[verifier::external_body]
fn value_member(v: &serde_json::Value, key: &str) -> (r: Option<serde_json::Value>)
    ensures
        match r {
            Some(m) => json_tree(*v).member(key@) == Some(json_tree(m)),
            None => json_tree(*v).member(key@).is_none(),
        },
{
    v.get(key).cloned()
}

/// `Value::get` with an index, the result cloned: the element of an array
/// at that index, `None` where the index is out of range or the value is not
/// an array.
#[verifier::external_body]
fn value_element(v: &serde_json::Value, i: usize) -> (r: Option<serde_json::Value>)
    ensures
        match r {
            Some(e) => json_tree(*v).element(i as int) == Some(json_tree(e)),
            None => json_tree(*v).element(i as int).is_none(),
        },
{
    v.get(i).cloned()
}

/// `Value::as_array` and the length of the vector it gives: `None` where the
/// value is not an array.
#[verifier::external_body]
fn value_element_count(v: &serde_json::Value) -> (r: Option<usize>)
    ensures
        match r {
            Some(n) => json_tree(*v).element_count() == Some(n as nat),
            None => json_tree(*v).element_count().is_none(),
        },
{
    match v.as_array() {
        Some(a) => Some(a.len()),
        None => None,
    }
}

/// The compact JSON text that `serde_json` writes for a document.
pub uninterp spec fn json_text(tree: JsonTree) -> Seq<char>;

/// `Display` of a `Value`: its compact JSON text. The contract names the
/// text [`json_text`]: the same document always gives the same text.
#[verifier::external_body]
fn value_print(v: &serde_json::Value) -> (r: String)
    ensures
        r@ == json_text(json_tree(*v)),
{
    v.to_string()
}

/// `Value::as_number` and the `Display` text of the number: decimal digits
/// for an integer, the shortest text that reads back as the same value for
/// any other number; `None` where the value is not a number.
#[verifier::external_body]
fn value_number_text(v: &serde_json::Value) -> (r: Option<String>)
    ensures
        r.deep_view() == json_tree(*v).number_text(),
{
    match v.as_number() {
        Some(n) => Some(n.to_string()),
        None => None,
    }
}

/// `Clone` of a `Value`: a value that holds the same document.
pub assume_specification[ <serde_json::Value as Clone>::clone ](v: &serde_json::Value) -> (r:
    serde_json::Value)
    ensures
        json_tree(r) == json_tree(*v),
;

/// The variant `Value::Null`.
#[verifier::external_body]
fn value_null() -> (r: serde_json::Value)
    ensures
        json_tree(r) == JsonTree::Null,
{
    serde_json::Value::Null
}

/// The variant `Value::Bool`.
#[verifier::external_body]
fn value_of_bool(b: bool) -> (r: serde_json::Value)
    ensures
        json_tree(r) == JsonTree::Bool(b),
{
    serde_json::Value::Bool(b)
}

/// `Value::from` for a `u64`: the number, kept as an integer.
#[verifier::external_body]
fn value_of_u64(n: u64) -> (r: serde_json::Value)
    ensures
        json_tree(r) == JsonTree::Integer(n as int),
{
    serde_json::Value::from(n)
}

/// `Value::from` for an `i64`: the number, kept as an integer.
#[verifier::external_body]
fn value_of_i64(n: i64) -> (r: serde_json::Value)
    ensures
        json_tree(r) == JsonTree::Integer(n as int),
{
    serde_json::Value::from(n)
}

/// The variant `Value::String`, holding a copy of the text.
#[verifier::external_body]
fn value_of_text(s: &str) -> (r: serde_json::Value)
    ensures
        json_tree(r) == JsonTree::Text(s@),
{
    serde_json::Value::String(s.to_owned())
}

/// The variant `Value::Array`, holding the given documents in order.
#[verifier::external_body]
fn value_of_elements(items: Vec<Json>) -> (r: serde_json::Value)
    ensures
        json_tree(r) == JsonTree::Array(items@.map_values(|j: Json| json_tree(j.inner))),
{
    serde_json::Value::Array(items.into_iter().map(|j| j.inner).collect())
}

/// The variant `Value::Object` with an empty `Map`.
#[verifier::external_body]
fn value_empty_object() -> (r: serde_json::Value)
    ensures
        json_tree(r) == JsonTree::Object(Map::empty()),
{
    serde_json::Value::Object(serde_json::Map::new())
}

/// `Map::insert` on the map of an object: the key is added, or, where it is
/// there already, takes the new value. Every other member stays. A value
/// that is no object is left as it is.
#[verifier::external_body]
fn value_insert(v: &mut serde_json::Value, key: String, member: serde_json::Value)
    ensures
        json_tree(*final(v)) == json_tree(*old(v)).with_member(key@, json_tree(member)),
{
    if let serde_json::Value::Object(m) = v {
        m.insert(key, member);
    }
}

/// A parsed JSON document.
#[derive(Debug)]
pub struct Json {
    inner: serde_json::Value,
}

impl View for Json {
    type V = JsonTree;

    closed spec fn view(&self) -> JsonTree {
        json_tree(self.inner)
    }
}

impl Clone for Json {
    /// A second document with the same content.
    fn clone(&self) -> (r: Self)
        ensures
            r@ == self@,
    {
        Json { inner: self.inner.clone() }
    }
}

impl Json {
    /// Reads one JSON value from `text`; `None` where the text is not JSON.
    pub fn parse(text: &str) -> (r: Option<Json>)
        ensures
            match r {
                Some(j) => json_parse(text@) == Some(j@),
                None => json_parse(text@).is_none(),
            },
    {
        match value_from_text(text) {
            Some(v) => Some(Json { inner: v }),
            None => None,
        }
    }

    /// The kind of the document's root.
    pub fn kind(&self) -> (r: JsonKind)
        ensures
            r == self@.kind(),
    {
        value_kind(&self.inner)
    }

    /// The root as a boolean.
    pub fn boolean(&self) -> (r: Option<bool>)
        ensures
            r == self@.boolean(),
    {
        value_bool(&self.inner)
    }

    /// The root as an unsigned integer.
    pub fn unsigned(&self) -> (r: Option<u64>)
        ensures
            r == self@.unsigned(),
    {
        value_u64(&self.inner)
    }

    /// The root as a signed integer.
    pub fn signed(&self) -> (r: Option<i64>)
        ensures
            r == self@.signed(),
    {
        value_i64(&self.inner)
    }

    /// The keys of the root, each once, where the root is an object.
    pub fn member_names(&self) -> (r: Option<Vec<String>>)
        ensures
            match r {
                Some(keys) => {
                    &&& self@.keys() is Some
                    &&& keys.deep_view().no_duplicates()
                    &&& forall|k: Seq<char>|
                        keys.deep_view().contains(k) <==> self@.keys()->0.contains(k)
                },
                None => self@.keys().is_none(),
            },
    {
        value_keys(&self.inner)
    }

    /// The root as a string.
    pub fn text(&self) -> (r: Option<String>)
        ensures
            match r {
                Some(s) => self@.text() == Some(s@),
                None => self@.text().is_none(),
            },
    {
        value_text(&self.inner)
    }

    /// The member under `key`, where the root is an object that has it.
    pub fn member(&self, key: &str) -> (r: Option<Json>)
        ensures
            match r {
                Some(m) => self@.member(key@) == Some(m@),
                None => self@.member(key@).is_none(),
            },
    {
        match value_member(&self.inner, key) {
            Some(v) => Some(Json { inner: v }),
            None => None,
        }
    }

    /// The element at index `i`, where the root is an array that long.
    pub fn element(&self, i: usize) -> (r: Option<Json>)
        ensures
            match r {
                Some(e) => self@.element(i as int) == Some(e@),
                None => self@.element(i as int).is_none(),
            },
    {
        match value_element(&self.inner, i) {
            Some(v) => Some(Json { inner: v }),
            None => None,
        }
    }

    /// The number of elements, where the root is an array.
    pub fn element_count(&self) -> (r: Option<usize>)
        ensures
            match r {
                Some(n) => self@.element_count() == Some(n as nat),
                None => self@.element_count().is_none(),
            },
    {
        value_element_count(&self.inner)
    }

    /// The root as the text of a number.
    pub fn number_text(&self) -> (r: Option<String>)
        ensures
            r.deep_view() == self@.number_text(),
    {
        value_number_text(&self.inner)
    }

    /// The compact JSON text of the document.
    pub fn print(&self) -> (r: String)
        ensures
            r@ == json_text(self@),
    {
        value_print(&self.inner)
    }

    /// The document `null`.
    pub fn null() -> (r: Json)
        ensures
            r@ == JsonTree::Null,
    {
        Json { inner: value_null() }
    }

    /// A boolean document.
    pub fn of_bool(b: bool) -> (r: Json)
        ensures
            r@ == JsonTree::Bool(b),
    {
        Json { inner: value_of_bool(b) }
    }

    /// An integer document.
    pub fn of_unsigned(n: u64) -> (r: Json)
        ensures
            r@ == JsonTree::Integer(n as int),
    {
        Json { inner: value_of_u64(n) }
    }

    /// An integer document.
    pub fn of_signed(n: i64) -> (r: Json)
        ensures
            r@ == JsonTree::Integer(n as int),
    {
        Json { inner: value_of_i64(n) }
    }

    /// A string document.
    pub fn of_text(s: &str) -> (r: Json)
        ensures
            r@ == JsonTree::Text(s@),
    {
        Json { inner: value_of_text(s) }
    }

    /// An array document with the given elements.
    pub fn of_elements(items: Vec<Json>) -> (r: Json)
        ensures
            r@ == JsonTree::Array(items@.map_values(|j: Json| j@)),
    {
        let ghost trees = items@.map_values(|j: Json| j@);
        let ghost inner_trees = items@.map_values(|j: Json| json_tree(j.inner));
        assert(trees =~= inner_trees);
        Json { inner: value_of_elements(items) }
    }

    /// The object without members.
    pub fn empty_object() -> (r: Json)
        ensures
            r@ == JsonTree::Object(Map::empty()),
    {
        Json { inner: value_empty_object() }
    }

    /// Stores `member` under `key` in an object: a new key is added, a key
    /// that is there already takes the new value. A document that is no
    /// object stays as it is.
    pub fn set_member(&mut self, key: String, member: Json)
        ensures
            final(self)@ == old(self)@.with_member(key@, member@),
    {
        value_insert(&mut self.inner, key, member.inner);
    }
}

} // verus!
