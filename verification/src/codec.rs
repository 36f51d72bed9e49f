//! Decoding records from JSON documents and writing them back: the
//! [`FromJson`] and [`ToJson`] capabilities, their instances for the plain
//! types that records are made of, and the reader and writer of one member
//! of an object.
//!
//! A member that is absent takes the value that its type gives to absent
//! members; a member that is present with the wrong kind of value makes the
//! whole document undecodable.

use crate::json::{Json, JsonKind, JsonTree};
use crate::params::{has_key, key_position, value_of, ParamSeq, Params};
use vstd::prelude::*;

verus! {

/// A type whose values can be decoded from JSON documents.
pub trait FromJson: Sized {
    /// Whether `tree` is a document of this type.
    spec fn decodable(tree: JsonTree) -> bool;

    /// Whether `value` is what the document `tree` holds.
    spec fn decodes_to(tree: JsonTree, value: Self) -> bool;

    /// Whether `value` is what stands for a member that is not there.
    spec fn is_absent(value: Self) -> bool;

    /// Decodes the document; `None` where it is no document of this type.
    fn from_json(json: &Json) -> (r: Option<Self>)
        ensures
            r is Some <==> Self::decodable(json@),
            r matches Some(x) ==> Self::decodes_to(json@, x),
    ;

    /// The value that stands for a member that is not there.
    fn absent() -> (r: Self)
        ensures
            Self::is_absent(r),
    ;
}

/// A type whose values can be written as JSON documents.
pub trait ToJson {
    /// The document that stands for this value.
    spec fn encoding(&self) -> JsonTree;

    /// Builds the document.
    fn to_json(&self) -> (r: Json)
        ensures
            r@ == self.encoding(),
    ;
}

/// Whether the member `key` of `tree` can be read as a `T`: it is absent, or
/// a document of type `T`.
pub open spec fn field_ok<T: FromJson>(tree: JsonTree, key: Seq<char>) -> bool {
    match tree.member(key) {
        None => true,
        Some(m) => T::decodable(m),
    }
}

/// Whether `value` is what the member `key` of `tree` holds: what the
/// member decodes to, or, where there is no such member, what stands for an
/// absent one.
pub open spec fn field_is<T: FromJson>(tree: JsonTree, key: Seq<char>, value: T) -> bool {
    match tree.member(key) {
        None => T::is_absent(value),
        Some(m) => T::decodes_to(m, value),
    }
}

/// Reads the member `key` of an object as a `T`.
pub fn read<T: FromJson>(json: &Json, key: &str) -> (r: Option<T>)
    ensures
        r is Some <==> field_ok::<T>(json@, key@),
        r matches Some(x) ==> field_is::<T>(json@, key@, x),
{
    match json.member(key) {
        None => Some(T::absent()),
        Some(m) => T::from_json(&m),
    }
}

/// Stores the document of `value` under `key` in an object.
pub fn store<T: ToJson>(json: &mut Json, key: &str, value: &T)
    ensures
        final(json)@ == old(json)@.with_member(key@, value.encoding()),
        old(json)@ is Object ==> final(json)@ == JsonTree::Object(
            old(json)@->Object_0.insert(key@, value.encoding()),
        ),
{
    json.set_member(String::from_str(key), value.to_json());
}

/// `members` with the document of `value` under `key`, where there is a
/// value; unchanged where there is none.
#[verifier::opaque]
pub open spec fn with_present<T: ToJson>(
    members: Map<Seq<char>, JsonTree>,
    key: Seq<char>,
    value: Option<T>,
) -> Map<Seq<char>, JsonTree> {
    match value {
        Some(x) => members.insert(key, x.encoding()),
        None => members,
    }
}

/// The object `tree` with the document of `value` under `key`, where there
/// is a value; `tree` as it is where there is none or where it is no object.
pub open spec fn tree_with_present<T: ToJson>(
    tree: JsonTree,
    key: Seq<char>,
    value: Option<T>,
) -> JsonTree {
    match value {
        Some(x) => tree.with_member(key, x.encoding()),
        None => tree,
    }
}

/// Stores the document of `value` under `key` in an object, where there is
/// a value; a member without value is left out.
pub fn store_present<T: ToJson>(json: &mut Json, key: &str, value: &Option<T>)
    ensures
        final(json)@ == tree_with_present(old(json)@, key@, *value),
        old(json)@ is Object ==> final(json)@ == JsonTree::Object(
            with_present(old(json)@->Object_0, key@, *value),
        ),
{
    proof {
        reveal(with_present);
    }
    match value {
        Some(x) => {
            json.set_member(String::from_str(key), x.to_json());
        },
        None => {},
    }
}

impl FromJson for Json {
    /// Any document.
    open spec fn decodable(tree: JsonTree) -> bool {
        true
    }

    open spec fn decodes_to(tree: JsonTree, value: Self) -> bool {
        value@ == tree
    }

    /// An absent document is `null`.
    open spec fn is_absent(value: Self) -> bool {
        value@ == JsonTree::Null
    }

    fn from_json(json: &Json) -> (r: Option<Self>) {
        Some(json.clone())
    }

    fn absent() -> (r: Self) {
        Json::null()
    }
}

impl ToJson for Json {
    /// A document stands for itself.
    open spec fn encoding(&self) -> JsonTree {
        self@
    }

    fn to_json(&self) -> (r: Json) {
        self.clone()
    }
}

impl FromJson for String {
    /// A string document.
    open spec fn decodable(tree: JsonTree) -> bool {
        tree is Text
    }

    open spec fn decodes_to(tree: JsonTree, value: Self) -> bool {
        tree.text() == Some(value@)
    }

    /// An absent string is empty.
    open spec fn is_absent(value: Self) -> bool {
        value@.len() == 0
    }

    fn from_json(json: &Json) -> (r: Option<Self>) {
        json.text()
    }

    fn absent() -> (r: Self) {
        String::new()
    }
}

impl ToJson for String {
    open spec fn encoding(&self) -> JsonTree {
        JsonTree::Text(self@)
    }

    fn to_json(&self) -> (r: Json) {
        Json::of_text(self.as_str())
    }
}

impl FromJson for u64 {
    /// An integer document that fits in `u64`.
    open spec fn decodable(tree: JsonTree) -> bool {
        tree.unsigned() is Some
    }

    open spec fn decodes_to(tree: JsonTree, value: Self) -> bool {
        tree.unsigned() == Some(value)
    }

    /// An absent number is zero.
    open spec fn is_absent(value: Self) -> bool {
        value == 0
    }

    fn from_json(json: &Json) -> (r: Option<Self>) {
        json.unsigned()
    }

    fn absent() -> (r: Self) {
        0
    }
}

impl ToJson for u64 {
    open spec fn encoding(&self) -> JsonTree {
        JsonTree::Integer(*self as int)
    }

    fn to_json(&self) -> (r: Json) {
        Json::of_unsigned(*self)
    }
}

impl FromJson for u32 {
    /// An integer document that fits in `u32`.
    open spec fn decodable(tree: JsonTree) -> bool {
        tree.unsigned() matches Some(n) && n <= u32::MAX
    }

    open spec fn decodes_to(tree: JsonTree, value: Self) -> bool {
        tree.unsigned() == Some(value as u64)
    }

    /// An absent number is zero.
    open spec fn is_absent(value: Self) -> bool {
        value == 0
    }

    fn from_json(json: &Json) -> (r: Option<Self>) {
        match json.unsigned() {
            Some(n) => if n <= 0xffff_ffff {
                Some(n as u32)
            } else {
                None
            },
            None => None,
        }
    }

    fn absent() -> (r: Self) {
        0
    }
}

impl ToJson for u32 {
    open spec fn encoding(&self) -> JsonTree {
        JsonTree::Integer(*self as int)
    }

    fn to_json(&self) -> (r: Json) {
        Json::of_unsigned(*self as u64)
    }
}

impl FromJson for i64 {
    /// An integer document that fits in `i64`.
    open spec fn decodable(tree: JsonTree) -> bool {
        tree.signed() is Some
    }

    open spec fn decodes_to(tree: JsonTree, value: Self) -> bool {
        tree.signed() == Some(value)
    }

    /// An absent number is zero.
    open spec fn is_absent(value: Self) -> bool {
        value == 0
    }

    fn from_json(json: &Json) -> (r: Option<Self>) {
        json.signed()
    }

    fn absent() -> (r: Self) {
        0
    }
}

impl ToJson for i64 {
    open spec fn encoding(&self) -> JsonTree {
        JsonTree::Integer(*self as int)
    }

    fn to_json(&self) -> (r: Json) {
        Json::of_signed(*self)
    }
}

impl FromJson for bool {
    /// A boolean document.
    open spec fn decodable(tree: JsonTree) -> bool {
        tree is Bool
    }

    open spec fn decodes_to(tree: JsonTree, value: Self) -> bool {
        tree.boolean() == Some(value)
    }

    /// An absent boolean is `false`.
    open spec fn is_absent(value: Self) -> bool {
        !value
    }

    fn from_json(json: &Json) -> (r: Option<Self>) {
        json.boolean()
    }

    fn absent() -> (r: Self) {
        false
    }
}

impl ToJson for bool {
    open spec fn encoding(&self) -> JsonTree {
        JsonTree::Bool(*self)
    }

    fn to_json(&self) -> (r: Json) {
        Json::of_bool(*self)
    }
}

impl<T: FromJson> FromJson for Option<T> {
    /// `null`, or a document of type `T`.
    open spec fn decodable(tree: JsonTree) -> bool {
        tree is Null || T::decodable(tree)
    }

    open spec fn decodes_to(tree: JsonTree, value: Self) -> bool {
        if tree is Null {
            value is None
        } else {
            value matches Some(x) && T::decodes_to(tree, x)
        }
    }

    /// An absent optional value is `None`.
    open spec fn is_absent(value: Self) -> bool {
        value is None
    }

    fn from_json(json: &Json) -> (r: Option<Self>) {
        match json.kind() {
            JsonKind::Null => Some(None),
            _ => match T::from_json(json) {
                Some(x) => Some(Some(x)),
                None => None,
            },
        }
    }

    fn absent() -> (r: Self) {
        None
    }
}

impl<T: ToJson> ToJson for Option<T> {
    /// `None` is written `null`.
    open spec fn encoding(&self) -> JsonTree {
        match self {
            Some(x) => x.encoding(),
            None => JsonTree::Null,
        }
    }

    fn to_json(&self) -> (r: Json) {
        match self {
            Some(x) => x.to_json(),
            None => Json::null(),
        }
    }
}

impl<T: FromJson> FromJson for Vec<T> {
    /// An array of documents of type `T`.
    open spec fn decodable(tree: JsonTree) -> bool {
        &&& tree is Array
        &&& forall|i: int|
            0 <= i < tree->Array_0.len() ==> T::decodable(#[trigger] tree->Array_0[i])
    }

    open spec fn decodes_to(tree: JsonTree, value: Self) -> bool {
        &&& tree is Array
        &&& value@.len() == tree->Array_0.len()
        &&& forall|i: int|
            0 <= i < value@.len() ==> T::decodes_to(tree->Array_0[i], #[trigger] value@[i])
    }

    /// An absent list is empty.
    open spec fn is_absent(value: Self) -> bool {
        value@.len() == 0
    }

    fn from_json(json: &Json) -> (r: Option<Self>) {
        let n = match json.element_count() {
            Some(n) => n,
            None => {
                return None;
            },
        };
        let mut out: Vec<T> = Vec::new();
        let mut i: usize = 0;
        while i < n
            invariant
                i <= n,
                json@ is Array,
                json@->Array_0.len() == n,
                out@.len() == i,
                forall|j: int| 0 <= j < i ==> T::decodable(#[trigger] json@->Array_0[j]),
                forall|j: int|
                    0 <= j < i ==> T::decodes_to(json@->Array_0[j], #[trigger] out@[j]),
            decreases n - i,
        {
            let element = match json.element(i) {
                Some(e) => e,
                None => {
                    return None;
                },
            };
            match T::from_json(&element) {
                Some(x) => {
                    out.push(x);
                },
                None => {
                    assert(!T::decodable(json@->Array_0[i as int]));
                    return None;
                },
            }
            i += 1;
        }
        Some(out)
    }

    fn absent() -> (r: Self) {
        Vec::new()
    }
}

impl<T: ToJson> ToJson for Vec<T> {
    /// A list is written as the array of its items.
    open spec fn encoding(&self) -> JsonTree {
        JsonTree::Array(self@.map_values(|x: T| x.encoding()))
    }

    fn to_json(&self) -> (r: Json) {
        let mut items: Vec<Json> = Vec::new();
        let mut i: usize = 0;
        while i < self.len()
            invariant
                i <= self.len(),
                items@.len() == i,
                forall|j: int| 0 <= j < i ==> (#[trigger] items@[j])@ == self@[j].encoding(),
            decreases self.len() - i,
        {
            items.push(self[i].to_json());
            i += 1;
        }
        assert(items@.map_values(|j: Json| j@) =~= self@.map_values(|x: T| x.encoding()));
        Json::of_elements(items)
    }
}

/// The members of the object that stands for a parameter list: each name
/// with its value as a string.
pub open spec fn text_members(s: ParamSeq) -> Map<Seq<char>, JsonTree>
    decreases s.len(),
{
    if s.len() == 0 {
        Map::empty()
    } else {
        text_members(s.drop_last()).insert(s.last().0, JsonTree::Text(s.last().1))
    }
}

impl FromJson for Params {
    /// An object whose members are all strings.
    open spec fn decodable(tree: JsonTree) -> bool {
        &&& tree is Object
        &&& forall|k: Seq<char>|
            tree->Object_0.dom().contains(k) ==> (#[trigger] tree->Object_0[k]) is Text
    }

    /// The mapping holds the keys of the object, each with its string.
    open spec fn decodes_to(tree: JsonTree, value: Self) -> bool {
        forall|k: Seq<char>| #[trigger]
            value_of(value@, k) == match tree.member(k) {
                Some(m) => m.text(),
                None => None,
            }
    }

    /// An absent mapping is empty.
    open spec fn is_absent(value: Self) -> bool {
        value@.len() == 0
    }

    fn from_json(json: &Json) -> (r: Option<Self>) {
        let keys = match json.member_names() {
            Some(keys) => keys,
            None => {
                return None;
            },
        };
        let ghost names = keys.deep_view();
        let ghost members = json@->Object_0;
        let mut out = Params::new();
        let mut i: usize = 0;
        while i < keys.len()
            invariant
                i <= keys.len(),
                names == keys.deep_view(),
                names.len() == keys.len(),
                names.no_duplicates(),
                json@ == JsonTree::Object(members),
                forall|k: Seq<char>| names.contains(k) <==> members.dom().contains(k),
                out@.len() == i,
                forall|j: int|
                    0 <= j < i ==> (#[trigger] out@[j]).0 == names[j] && members[names[j]]
                        == JsonTree::Text(out@[j].1),
            decreases keys.len() - i,
        {
            let ghost before = out@;
            assert(names[i as int] == keys@[i as int]@);
            assert(names.contains(names[i as int]));
            assert(!has_key(before, names[i as int])) by {
                if has_key(before, names[i as int]) {
                    let p = key_position(before, names[i as int]);
                    assert(before[p].0 == names[p]);
                }
            }
            let text = match json.member(keys[i].as_str()) {
                Some(m) => match m.text() {
                    Some(t) => t,
                    None => {
                        return None;
                    },
                },
                None => {
                    return None;
                },
            };
            out.insert(keys[i].clone(), text);
            assert(out@ =~= before.push((names[i as int], text@)));
            i += 1;
        }
        proof {
            assert forall|k: Seq<char>| members.dom().contains(k) implies (
            #[trigger] members[k]) is Text by {
                assert(names.contains(k));
                let j = choose|j: int| 0 <= j < names.len() && names[j] == k;
                assert(out@[j].0 == names[j]);
            }
            assert forall|k: Seq<char>| #[trigger]
                value_of(out@, k) == match json@.member(k) {
                    Some(m) => m.text(),
                    None => None,
                } by {
                if has_key(out@, k) {
                    let p = key_position(out@, k);
                    assert(out@[p].0 == names[p]);
                    assert(names.contains(k));
                } else {
                    if members.dom().contains(k) {
                        assert(names.contains(k));
                        let j = choose|j: int| 0 <= j < names.len() && names[j] == k;
                        assert(out@[j].0 == k);
                    }
                }
            }
        }
        Some(out)
    }

    fn absent() -> (r: Self) {
        Params::new()
    }
}

impl ToJson for Params {
    /// A parameter list is written as an object of strings.
    open spec fn encoding(&self) -> JsonTree {
        JsonTree::Object(text_members(self@))
    }

    fn to_json(&self) -> (r: Json) {
        let entries = self.entries();
        let mut out = Json::empty_object();
        let mut i: usize = 0;
        assert(self@.take(0) =~= ParamSeq::empty());
        while i < entries.len()
            invariant
                i <= entries.len(),
                entries.deep_view() == self@,
                out@ == JsonTree::Object(text_members(self@.take(i as int))),
            decreases entries.len() - i,
        {
            proof {
                assert(self@.take(i + 1).drop_last() =~= self@.take(i as int));
                assert(self@.take(i + 1).last() == self@[i as int]);
            }
            let member = Json::of_text(entries[i].1.as_str());
            out.set_member(entries[i].0.clone(), member);
            i += 1;
        }
        assert(self@.take(i as int) =~= self@);
        out
    }
}

} // verus!
