//! Writing and reading back: a value that is written as a document decodes
//! from that document to itself. The law is stated once, as a capability of
//! types, and proved for the plain types here and for each record next to
//! its definition.

use crate::codec::{field_is, field_ok, text_members, with_present, FromJson, ToJson};
use crate::decimal::Decimal;
use crate::json::{JsonKind, JsonTree};
use crate::params::{distinct_keys, has_key, key_position, value_of, ParamSeq, Params};
use vstd::prelude::*;

verus! {

/// A type whose values decode from the documents that they are written as.
pub trait RoundTrip: FromJson + ToJson {
    /// Whether the value is one that a document can stand for in full.
    spec fn writable(&self) -> bool;

    /// The document of a value is a document of its type, decodes to the
    /// value, and is never `null`.
    proof fn lemma_round_trip(&self)
        requires
            self.writable(),
        ensures
            Self::decodable(self.encoding()),
            Self::decodes_to(self.encoding(), *self),
            !(self.encoding() is Null),
    ;
}

/// Whether an optional value is absent or writable.
pub open spec fn writable_if_present<T: RoundTrip>(value: Option<T>) -> bool {
    value matches Some(x) ==> x.writable()
}

/// What storing an optional member does to the members of an object: the
/// key holds the document of the value where there is one and is as it was
/// where there is none, and every other key is as it was.
pub proof fn lemma_with_present<T: ToJson>(
    members: Map<Seq<char>, JsonTree>,
    key: Seq<char>,
    value: Option<T>,
)
    ensures
        match value {
            Some(x) => with_present(members, key, value).dom().contains(key) && with_present(
                members,
                key,
                value,
            )[key] == x.encoding(),
            None => with_present(members, key, value).dom().contains(key)
                == members.dom().contains(key),
        },
        forall|other: Seq<char>|
            other != key ==> (#[trigger] with_present(members, key, value).dom().contains(other))
                == members.dom().contains(other),
        forall|other: Seq<char>|
            other != key ==> (#[trigger] with_present(members, key, value)[other])
                == members[other],
{
    reveal(with_present);
}

/// A member that is written under its key reads back as itself, as long as
/// nothing else is stored under that key.
pub proof fn lemma_member_round_trip<T: RoundTrip>(
    members: Map<Seq<char>, JsonTree>,
    key: Seq<char>,
    value: T,
)
    requires
        value.writable(),
        members.dom().contains(key),
        members[key] == value.encoding(),
    ensures
        field_ok::<T>(JsonTree::Object(members), key),
        field_is::<T>(JsonTree::Object(members), key, value),
{
    value.lemma_round_trip();
}

/// An optional member that is written under its key reads back as itself:
/// as `null` or left out where it is absent, as its document where it is
/// present.
pub proof fn lemma_optional_member_round_trip<T: RoundTrip>(
    members: Map<Seq<char>, JsonTree>,
    key: Seq<char>,
    value: Option<T>,
)
    requires
        writable_if_present(value),
        match value {
            Some(x) => members.dom().contains(key) && members[key] == x.encoding(),
            None => !members.dom().contains(key) || members[key] == JsonTree::Null,
        },
    ensures
        field_ok::<Option<T>>(JsonTree::Object(members), key),
        field_is::<Option<T>>(JsonTree::Object(members), key, value),
{
    if let Some(x) = value {
        x.lemma_round_trip();
    }
}

impl RoundTrip for String {
    open spec fn writable(&self) -> bool {
        true
    }

    proof fn lemma_round_trip(&self) {
    }
}

impl RoundTrip for u64 {
    open spec fn writable(&self) -> bool {
        true
    }

    proof fn lemma_round_trip(&self) {
    }
}

impl RoundTrip for u32 {
    open spec fn writable(&self) -> bool {
        true
    }

    proof fn lemma_round_trip(&self) {
    }
}

impl RoundTrip for i64 {
    open spec fn writable(&self) -> bool {
        true
    }

    proof fn lemma_round_trip(&self) {
    }
}

impl RoundTrip for bool {
    open spec fn writable(&self) -> bool {
        true
    }

    proof fn lemma_round_trip(&self) {
    }
}

impl RoundTrip for Decimal {
    /// A number.
    open spec fn writable(&self) -> bool {
        self.tree().kind() == JsonKind::Number
    }

    proof fn lemma_round_trip(&self) {
    }
}

impl<T: RoundTrip> RoundTrip for Vec<T> {
    /// A list of writable items.
    open spec fn writable(&self) -> bool {
        forall|i: int| 0 <= i < self@.len() ==> (#[trigger] self@[i]).writable()
    }

    proof fn lemma_round_trip(&self) {
        let items = self@.map_values(|x: T| x.encoding());
        assert forall|i: int| 0 <= i < items.len() implies T::decodable(#[trigger] items[i]) by {
            self@[i].lemma_round_trip();
        }
        assert forall|i: int| 0 <= i < self@.len() implies T::decodes_to(
            items[i],
            #[trigger] self@[i],
        ) by {
            self@[i].lemma_round_trip();
        }
    }
}

/// The members that stand for a parameter list are its names, each with its
/// value as a string.
pub proof fn lemma_text_members(s: ParamSeq, k: Seq<char>)
    requires
        distinct_keys(s),
    ensures
        text_members(s).dom().contains(k) <==> has_key(s, k),
        has_key(s, k) ==> text_members(s)[k] == JsonTree::Text(s[key_position(s, k)].1),
    decreases s.len(),
{
    if s.len() > 0 {
        let front = s.drop_last();
        assert forall|i: int, j: int| 0 <= i < j < front.len() implies (#[trigger] front[i]).0 != (
        #[trigger] front[j]).0 by {
            assert(s[i].0 != s[j].0);
        }
        lemma_text_members(front, k);
        let n = s.len() - 1;
        if s.last().0 == k {
            assert(s[n].0 == k);
            let p = key_position(s, k);
            if p != n {
                assert(s[p].0 != s[n].0);
            }
        } else {
            if has_key(front, k) {
                let q = key_position(front, k);
                assert(s[q].0 == k);
                let p = key_position(s, k);
                if p != q {
                    if p < q {
                        assert(s[p].0 != s[q].0);
                    } else {
                        assert(s[q].0 != s[p].0);
                    }
                }
            } else {
                if has_key(s, k) {
                    let p = key_position(s, k);
                    assert(front[p].0 == k);
                }
            }
        }
    }
}

impl RoundTrip for Params {
    /// No name occurs twice.
    open spec fn writable(&self) -> bool {
        distinct_keys(self@)
    }

    proof fn lemma_round_trip(&self) {
        let s = self@;
        let members = text_members(s);
        assert forall|k: Seq<char>| members.dom().contains(k) implies (
        #[trigger] members[k]) is Text by {
            lemma_text_members(s, k);
        }
        assert forall|k: Seq<char>| #[trigger]
            value_of(s, k) == match self.encoding().member(k) {
                Some(m) => m.text(),
                None => None,
            } by {
            lemma_text_members(s, k);
        }
    }
}

} // verus!
