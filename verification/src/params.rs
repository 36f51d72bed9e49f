//! Request parameters: an ordered mapping from names to values. A name
//! occurs at most once; the order is the order in which names were first
//! inserted, and it is the order in which a query string lists them.

use crate::encode::{encoded, form_encoded, is_plain};
use crate::text::{bool_string, bool_text, decimal, decimal_string};
use vstd::prelude::*;

verus! {

/// A parameter list as a sequence of (name, value) pairs.
pub type ParamSeq = Seq<(Seq<char>, Seq<char>)>;

/// Whether some pair of `s` has the name `key`.
pub open spec fn has_key(s: ParamSeq, key: Seq<char>) -> bool {
    exists|i: int| 0 <= i < s.len() && (#[trigger] s[i]).0 == key
}

/// Whether no name occurs twice in `s`.
pub open spec fn distinct_keys(s: ParamSeq) -> bool {
    forall|i: int, j: int| 0 <= i < j < s.len() ==> (#[trigger] s[i]).0 != (#[trigger] s[j]).0
}

/// The position of the pair named `key` (meaningful where `has_key`).
pub open spec fn key_position(s: ParamSeq, key: Seq<char>) -> int {
    choose|i: int| 0 <= i < s.len() && (#[trigger] s[i]).0 == key
}

/// The value stored under `key`, if any.
pub open spec fn value_of(s: ParamSeq, key: Seq<char>) -> Option<Seq<char>> {
    if has_key(s, key) {
        Some(s[key_position(s, key)].1)
    } else {
        None
    }
}

/// `s` after storing `value` under `key`: an existing pair keeps its place
/// and takes the new value, a new name goes to the end.
pub open spec fn put(s: ParamSeq, key: Seq<char>, value: Seq<char>) -> ParamSeq {
    if has_key(s, key) {
        s.update(key_position(s, key), (key, value))
    } else {
        s.push((key, value))
    }
}

/// `s` with `value` stored under `key`, where there is a value.
pub open spec fn with_text(s: ParamSeq, key: Seq<char>, value: Option<String>) -> ParamSeq {
    match value {
        Some(v) => put(s, key, v@),
        None => s,
    }
}

/// `s` with the decimal numeral of `value` stored under `key`, where there
/// is a value.
pub open spec fn with_number(s: ParamSeq, key: Seq<char>, value: Option<u64>) -> ParamSeq {
    match value {
        Some(n) => put(s, key, decimal(n as nat)),
        None => s,
    }
}

/// `s` with `true` or `false` stored under `key`, where there is a value.
pub open spec fn with_flag(s: ParamSeq, key: Seq<char>, value: Option<bool>) -> ParamSeq {
    match value {
        Some(b) => put(s, key, bool_text(b)),
        None => s,
    }
}

/// One pair as it stands in a query string: `name=value`, name and value
/// percent-encoded.
pub open spec fn pair_text(p: (Seq<char>, Seq<char>)) -> Seq<char> {
    form_encoded(p.0) + "="@ + form_encoded(p.1)
}

/// One pair written as it is: `name=value`.
pub open spec fn plain_pair_text(p: (Seq<char>, Seq<char>)) -> Seq<char> {
    p.0 + "="@ + p.1
}

/// Whether every name and every value of `s` is made of plain characters.
pub open spec fn all_plain(s: ParamSeq) -> bool {
    forall|i: int| 0 <= i < s.len() ==> is_plain((#[trigger] s[i]).0) && is_plain(s[i].1)
}

/// The pairs of `s` as they are, in order, joined by `&`: what the query
/// string of `s` is where all its names and values are plain.
pub open spec fn plain_query_text(s: ParamSeq) -> Seq<char>
    decreases s.len(),
{
    if s.len() == 0 {
        Seq::empty()
    } else if s.len() == 1 {
        plain_pair_text(s[0])
    } else {
        plain_query_text(s.drop_last()) + "&"@ + plain_pair_text(s.last())
    }
}

/// Whether the query string of `s` is `s` as it is written, should all its
/// names and values be plain. That is so of every list; a caller learns it
/// from the functions that build query strings.
pub open spec fn reads_as_written(s: ParamSeq) -> bool {
    all_plain(s) ==> query_text(s) == plain_query_text(s)
}

/// The query string of `s`: its pairs in order, joined by `&`; empty for no
/// pairs. Names and values are percent-encoded.
pub open spec fn query_text(s: ParamSeq) -> Seq<char>
    decreases s.len(),
{
    if s.len() == 0 {
        Seq::empty()
    } else if s.len() == 1 {
        pair_text(s[0])
    } else {
        query_text(s.drop_last()) + "&"@ + pair_text(s.last())
    }
}

/// Storing under a name keeps names distinct.
pub proof fn lemma_put_distinct(s: ParamSeq, key: Seq<char>, value: Seq<char>)
    requires
        distinct_keys(s),
    ensures
        distinct_keys(put(s, key, value)),
        has_key(put(s, key, value), key),
        value_of(put(s, key, value), key) == Some(value),
        put(s, key, value).len() == if has_key(s, key) {
            s.len()
        } else {
            s.len() + 1
        },
{
    let t = put(s, key, value);
    if has_key(s, key) {
        let p = key_position(s, key);
        assert(t[p].0 == key);
        assert forall|i: int, j: int| 0 <= i < j < t.len() implies (#[trigger] t[i]).0 != (
        #[trigger] t[j]).0 by {
            assert(s[i].0 != s[j].0);
        }
    } else {
        assert(t[s.len() as int].0 == key);
        assert forall|i: int, j: int| 0 <= i < j < t.len() implies (#[trigger] t[i]).0 != (
        #[trigger] t[j]).0 by {
            if j < s.len() {
                assert(s[i].0 != s[j].0);
            } else {
                assert(s[i].0 != key);
            }
        }
    }
    let q = key_position(t, key);
    assert(t[q].0 == key);
    if has_key(s, key) {
        let p = key_position(s, key);
        if q != p {
            if q < p {
                assert(t[q].0 != t[p].0);
            } else {
                assert(t[p].0 != t[q].0);
            }
        }
    } else {
        if q != s.len() {
            assert(s[q].0 == key);
        }
    }
}

/// Storing under a name leaves every other name as it was.
pub proof fn lemma_put_keeps_others(
    s: ParamSeq,
    key: Seq<char>,
    value: Seq<char>,
    other: Seq<char>,
)
    requires
        distinct_keys(s),
        other != key,
    ensures
        has_key(put(s, key, value), other) == has_key(s, other),
        value_of(put(s, key, value), other) == value_of(s, other),
{
    let t = put(s, key, value);
    lemma_put_distinct(s, key, value);
    if has_key(s, other) {
        let p = key_position(s, other);
        assert(s[p].0 == other);
        assert(t[p] == s[p]);
        assert(has_key(t, other));
        let q = key_position(t, other);
        assert(t[q].0 == other);
        if q != p {
            if q < p {
                assert(t[q].0 != t[p].0);
            } else {
                assert(t[p].0 != t[q].0);
            }
        }
    } else {
        if has_key(t, other) {
            let q = key_position(t, other);
            assert(t[q].0 == other);
            if q < s.len() {
                assert(s[q].0 == other);
            }
        }
    }
}

/// `s` with `value` stored under `key`, where there is a value.
pub open spec fn put_if(s: ParamSeq, key: Seq<char>, value: Option<Seq<char>>) -> ParamSeq {
    match value {
        Some(v) => put(s, key, v),
        None => s,
    }
}

/// An optional number as it is written in a parameter list.
pub open spec fn number_text(value: Option<u64>) -> Option<Seq<char>> {
    match value {
        Some(n) => Some(decimal(n as nat)),
        None => None,
    }
}

/// An optional boolean as it is written in a parameter list.
pub open spec fn flag_text(value: Option<bool>) -> Option<Seq<char>> {
    match value {
        Some(b) => Some(bool_text(b)),
        None => None,
    }
}

/// Whether two parameter lists hold the same value, or none, under every
/// name but `skip`.
#[verifier::opaque]
pub open spec fn agree_but(a: ParamSeq, b: ParamSeq, skip: Seq<char>) -> bool {
    forall|k: Seq<char>| k != skip ==> #[trigger] value_of(a, k) == value_of(b, k)
}

/// Two lists that agree but for one name still do so after the same value
/// is stored in both under the same name; under the name left aside the two
/// values may differ.
pub proof fn lemma_agree_step(
    a: ParamSeq,
    b: ParamSeq,
    key: Seq<char>,
    va: Option<Seq<char>>,
    vb: Option<Seq<char>>,
    skip: Seq<char>,
)
    requires
        distinct_keys(a),
        distinct_keys(b),
        agree_but(a, b, skip),
        key != skip ==> va == vb,
    ensures
        distinct_keys(put_if(a, key, va)),
        distinct_keys(put_if(b, key, vb)),
        agree_but(put_if(a, key, va), put_if(b, key, vb), skip),
{
    reveal(agree_but);
    if let Some(x) = va {
        lemma_put_distinct(a, key, x);
    }
    if let Some(y) = vb {
        lemma_put_distinct(b, key, y);
    }
    assert forall|k: Seq<char>| k != skip implies #[trigger] value_of(put_if(a, key, va), k)
        == value_of(put_if(b, key, vb), k) by {
        assert(value_of(a, k) == value_of(b, k));
        if k != key {
            if let Some(x) = va {
                lemma_put_keeps_others(a, key, x, k);
            }
            if let Some(y) = vb {
                lemma_put_keeps_others(b, key, y, k);
            }
        }
    }
}

/// A list of optional stores: names, each with the value to store under it,
/// if any.
pub type StoreSeq = Seq<(Seq<char>, Option<Seq<char>>)>;

/// `s` after each store of `stores` was made in turn.
pub open spec fn put_each(s: ParamSeq, stores: StoreSeq) -> ParamSeq
    decreases stores.len(),
{
    if stores.len() == 0 {
        s
    } else {
        put_if(put_each(s, stores.drop_last()), stores.last().0, stores.last().1)
    }
}

/// How many stores of `stores` have a value.
pub open spec fn stored_count(stores: StoreSeq) -> nat
    decreases stores.len(),
{
    if stores.len() == 0 {
        0
    } else {
        stored_count(stores.drop_last()) + if stores.last().1 is Some {
            1nat
        } else {
            0nat
        }
    }
}

/// Whether no name occurs twice in `stores`.
pub open spec fn distinct_stores(stores: StoreSeq) -> bool {
    forall|i: int, j: int|
        0 <= i < j < stores.len() ==> (#[trigger] stores[i]).0 != (#[trigger] stores[j]).0
}

/// Stores under distinct names, made on an empty list, give a list of
/// distinct names with one pair for each store that has a value, and every
/// name in it is the name of one of the stores.
pub proof fn lemma_put_each(stores: StoreSeq)
    requires
        distinct_stores(stores),
    ensures
        distinct_keys(put_each(ParamSeq::empty(), stores)),
        put_each(ParamSeq::empty(), stores).len() == stored_count(stores),
        forall|k: Seq<char>| #[trigger]
            has_key(put_each(ParamSeq::empty(), stores), k) ==> exists|i: int|
                0 <= i < stores.len() && (#[trigger] stores[i]).0 == k,
    decreases stores.len(),
{
    if stores.len() > 0 {
        let head = stores.drop_last();
        let key = stores.last().0;
        let before = put_each(ParamSeq::empty(), head);
        let after = put_each(ParamSeq::empty(), stores);
        assert forall|i: int, j: int| 0 <= i < j < head.len() implies (#[trigger] head[i]).0 != (
        #[trigger] head[j]).0 by {
            assert(stores[i].0 != stores[j].0);
        }
        lemma_put_each(head);
        if has_key(before, key) {
            let i = choose|i: int| 0 <= i < head.len() && (#[trigger] head[i]).0 == key;
            assert(stores[i].0 != stores[stores.len() - 1].0);
        }
        if let Some(v) = stores.last().1 {
            lemma_put_distinct(before, key, v);
            assert(after == before.push((key, v)));
        }
        assert forall|k: Seq<char>| #[trigger] has_key(after, k) implies exists|i: int|
            0 <= i < stores.len() && (#[trigger] stores[i]).0 == k by {
            let p = choose|p: int| 0 <= p < after.len() && (#[trigger] after[p]).0 == k;
            if p < before.len() {
                assert(before[p].0 == k);
                assert(has_key(before, k));
                let i = choose|i: int| 0 <= i < head.len() && (#[trigger] head[i]).0 == k;
                assert(stores[i].0 == k);
            } else {
                assert(stores[stores.len() - 1].0 == k);
            }
        }
    }
}

/// Stores under distinct names, made on an empty list: under the name of
/// each store stands what the store held, a value or none.
pub proof fn lemma_put_each_value(stores: StoreSeq, i: int)
    requires
        distinct_stores(stores),
        0 <= i < stores.len(),
    ensures
        value_of(put_each(ParamSeq::empty(), stores), stores[i].0) == stores[i].1,
    decreases stores.len(),
{
    let head = stores.drop_last();
    let key = stores.last().0;
    let before = put_each(ParamSeq::empty(), head);
    assert forall|a: int, b: int| 0 <= a < b < head.len() implies (#[trigger] head[a]).0 != (
    #[trigger] head[b]).0 by {
        assert(stores[a].0 != stores[b].0);
    }
    lemma_put_each(head);
    if i < head.len() {
        lemma_put_each_value(head, i);
        assert(head[i] == stores[i]);
        assert(stores[i].0 != stores[stores.len() - 1].0);
        if let Some(v) = stores.last().1 {
            lemma_put_keeps_others(before, key, v, stores[i].0);
        }
    } else {
        if has_key(before, key) {
            let j = choose|j: int| 0 <= j < head.len() && (#[trigger] head[j]).0 == key;
            assert(stores[j].0 != stores[stores.len() - 1].0);
        }
        if let Some(v) = stores.last().1 {
            lemma_put_distinct(before, key, v);
        }
    }
}

/// One more store at the end is made after the others.
pub proof fn lemma_put_each_push(
    s: ParamSeq,
    stores: StoreSeq,
    key: Seq<char>,
    value: Option<Seq<char>>,
)
    ensures
        put_each(s, stores.push((key, value))) == put_if(put_each(s, stores), key, value),
{
    assert(stores.push((key, value)).drop_last() == stores);
}

/// Lists that agree with a third agree with each other.
pub proof fn lemma_agree_trans(a: ParamSeq, b: ParamSeq, c: ParamSeq, skip: Seq<char>)
    requires
        agree_but(a, b, skip),
        agree_but(b, c, skip),
    ensures
        agree_but(a, c, skip),
{
    reveal(agree_but);
    assert forall|k: Seq<char>| k != skip implies #[trigger] value_of(a, k) == value_of(c, k) by {
        assert(value_of(a, k) == value_of(b, k));
        assert(value_of(b, k) == value_of(c, k));
    }
}

/// A list agrees with itself.
pub proof fn lemma_agree_same(a: ParamSeq, skip: Seq<char>)
    ensures
        agree_but(a, a, skip),
{
    reveal(agree_but);
}

/// Empty lists agree.
pub proof fn lemma_agree_empty(skip: Seq<char>)
    ensures
        agree_but(ParamSeq::empty(), ParamSeq::empty(), skip),
        distinct_keys(ParamSeq::empty()),
{
    reveal(agree_but);
}

/// [`lemma_agree_step`] for an optional text.
pub proof fn lemma_agree_text(
    a: ParamSeq,
    b: ParamSeq,
    key: Seq<char>,
    va: Option<String>,
    vb: Option<String>,
    skip: Seq<char>,
)
    requires
        distinct_keys(a),
        distinct_keys(b),
        agree_but(a, b, skip),
        key != skip ==> va.deep_view() == vb.deep_view(),
    ensures
        distinct_keys(with_text(a, key, va)),
        distinct_keys(with_text(b, key, vb)),
        agree_but(with_text(a, key, va), with_text(b, key, vb), skip),
{
    assert(with_text(a, key, va) == put_if(a, key, va.deep_view()));
    assert(with_text(b, key, vb) == put_if(b, key, vb.deep_view()));
    lemma_agree_step(a, b, key, va.deep_view(), vb.deep_view(), skip);
}

/// [`lemma_agree_step`] for an optional number.
pub proof fn lemma_agree_number(
    a: ParamSeq,
    b: ParamSeq,
    key: Seq<char>,
    va: Option<u64>,
    vb: Option<u64>,
    skip: Seq<char>,
)
    requires
        distinct_keys(a),
        distinct_keys(b),
        agree_but(a, b, skip),
        key != skip ==> va == vb,
    ensures
        distinct_keys(with_number(a, key, va)),
        distinct_keys(with_number(b, key, vb)),
        agree_but(with_number(a, key, va), with_number(b, key, vb), skip),
{
    assert(with_number(a, key, va) == put_if(a, key, number_text(va)));
    assert(with_number(b, key, vb) == put_if(b, key, number_text(vb)));
    lemma_agree_step(a, b, key, number_text(va), number_text(vb), skip);
}

/// [`lemma_agree_step`] for an optional boolean.
pub proof fn lemma_agree_flag(
    a: ParamSeq,
    b: ParamSeq,
    key: Seq<char>,
    va: Option<bool>,
    vb: Option<bool>,
    skip: Seq<char>,
)
    requires
        distinct_keys(a),
        distinct_keys(b),
        agree_but(a, b, skip),
        key != skip ==> va == vb,
    ensures
        distinct_keys(with_flag(a, key, va)),
        distinct_keys(with_flag(b, key, vb)),
        agree_but(with_flag(a, key, va), with_flag(b, key, vb), skip),
{
    assert(with_flag(a, key, va) == put_if(a, key, flag_text(va)));
    assert(with_flag(b, key, vb) == put_if(b, key, flag_text(vb)));
    lemma_agree_step(a, b, key, flag_text(va), flag_text(vb), skip);
}

/// An ordered mapping from parameter names to values.
#[derive(Debug)]
pub struct Params {
    entries: Vec<(String, String)>,
}

impl View for Params {
    type V = ParamSeq;

    closed spec fn view(&self) -> ParamSeq {
        self.entries.deep_view()
    }
}

impl Clone for Params {
    /// The same parameters again.
    fn clone(&self) -> (r: Self)
        ensures
            r@ == self@,
    {
        proof {
            use_type_invariant(self);
        }
        let mut entries: Vec<(String, String)> = Vec::new();
        let mut i: usize = 0;
        while i < self.entries.len()
            invariant
                i <= self.entries.len(),
                entries@.len() == i,
                forall|j: int|
                    0 <= j < i ==> (#[trigger] entries@[j]).0@ == self.entries@[j].0@
                        && entries@[j].1@ == self.entries@[j].1@,
            decreases self.entries.len() - i,
        {
            let name = self.entries[i].0.clone();
            let value = self.entries[i].1.clone();
            entries.push((name, value));
            i += 1;
        }
        assert(entries.deep_view() =~= self.entries.deep_view());
        Params { entries }
    }
}

impl Default for Params {
    /// An empty mapping.
    fn default() -> (r: Self)
        ensures
            r@ == ParamSeq::empty(),
    {
        Params::new()
    }
}

impl Params {
    #[verifier::type_invariant]
    spec fn names_are_distinct(self) -> bool {
        distinct_keys(self.entries.deep_view())
    }

    /// An empty mapping.
    pub fn new() -> (r: Params)
        ensures
            r@ == ParamSeq::empty(),
    {
        let r = Params { entries: Vec::new() };
        assert(r.entries.deep_view() =~= ParamSeq::empty());
        r
    }

    /// Stores `value` under `key`. A name that is already there keeps its
    /// place and takes the new value; a new name goes to the end.
    pub fn insert(&mut self, key: String, value: String)
        ensures
            final(self)@ == put(old(self)@, key@, value@),
    {
        proof {
            use_type_invariant(&*self);
            lemma_put_distinct(self@, key@, value@);
        }
        let ghost before = self@;
        let mut entries: Vec<(String, String)> = Vec::new();
        assert(entries.deep_view() =~= ParamSeq::empty());
        std::mem::swap(&mut self.entries, &mut entries);
        let mut i: usize = 0;
        while i < entries.len()
            invariant
                i <= entries.len(),
                entries.deep_view() == before,
                before == old(self)@,
                distinct_keys(before),
                distinct_keys(put(before, key@, value@)),
                forall|j: int| 0 <= j < i ==> (#[trigger] before[j]).0 != key@,
            decreases entries.len() - i,
        {
            if entries[i].0 == key {
                proof {
                    assert(before[i as int].0 == key@);
                    let p = key_position(before, key@);
                    assert(before[p].0 == key@);
                    if p != i {
                        if p < i {
                            assert(before[p].0 != key@);
                        } else {
                            assert(before[i as int].0 != before[p].0);
                        }
                    }
                }
                entries.set(i, (key, value));
                assert(entries.deep_view() =~= put(before, key@, value@));
                self.entries = entries;
                return ;
            }
            i += 1;
        }
        assert(!has_key(before, key@));
        entries.push((key, value));
        assert(entries.deep_view() =~= put(before, key@, value@));
        self.entries = entries;
    }

    /// Stores a text under `key`, where there is one.
    pub fn insert_text(&mut self, key: &str, value: &Option<String>)
        ensures
            final(self)@ == with_text(old(self)@, key@, *value),
    {
        match value {
            Some(v) => {
                self.insert(String::from_str(key), v.clone());
            },
            None => {},
        }
    }

    /// Stores a number under `key`, in decimal digits, where there is one.
    pub fn insert_number(&mut self, key: &str, value: &Option<u64>)
        ensures
            final(self)@ == with_number(old(self)@, key@, *value),
    {
        match value {
            Some(n) => {
                self.insert(String::from_str(key), decimal_string(*n));
            },
            None => {},
        }
    }

    /// Stores a boolean under `key`, as `true` or `false`, where there is
    /// one.
    pub fn insert_flag(&mut self, key: &str, value: &Option<bool>)
        ensures
            final(self)@ == with_flag(old(self)@, key@, *value),
    {
        match value {
            Some(b) => {
                self.insert(String::from_str(key), bool_string(*b));
            },
            None => {},
        }
    }

    /// The number of parameters.
    pub fn count(&self) -> (r: usize)
        ensures
            r == self@.len(),
    {
        self.entries.len()
    }

    /// Whether there is no parameter.
    pub fn is_empty(&self) -> (r: bool)
        ensures
            r == (self@.len() == 0),
    {
        self.entries.len() == 0
    }

    /// The pairs in order. No name occurs twice among them.
    pub fn entries(&self) -> (r: &Vec<(String, String)>)
        ensures
            r.deep_view() == self@,
            distinct_keys(self@),
    {
        proof {
            use_type_invariant(self);
        }
        &self.entries
    }

    /// The value stored under `key`, if any.
    pub fn value(&self, key: &str) -> (r: Option<String>)
        ensures
            match r {
                Some(v) => value_of(self@, key@) == Some(v@),
                None => value_of(self@, key@).is_none(),
            },
    {
        proof {
            use_type_invariant(self);
        }
        let wanted = String::from_str(key);
        let mut i: usize = 0;
        while i < self.entries.len()
            invariant
                i <= self.entries.len(),
                wanted@ == key@,
                distinct_keys(self@),
                forall|j: int| 0 <= j < i ==> (#[trigger] self@[j]).0 != key@,
            decreases self.entries.len() - i,
        {
            if self.entries[i].0 == wanted {
                proof {
                    assert(self@[i as int].0 == key@);
                    let p = key_position(self@, key@);
                    if p != i {
                        if p < i {
                            assert(self@[p].0 != key@);
                        } else {
                            assert(self@[i as int].0 != self@[p].0);
                        }
                    }
                }
                return Some(self.entries[i].1.clone());
            }
            i += 1;
        }
        None
    }

    /// The query string: `name=value` pairs in order, joined by `&`, names
    /// and values percent-encoded. Where every name and value is made of
    /// plain characters, that is the pairs as they are.
    pub fn query_string(&self) -> (r: String)
        ensures
            r@ == query_text(self@),
            reads_as_written(self@),
    {
        let mut out = String::new();
        let mut i: usize = 0;
        while i < self.entries.len()
            invariant
                i <= self.entries.len(),
                out@ == query_text(self@.take(i as int)),
                all_plain(self@) ==> out@ == plain_query_text(self@.take(i as int)),
            decreases self.entries.len() - i,
        {
            proof {
                assert(self@.take(i + 1).drop_last() =~= self@.take(i as int));
                assert(self@.take(i + 1).last() == self@[i as int]);
            }
            if i > 0 {
                out.append("&");
            }
            let name = encoded(self.entries[i].0.as_str());
            let value = encoded(self.entries[i].1.as_str());
            out.append(name.as_str());
            out.append("=");
            out.append(value.as_str());
            assert(out@ =~= query_text(self@.take(i + 1)));
            proof {
                if all_plain(self@) {
                    assert(is_plain(self@[i as int].0) && is_plain(self@[i as int].1));
                    assert(out@ =~= plain_query_text(self@.take(i + 1)));
                }
            }
            i += 1;
        }
        assert(self@.take(i as int) =~= self@);
        out
    }
}

} // verus!
