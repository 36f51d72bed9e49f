//! What a member filter writes into its parameter list, member by member:
//! the names in their order, that no two are the same, and how many pairs
//! the list has.

use crate::iter::ResourceFilter;
use crate::params::{
    distinct_keys, distinct_stores, flag_text, has_key, lemma_put_each, lemma_put_each_push,
    lemma_put_each_value, number_text, put_each, put_if, stored_count, value_of, with_flag,
    with_number, with_text, ParamSeq, StoreSeq,
};
use crate::types::list_members::ListMembersFilter;
use vstd::prelude::*;

verus! {

/// The name of member number `i` of a filter, in the order in which a
/// filter writes its members.
pub open spec fn filter_name(i: int) -> Seq<char> {
    if i == 0 {
        "fields"@
    } else if i == 1 {
        "exclude_fields"@
    } else if i == 2 {
        "count"@
    } else if i == 3 {
        "offset"@
    } else if i == 4 {
        "email_type"@
    } else if i == 5 {
        "status"@
    } else if i == 6 {
        "since_timestamp_opt"@
    } else if i == 7 {
        "before_timestamp_opt"@
    } else if i == 8 {
        "since_last_changed"@
    } else if i == 9 {
        "before_last_changed"@
    } else if i == 10 {
        "unique_email_id"@
    } else if i == 11 {
        "vip_only"@
    } else if i == 12 {
        "interest_category_id"@
    } else if i == 13 {
        "interest_ids"@
    } else if i == 14 {
        "interest_match"@
    } else if i == 15 {
        "sort_field"@
    } else if i == 16 {
        "sort_dir"@
    } else if i == 17 {
        "since_last_campaign"@
    } else {
        "unsubscribed_since"@
    }
}

impl ListMembersFilter {
    /// Member number `i` as it is written, where it is named.
    pub open spec fn written(&self, i: int) -> Option<Seq<char>> {
        if i == 0 {
            self.fields.deep_view()
        } else if i == 1 {
            self.exclude_fields.deep_view()
        } else if i == 2 {
            number_text(self.count)
        } else if i == 3 {
            number_text(self.offset)
        } else if i == 4 {
            self.email_type.deep_view()
        } else if i == 5 {
            self.status.deep_view()
        } else if i == 6 {
            self.since_timestamp_opt.deep_view()
        } else if i == 7 {
            self.before_timestamp_opt.deep_view()
        } else if i == 8 {
            self.since_last_changed.deep_view()
        } else if i == 9 {
            self.before_last_changed.deep_view()
        } else if i == 10 {
            self.unique_email_id.deep_view()
        } else if i == 11 {
            self.vip_only.deep_view()
        } else if i == 12 {
            self.interest_category_id.deep_view()
        } else if i == 13 {
            self.interest_ids.deep_view()
        } else if i == 14 {
            self.interest_match.deep_view()
        } else if i == 15 {
            self.sort_field.deep_view()
        } else if i == 16 {
            self.sort_dir.deep_view()
        } else if i == 17 {
            flag_text(self.since_last_campaign)
        } else {
            self.unsubscribed_since.deep_view()
        }
    }

    /// The members in the order in which they are written, each with its
    /// name.
    pub open spec fn stores(&self) -> StoreSeq {
        Seq::new(19, |i: int| (filter_name(i), self.written(i)))
    }
}

/// No two members of a filter have the same name.
#[verifier::rlimit(60)]
pub proof fn lemma_filter_names_differ(i: int, j: int)
    requires
        0 <= i < j < 19,
    ensures
        filter_name(i) != filter_name(j),
{
    reveal_strlit("fields");
    reveal_strlit("exclude_fields");
    reveal_strlit("count");
    reveal_strlit("offset");
    reveal_strlit("email_type");
    reveal_strlit("status");
    reveal_strlit("since_timestamp_opt");
    reveal_strlit("before_timestamp_opt");
    reveal_strlit("since_last_changed");
    reveal_strlit("before_last_changed");
    reveal_strlit("unique_email_id");
    reveal_strlit("vip_only");
    reveal_strlit("interest_category_id");
    reveal_strlit("interest_ids");
    reveal_strlit("interest_match");
    reveal_strlit("sort_field");
    reveal_strlit("sort_dir");
    reveal_strlit("since_last_campaign");
    reveal_strlit("unsubscribed_since");
    assert("fields"@.len() == 6);
    assert("exclude_fields"@.len() == 14);
    assert("count"@.len() == 5);
    assert("offset"@.len() == 6);
    assert("email_type"@.len() == 10);
    assert("status"@.len() == 6);
    assert("since_timestamp_opt"@.len() == 19);
    assert("before_timestamp_opt"@.len() == 20);
    assert("since_last_changed"@.len() == 18);
    assert("before_last_changed"@.len() == 19);
    assert("unique_email_id"@.len() == 15);
    assert("vip_only"@.len() == 8);
    assert("interest_category_id"@.len() == 20);
    assert("interest_ids"@.len() == 12);
    assert("interest_match"@.len() == 14);
    assert("sort_field"@.len() == 10);
    assert("sort_dir"@.len() == 8);
    assert("since_last_campaign"@.len() == 19);
    assert("unsubscribed_since"@.len() == 18);
    assert("fields"@[0] != "offset"@[0]);
    assert("fields"@[0] != "status"@[0]);
    assert("exclude_fields"@[0] != "interest_match"@[0]);
    assert("offset"@[0] != "status"@[0]);
    assert("email_type"@[0] != "sort_field"@[0]);
    assert("since_timestamp_opt"@[0] != "before_last_changed"@[0]);
    assert("since_timestamp_opt"@[6] != "since_last_campaign"@[6]);
    assert("before_timestamp_opt"@[0] != "interest_category_id"@[0]);
    assert("since_last_changed"@[0] != "unsubscribed_since"@[0]);
    assert("before_last_changed"@[0] != "since_last_campaign"@[0]);
    assert("vip_only"@[0] != "sort_dir"@[0]);
}

/// A filter's parameters are its members, stored in turn on an empty list.
#[verifier::rlimit(60)]
pub proof fn lemma_filter_stores(f: ListMembersFilter)
    ensures
        f.payload() == put_each(ParamSeq::empty(), f.stores()),
{
    let e0 = StoreSeq::empty();
    let s0 = ParamSeq::empty();
    assert(put_each(ParamSeq::empty(), e0) == s0);
    let e1 = e0.push((filter_name(0), f.written(0)));
    let s1 = with_text(s0, "fields"@, f.fields);
    lemma_put_each_push(ParamSeq::empty(), e0, filter_name(0), f.written(0));
    assert(s1 == put_if(s0, filter_name(0), f.written(0)));
    assert(put_each(ParamSeq::empty(), e1) == s1);
    let e2 = e1.push((filter_name(1), f.written(1)));
    let s2 = with_text(s1, "exclude_fields"@, f.exclude_fields);
    lemma_put_each_push(ParamSeq::empty(), e1, filter_name(1), f.written(1));
    assert(s2 == put_if(s1, filter_name(1), f.written(1)));
    assert(put_each(ParamSeq::empty(), e2) == s2);
    let e3 = e2.push((filter_name(2), f.written(2)));
    let s3 = with_number(s2, "count"@, f.count);
    lemma_put_each_push(ParamSeq::empty(), e2, filter_name(2), f.written(2));
    assert(s3 == put_if(s2, filter_name(2), f.written(2)));
    assert(put_each(ParamSeq::empty(), e3) == s3);
    let e4 = e3.push((filter_name(3), f.written(3)));
    let s4 = with_number(s3, "offset"@, f.offset);
    lemma_put_each_push(ParamSeq::empty(), e3, filter_name(3), f.written(3));
    assert(s4 == put_if(s3, filter_name(3), f.written(3)));
    assert(put_each(ParamSeq::empty(), e4) == s4);
    let e5 = e4.push((filter_name(4), f.written(4)));
    let s5 = with_text(s4, "email_type"@, f.email_type);
    lemma_put_each_push(ParamSeq::empty(), e4, filter_name(4), f.written(4));
    assert(s5 == put_if(s4, filter_name(4), f.written(4)));
    assert(put_each(ParamSeq::empty(), e5) == s5);
    let e6 = e5.push((filter_name(5), f.written(5)));
    let s6 = with_text(s5, "status"@, f.status);
    lemma_put_each_push(ParamSeq::empty(), e5, filter_name(5), f.written(5));
    assert(s6 == put_if(s5, filter_name(5), f.written(5)));
    assert(put_each(ParamSeq::empty(), e6) == s6);
    let e7 = e6.push((filter_name(6), f.written(6)));
    let s7 = with_text(s6, "since_timestamp_opt"@, f.since_timestamp_opt);
    lemma_put_each_push(ParamSeq::empty(), e6, filter_name(6), f.written(6));
    assert(s7 == put_if(s6, filter_name(6), f.written(6)));
    assert(put_each(ParamSeq::empty(), e7) == s7);
    let e8 = e7.push((filter_name(7), f.written(7)));
    let s8 = with_text(s7, "before_timestamp_opt"@, f.before_timestamp_opt);
    lemma_put_each_push(ParamSeq::empty(), e7, filter_name(7), f.written(7));
    assert(s8 == put_if(s7, filter_name(7), f.written(7)));
    assert(put_each(ParamSeq::empty(), e8) == s8);
    let e9 = e8.push((filter_name(8), f.written(8)));
    let s9 = with_text(s8, "since_last_changed"@, f.since_last_changed);
    lemma_put_each_push(ParamSeq::empty(), e8, filter_name(8), f.written(8));
    assert(s9 == put_if(s8, filter_name(8), f.written(8)));
    assert(put_each(ParamSeq::empty(), e9) == s9);
    let e10 = e9.push((filter_name(9), f.written(9)));
    let s10 = with_text(s9, "before_last_changed"@, f.before_last_changed);
    lemma_put_each_push(ParamSeq::empty(), e9, filter_name(9), f.written(9));
    assert(s10 == put_if(s9, filter_name(9), f.written(9)));
    assert(put_each(ParamSeq::empty(), e10) == s10);
    let e11 = e10.push((filter_name(10), f.written(10)));
    let s11 = with_text(s10, "unique_email_id"@, f.unique_email_id);
    lemma_put_each_push(ParamSeq::empty(), e10, filter_name(10), f.written(10));
    assert(s11 == put_if(s10, filter_name(10), f.written(10)));
    assert(put_each(ParamSeq::empty(), e11) == s11);
    let e12 = e11.push((filter_name(11), f.written(11)));
    let s12 = with_text(s11, "vip_only"@, f.vip_only);
    lemma_put_each_push(ParamSeq::empty(), e11, filter_name(11), f.written(11));
    assert(s12 == put_if(s11, filter_name(11), f.written(11)));
    assert(put_each(ParamSeq::empty(), e12) == s12);
    let e13 = e12.push((filter_name(12), f.written(12)));
    let s13 = with_text(s12, "interest_category_id"@, f.interest_category_id);
    lemma_put_each_push(ParamSeq::empty(), e12, filter_name(12), f.written(12));
    assert(s13 == put_if(s12, filter_name(12), f.written(12)));
    assert(put_each(ParamSeq::empty(), e13) == s13);
    let e14 = e13.push((filter_name(13), f.written(13)));
    let s14 = with_text(s13, "interest_ids"@, f.interest_ids);
    lemma_put_each_push(ParamSeq::empty(), e13, filter_name(13), f.written(13));
    assert(s14 == put_if(s13, filter_name(13), f.written(13)));
    assert(put_each(ParamSeq::empty(), e14) == s14);
    let e15 = e14.push((filter_name(14), f.written(14)));
    let s15 = with_text(s14, "interest_match"@, f.interest_match);
    lemma_put_each_push(ParamSeq::empty(), e14, filter_name(14), f.written(14));
    assert(s15 == put_if(s14, filter_name(14), f.written(14)));
    assert(put_each(ParamSeq::empty(), e15) == s15);
    let e16 = e15.push((filter_name(15), f.written(15)));
    let s16 = with_text(s15, "sort_field"@, f.sort_field);
    lemma_put_each_push(ParamSeq::empty(), e15, filter_name(15), f.written(15));
    assert(s16 == put_if(s15, filter_name(15), f.written(15)));
    assert(put_each(ParamSeq::empty(), e16) == s16);
    let e17 = e16.push((filter_name(16), f.written(16)));
    let s17 = with_text(s16, "sort_dir"@, f.sort_dir);
    lemma_put_each_push(ParamSeq::empty(), e16, filter_name(16), f.written(16));
    assert(s17 == put_if(s16, filter_name(16), f.written(16)));
    assert(put_each(ParamSeq::empty(), e17) == s17);
    let e18 = e17.push((filter_name(17), f.written(17)));
    let s18 = with_flag(s17, "since_last_campaign"@, f.since_last_campaign);
    lemma_put_each_push(ParamSeq::empty(), e17, filter_name(17), f.written(17));
    assert(s18 == put_if(s17, filter_name(17), f.written(17)));
    assert(put_each(ParamSeq::empty(), e18) == s18);
    let e19 = e18.push((filter_name(18), f.written(18)));
    let s19 = with_text(s18, "unsubscribed_since"@, f.unsubscribed_since);
    lemma_put_each_push(ParamSeq::empty(), e18, filter_name(18), f.written(18));
    assert(s19 == put_if(s18, filter_name(18), f.written(18)));
    assert(put_each(ParamSeq::empty(), e19) == s19);
    assert(e19 =~= f.stores());
    assert(f.payload() == s19);
}

/// No two stores of a filter have the same name.
pub proof fn lemma_filter_stores_differ(f: ListMembersFilter)
    ensures
        distinct_stores(f.stores()),
{
    let stores = f.stores();
    assert forall|i: int, j: int| 0 <= i < j < stores.len() implies (#[trigger] stores[i]).0 != (
    #[trigger] stores[j]).0 by {
        lemma_filter_names_differ(i, j);
    }
}

/// A filter has one parameter for each member that it names, and no name
/// twice.
pub proof fn lemma_filter_payload_len(f: ListMembersFilter)
    ensures
        distinct_keys(f.payload()),
        f.payload().len() == stored_count(f.stores()),
{
    lemma_filter_stores(f);
    lemma_filter_stores_differ(f);
    lemma_put_each(f.stores());
}

/// Under the name of a member stands the member as it is written, where it
/// is named, and nothing where it is not.
pub proof fn lemma_filter_value(f: ListMembersFilter, i: int)
    requires
        0 <= i < 19,
    ensures
        value_of(f.payload(), filter_name(i)) == f.written(i),
{
    lemma_filter_stores(f);
    lemma_filter_stores_differ(f);
    lemma_put_each_value(f.stores(), i);
}

/// A name that is no member's has no value.
pub proof fn lemma_filter_other_name(f: ListMembersFilter, name: Seq<char>)
    requires
        forall|i: int| 0 <= i < 19 ==> name != #[trigger] filter_name(i),
    ensures
        value_of(f.payload(), name) is None,
{
    lemma_filter_stores(f);
    lemma_filter_stores_differ(f);
    lemma_put_each(f.stores());
    if has_key(f.payload(), name) {
        let i = choose|i: int| 0 <= i < f.stores().len() && (#[trigger] f.stores()[i]).0 == name;
        assert(filter_name(i) == name);
    }
}

} // verus!
