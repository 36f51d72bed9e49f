//! Parameter lists, query strings, and the text building blocks.

use mailchimp::encode::encoded;
use mailchimp::iter::ResourceFilter;
use mailchimp::text::{bool_string, copy_text, decimal_string, push_decimal};
use mailchimp::types::ListMembersFilter;
use mailchimp::Params;

fn pairs(p: &Params) -> Vec<(&str, &str)> {
    p.entries().iter().map(|e| (e.0.as_str(), e.1.as_str())).collect()
}

#[test]
fn numbers_are_written_in_decimal_digits() {
    assert_eq!(decimal_string(0), "0");
    assert_eq!(decimal_string(7), "7");
    assert_eq!(decimal_string(10), "10");
    assert_eq!(decimal_string(1234567890), "1234567890");
    assert_eq!(decimal_string(u64::MAX), "18446744073709551615");
}

#[test]
fn numbers_are_appended() {
    let mut s = "offset=".to_string();
    push_decimal(&mut s, 250);
    assert_eq!(s, "offset=250");
}

#[test]
fn booleans_are_written_as_words() {
    assert_eq!(bool_string(true), "true");
    assert_eq!(bool_string(false), "false");
}

#[test]
fn optional_texts_are_copied() {
    assert_eq!(copy_text(&Some("a".to_string())).as_deref(), Some("a"));
    assert_eq!(copy_text(&None), None);
}

#[test]
fn a_new_list_is_empty() {
    let p = Params::new();
    assert!(p.is_empty());
    assert_eq!(p.count(), 0);
    assert_eq!(p.query_string(), "");
    assert_eq!(p.value("a"), None);
    assert!(Params::default().is_empty());
}

#[test]
fn names_keep_the_order_of_their_first_insertion() {
    let mut p = Params::new();
    p.insert("b".to_string(), "1".to_string());
    p.insert("a".to_string(), "2".to_string());
    p.insert("c".to_string(), "3".to_string());
    assert_eq!(pairs(&p), vec![("b", "1"), ("a", "2"), ("c", "3")]);
    assert_eq!(p.query_string(), "b=1&a=2&c=3");
    assert_eq!(p.count(), 3);
    assert!(!p.is_empty());
}

#[test]
fn a_name_that_is_there_takes_the_new_value_in_place() {
    let mut p = Params::new();
    p.insert("b".to_string(), "1".to_string());
    p.insert("a".to_string(), "2".to_string());
    p.insert("b".to_string(), "9".to_string());
    assert_eq!(pairs(&p), vec![("b", "9"), ("a", "2")]);
    assert_eq!(p.value("b").as_deref(), Some("9"));
    assert_eq!(p.count(), 2);
}

#[test]
fn plain_texts_are_written_as_they_are() {
    assert_eq!(encoded("option1"), "option1");
    assert_eq!(encoded("members.id"), "members.id");
    assert_eq!(encoded("AZaz09*-._"), "AZaz09*-._");
    assert_eq!(encoded(""), "");
    let mut p = Params::new();
    p.insert("sort_field".to_string(), "timestamp_opt".to_string());
    p.insert("count".to_string(), "25".to_string());
    assert_eq!(p.query_string(), "sort_field=timestamp_opt&count=25");
}

#[test]
fn other_characters_are_percent_encoded() {
    assert_eq!(encoded("a b"), "a+b");
    assert_eq!(encoded("a&b=c"), "a%26b%3Dc");
    assert_eq!(encoded("a+b#c"), "a%2Bb%23c");
    assert_eq!(encoded("\u{e9}"), "%C3%A9");
    assert_eq!(encoded("~"), "%7E");
    let mut p = Params::new();
    p.insert("fields".to_string(), "members.id,members.email address".to_string());
    p.insert("since_timestamp_opt".to_string(), "2015-10-21T15:41:36+00:00".to_string());
    assert_eq!(
        p.query_string(),
        "fields=members.id%2Cmembers.email+address&since_timestamp_opt=2015-10-21T15%3A41%3A36%2B00%3A00"
    );
}

#[test]
fn a_clone_is_a_list_of_its_own() {
    let mut p = Params::new();
    p.insert("a".to_string(), "1".to_string());
    let mut q = p.clone();
    q.insert("b".to_string(), "2".to_string());
    assert_eq!(pairs(&p), vec![("a", "1")]);
    assert_eq!(pairs(&q), vec![("a", "1"), ("b", "2")]);
}

#[test]
fn optional_values_are_stored_where_there_is_one() {
    let mut p = Params::new();
    p.insert_text("status", &Some("subscribed".to_string()));
    p.insert_text("email_type", &None);
    p.insert_number("count", &Some(25));
    p.insert_number("offset", &None);
    p.insert_flag("since_last_campaign", &Some(false));
    p.insert_flag("vip", &None);
    assert_eq!(
        pairs(&p),
        vec![("status", "subscribed"), ("count", "25"), ("since_last_campaign", "false")]
    );
}

#[test]
fn the_default_filter_asks_for_fifty_from_the_start() {
    let f = ListMembersFilter::default();
    assert_eq!(f.count, Some(50));
    assert_eq!(f.offset, Some(0));
    assert!(f.fields.is_none());
    assert!(f.unsubscribed_since.is_none());
    assert_eq!(f.page_size(), 50);
    assert_eq!(f.page_offset(), 0);
    assert_eq!(pairs(&f.build_payload()), vec![("count", "50"), ("offset", "0")]);
}

#[test]
fn a_filter_names_every_member_that_is_set() {
    let f = ListMembersFilter {
        fields: Some("members.id".to_string()),
        exclude_fields: Some("_links".to_string()),
        count: Some(5),
        offset: Some(15),
        email_type: Some("html".to_string()),
        status: Some("subscribed".to_string()),
        since_timestamp_opt: Some("2015-10-21T15:41:36+00:00".to_string()),
        before_timestamp_opt: Some("b".to_string()),
        since_last_changed: Some("c".to_string()),
        before_last_changed: Some("d".to_string()),
        unique_email_id: Some("e".to_string()),
        vip_only: Some("true".to_string()),
        interest_category_id: Some("f".to_string()),
        interest_ids: Some("g,h".to_string()),
        interest_match: Some("any".to_string()),
        sort_field: Some("timestamp_opt".to_string()),
        sort_dir: Some("ASC".to_string()),
        since_last_campaign: Some(true),
        unsubscribed_since: Some("i".to_string()),
    };
    assert_eq!(
        pairs(&f.build_payload()),
        vec![
            ("fields", "members.id"),
            ("exclude_fields", "_links"),
            ("count", "5"),
            ("offset", "15"),
            ("email_type", "html"),
            ("status", "subscribed"),
            ("since_timestamp_opt", "2015-10-21T15:41:36+00:00"),
            ("before_timestamp_opt", "b"),
            ("since_last_changed", "c"),
            ("before_last_changed", "d"),
            ("unique_email_id", "e"),
            ("vip_only", "true"),
            ("interest_category_id", "f"),
            ("interest_ids", "g,h"),
            ("interest_match", "any"),
            ("sort_field", "timestamp_opt"),
            ("sort_dir", "ASC"),
            ("since_last_campaign", "true"),
            ("unsubscribed_since", "i"),
        ]
    );
    assert_eq!(f.page_size(), 5);
    assert_eq!(f.page_offset(), 15);
}

#[test]
fn a_filter_leaves_out_what_is_not_set() {
    let f = ListMembersFilter {
        count: None,
        offset: None,
        status: Some("cleaned".to_string()),
        ..ListMembersFilter::default()
    };
    assert_eq!(pairs(&f.build_payload()), vec![("status", "cleaned")]);
}

#[test]
fn a_filter_has_one_parameter_for_each_member_that_is_set() {
    let none = ListMembersFilter {
        count: None,
        offset: None,
        ..ListMembersFilter::default()
    };
    assert_eq!(none.build_payload().count(), 0);
    assert_eq!(ListMembersFilter::default().build_payload().count(), 2);
    let three = ListMembersFilter {
        offset: None,
        vip_only: Some("true".to_string()),
        since_last_campaign: Some(false),
        ..ListMembersFilter::default()
    };
    let payload = three.build_payload();
    assert_eq!(payload.count(), 3);
    assert_eq!(payload.value("count"), Some("50".to_string()));
    assert_eq!(payload.value("vip_only"), Some("true".to_string()));
    assert_eq!(payload.value("since_last_campaign"), Some("false".to_string()));
    assert_eq!(payload.value("offset"), None);
    assert_eq!(payload.value("page"), None);
}
