//! JSON documents: reading, taking apart, building and writing.

use mailchimp::codec::{FromJson, ToJson};
use mailchimp::decimal::Decimal;
use mailchimp::json::{Json, JsonKind};
use mailchimp::Params;

fn doc(text: &str) -> Json {
    Json::parse(text).unwrap()
}

#[test]
fn parse_rejects_what_is_not_json() {
    assert!(Json::parse("").is_none());
    assert!(Json::parse("{").is_none());
    assert!(Json::parse("{\"a\":1} trailing").is_none());
    assert!(Json::parse("nul").is_none());
    assert!(Json::parse(" [1, 2] ").is_some());
}

#[test]
fn kinds_are_told_apart() {
    assert_eq!(doc("null").kind(), JsonKind::Null);
    assert_eq!(doc("true").kind(), JsonKind::Bool);
    assert_eq!(doc("12").kind(), JsonKind::Number);
    assert_eq!(doc("-1.5e3").kind(), JsonKind::Number);
    assert_eq!(doc("\"12\"").kind(), JsonKind::Text);
    assert_eq!(doc("[]").kind(), JsonKind::Array);
    assert_eq!(doc("{}").kind(), JsonKind::Object);
}

#[test]
fn booleans_are_read() {
    assert_eq!(doc("true").boolean(), Some(true));
    assert_eq!(doc("false").boolean(), Some(false));
    assert_eq!(doc("1").boolean(), None);
    assert_eq!(doc("\"true\"").boolean(), None);
}

#[test]
fn unsigned_integers_are_read() {
    assert_eq!(doc("0").unsigned(), Some(0));
    assert_eq!(doc("18446744073709551615").unsigned(), Some(u64::MAX));
    assert_eq!(doc("18446744073709551616").unsigned(), None);
    assert_eq!(doc("-1").unsigned(), None);
    assert_eq!(doc("1.0").unsigned(), None);
    assert_eq!(doc("\"1\"").unsigned(), None);
}

#[test]
fn signed_integers_are_read() {
    assert_eq!(doc("-9223372036854775808").signed(), Some(i64::MIN));
    assert_eq!(doc("9223372036854775807").signed(), Some(i64::MAX));
    assert_eq!(doc("9223372036854775808").signed(), None);
    assert_eq!(doc("2.5").signed(), None);
    assert_eq!(doc("null").signed(), None);
}

#[test]
fn texts_are_read() {
    assert_eq!(doc("\"a\\nb\\u00e9\"").text().as_deref(), Some("a\nb\u{e9}"));
    assert_eq!(doc("\"\"").text().as_deref(), Some(""));
    assert_eq!(doc("7").text(), None);
}

#[test]
fn numbers_are_written_as_text() {
    assert_eq!(doc("42").number_text().as_deref(), Some("42"));
    assert_eq!(doc("-42").number_text().as_deref(), Some("-42"));
    assert_eq!(doc("0.25").number_text().as_deref(), Some("0.25"));
    assert_eq!(doc("1e2").number_text().as_deref(), Some("100.0"));
    assert_eq!(doc("\"1\"").number_text(), None);
}

#[test]
fn members_are_found_by_key() {
    let d = doc("{\"a\":{\"b\":[10,20]},\"c\":null}");
    assert_eq!(d.member("a").unwrap().member("b").unwrap().element_count(), Some(2));
    assert_eq!(d.member("c").unwrap().kind(), JsonKind::Null);
    assert!(d.member("b").is_none());
    assert!(d.member("").is_none());
    assert!(doc("[1]").member("0").is_none());
}

#[test]
fn a_key_that_occurs_twice_keeps_its_last_value() {
    assert_eq!(doc("{\"a\":1,\"a\":2}").member("a").unwrap().unsigned(), Some(2));
}

#[test]
fn elements_are_found_by_index() {
    let d = doc("[\"x\",\"y\",\"z\"]");
    assert_eq!(d.element_count(), Some(3));
    assert_eq!(d.element(0).unwrap().text().as_deref(), Some("x"));
    assert_eq!(d.element(2).unwrap().text().as_deref(), Some("z"));
    assert!(d.element(3).is_none());
    assert!(doc("{\"0\":1}").element(0).is_none());
    assert_eq!(doc("{}").element_count(), None);
    assert_eq!(doc("[]").element_count(), Some(0));
}

#[test]
fn keys_are_listed_once_each() {
    let mut keys = doc("{\"b\":1,\"a\":2,\"b\":3}").member_names().unwrap();
    keys.sort();
    assert_eq!(keys, vec!["a".to_string(), "b".to_string()]);
    assert_eq!(doc("{}").member_names(), Some(Vec::new()));
    assert_eq!(doc("[]").member_names(), None);
}

#[test]
fn documents_are_built() {
    assert_eq!(Json::null().print(), "null");
    assert_eq!(Json::of_bool(true).print(), "true");
    assert_eq!(Json::of_unsigned(u64::MAX).print(), "18446744073709551615");
    assert_eq!(Json::of_signed(-7).print(), "-7");
    assert_eq!(Json::of_text("a\"b").print(), "\"a\\\"b\"");
    assert_eq!(
        Json::of_elements(vec![Json::of_unsigned(1), Json::of_text("x")]).print(),
        "[1,\"x\"]"
    );
    assert_eq!(Json::empty_object().print(), "{}");
}

#[test]
fn members_are_stored() {
    let mut d = Json::empty_object();
    d.set_member("k".to_string(), Json::of_unsigned(1));
    d.set_member("j".to_string(), Json::of_text("v"));
    assert_eq!(d.print(), "{\"j\":\"v\",\"k\":1}");
    d.set_member("k".to_string(), Json::null());
    assert_eq!(d.print(), "{\"j\":\"v\",\"k\":null}");
    assert_eq!(d.member("j").unwrap().text().as_deref(), Some("v"));
}

#[test]
fn a_clone_holds_the_same_document() {
    let d = doc("{\"a\":[1,{\"b\":false}]}");
    let mut copy = d.clone();
    assert_eq!(copy.print(), d.print());
    copy.set_member("c".to_string(), Json::null());
    assert!(d.member("c").is_none());
    assert!(copy.member("c").is_some());
}

#[test]
fn printing_and_parsing_agree() {
    let text = "{\"a\":[1,2.5,\"x\",null,true],\"b\":{\"c\":-3}}";
    assert_eq!(doc(text).print(), text);
}

#[test]
fn plain_values_are_decoded() {
    assert_eq!(String::from_json(&doc("\"s\"")).as_deref(), Some("s"));
    assert_eq!(String::from_json(&doc("1")), None);
    assert_eq!(u64::from_json(&doc("5")), Some(5));
    assert_eq!(u32::from_json(&doc("4294967295")), Some(u32::MAX));
    assert_eq!(u32::from_json(&doc("4294967296")), None);
    assert_eq!(i64::from_json(&doc("-5")), Some(-5));
    assert_eq!(bool::from_json(&doc("false")), Some(false));
    assert_eq!(bool::from_json(&doc("0")), None);
    assert_eq!(Option::<u64>::from_json(&doc("null")), Some(None));
    assert_eq!(Option::<u64>::from_json(&doc("3")), Some(Some(3)));
    assert_eq!(Option::<u64>::from_json(&doc("\"3\"")), None);
    assert_eq!(Vec::<u64>::from_json(&doc("[1,2,3]")), Some(vec![1, 2, 3]));
    assert_eq!(Vec::<u64>::from_json(&doc("[1,\"2\",3]")), None);
    assert_eq!(Vec::<u64>::from_json(&doc("{}")), None);
    assert_eq!(Vec::<String>::from_json(&doc("[]")), Some(Vec::new()));
}

#[test]
fn a_document_stands_for_itself() {
    let d = doc("{\"a\":[1,2]}");
    assert_eq!(Json::from_json(&d).unwrap().print(), "{\"a\":[1,2]}");
    assert_eq!(d.to_json().print(), "{\"a\":[1,2]}");
    assert_eq!(Json::absent().print(), "null");
}

#[test]
fn absent_values_are_empty() {
    assert_eq!(String::absent(), "");
    assert_eq!(u64::absent(), 0);
    assert_eq!(u32::absent(), 0);
    assert_eq!(i64::absent(), 0);
    assert!(!bool::absent());
    assert_eq!(Option::<String>::absent(), None);
    assert_eq!(Vec::<u64>::absent(), Vec::<u64>::new());
    assert_eq!(Params::absent().count(), 0);
    assert_eq!(Decimal::absent().text(), "0");
}

#[test]
fn plain_values_are_written() {
    assert_eq!("s".to_string().to_json().print(), "\"s\"");
    assert_eq!(5u64.to_json().print(), "5");
    assert_eq!(5u32.to_json().print(), "5");
    assert_eq!((-5i64).to_json().print(), "-5");
    assert_eq!(true.to_json().print(), "true");
    assert_eq!(Option::<u64>::None.to_json().print(), "null");
    assert_eq!(Some(9u64).to_json().print(), "9");
    assert_eq!(vec!["a".to_string(), "b".to_string()].to_json().print(), "[\"a\",\"b\"]");
    assert_eq!(Vec::<u64>::new().to_json().print(), "[]");
}

#[test]
fn decimals_keep_the_number_they_were_read_from() {
    let d = Decimal::from_json(&doc("0.125")).unwrap();
    assert_eq!(d.text(), "0.125");
    assert_eq!(d.to_json().print(), "0.125");
    assert_eq!(d.clone().text(), "0.125");
    assert_eq!(Decimal::from_json(&doc("3")).unwrap().text(), "3");
    assert_eq!(Decimal::from_json(&doc("-3")).unwrap().text(), "-3");
    assert!(Decimal::from_json(&doc("\"3\"")).is_none());
    assert!(Decimal::from_json(&doc("null")).is_none());
    assert_eq!(Decimal::default().text(), "0");
    assert_eq!(Decimal::from_unsigned(17).text(), "17");
    assert_eq!(Decimal::from_unsigned(17).to_json().unsigned(), Some(17));
}

#[test]
fn parameter_lists_are_decoded_from_objects_of_strings() {
    let p = Params::from_json(&doc("{\"FNAME\":\"Ann\",\"LNAME\":\"Lee\"}")).unwrap();
    assert_eq!(p.count(), 2);
    assert_eq!(p.value("FNAME").as_deref(), Some("Ann"));
    assert_eq!(p.value("LNAME").as_deref(), Some("Lee"));
    assert_eq!(p.value("MNAME"), None);
    assert!(Params::from_json(&doc("{\"AGE\":30}")).is_none());
    assert!(Params::from_json(&doc("[]")).is_none());
    assert_eq!(Params::from_json(&doc("{}")).unwrap().count(), 0);
}

#[test]
fn parameter_lists_are_written_as_objects_of_strings() {
    let mut p = Params::new();
    p.insert("b".to_string(), "2".to_string());
    p.insert("a".to_string(), "x\"y".to_string());
    assert_eq!(p.to_json().print(), "{\"a\":\"x\\\"y\",\"b\":\"2\"}");
    assert_eq!(Params::new().to_json().print(), "{}");
}
