//! What becomes of a raw response, and how errors are decoded.

use mailchimp::api::{decode_reply, reduce};
use mailchimp::codec::ToJson;
use mailchimp::request::decode_error;
use mailchimp::types::EmptyType;
use mailchimp::{MailchimpErrorType, MailchimpRequest, MailchimpResult, Reply};

const NOT_FOUND: &str = "{\"type\":\"http://developer.mailchimp.com/documentation/mailchimp/guides/error-glossary/\",\"title\":\"Resource Not Found\",\"status\":404,\"detail\":\"The requested resource could not be found.\",\"instance\":\"995c5cb0-3280-4a6e-808b-3b096d0bb219\"}";

fn answered(status: u16, body: Option<&str>) -> MailchimpResult<String> {
    MailchimpRequest::new()
        .process_response(Reply::Answered { status, body: body.map(|b| b.to_string()) })
}

fn is_fallback(e: &MailchimpErrorType) -> bool {
    e.error_type.is_empty()
        && e.title.is_empty()
        && e.status == 0
        && e.detail.is_empty()
        && e.instance.is_empty()
}

#[test]
fn the_default_error_is_the_fallback() {
    assert!(is_fallback(&MailchimpErrorType::default()));
    assert!(MailchimpErrorType::default().is_fallback_error());
    let mut e = MailchimpErrorType::default();
    e.status = 404;
    assert!(!e.is_fallback_error());
    let mut e = MailchimpErrorType::default();
    e.instance = "x".to_string();
    assert!(!e.is_fallback_error());
}

#[test]
fn no_response_gives_the_fallback_error() {
    let r = MailchimpRequest::new().process_response(Reply::Failed);
    assert!(is_fallback(&r.unwrap_err()));
}

#[test]
fn status_200_gives_the_body() {
    assert_eq!(answered(200, Some("{\"a\":1}")).unwrap(), "{\"a\":1}");
    assert_eq!(answered(200, Some("")).unwrap(), "");
}

#[test]
fn every_status_from_200_to_299_is_success() {
    assert_eq!(answered(201, Some("created")).unwrap(), "created");
    assert_eq!(answered(299, Some("x")).unwrap(), "x");
    assert!(answered(199, Some("x")).is_err());
    assert!(answered(300, Some("x")).is_err());
}

#[test]
fn status_204_gives_an_empty_text() {
    assert_eq!(answered(204, None).unwrap(), "");
    assert_eq!(answered(204, Some("ignored")).unwrap(), "");
}

#[test]
fn a_success_without_readable_body_gives_the_fallback_error() {
    assert!(is_fallback(&answered(200, None).unwrap_err()));
}

#[test]
fn an_error_body_is_decoded() {
    let e = answered(404, Some(NOT_FOUND)).unwrap_err();
    assert_eq!(
        e.error_type,
        "http://developer.mailchimp.com/documentation/mailchimp/guides/error-glossary/"
    );
    assert_eq!(e.title, "Resource Not Found");
    assert_eq!(e.status, 404);
    assert_eq!(e.detail, "The requested resource could not be found.");
    assert_eq!(e.instance, "995c5cb0-3280-4a6e-808b-3b096d0bb219");
}

#[test]
fn an_error_body_may_leave_members_out() {
    let e = answered(500, Some("{\"title\":\"Oops\",\"extra\":[1,2]}")).unwrap_err();
    assert_eq!(e.title, "Oops");
    assert_eq!(e.detail, "");
    assert_eq!(e.status, 0);
}

#[test]
fn a_malformed_error_body_gives_the_fallback_error() {
    assert!(is_fallback(&answered(500, Some("<html>Bad Gateway</html>")).unwrap_err()));
    assert!(is_fallback(&answered(400, Some("")).unwrap_err()));
    assert!(is_fallback(&answered(400, Some("[\"title\"]")).unwrap_err()));
    assert!(is_fallback(&answered(400, Some("{\"title\":5,\"detail\":\"x\"}")).unwrap_err()));
    assert!(is_fallback(&answered(400, Some("{\"title\":null}")).unwrap_err()));
    assert!(is_fallback(&answered(400, Some("{\"status\":-1}")).unwrap_err()));
    assert!(is_fallback(&answered(400, Some("{\"status\":4.5}")).unwrap_err()));
    assert!(is_fallback(&answered(400, Some("{\"title\":\"cut")).unwrap_err()));
}

#[test]
fn a_failure_without_readable_body_gives_the_fallback_error() {
    assert!(is_fallback(&answered(503, None).unwrap_err()));
}

#[test]
fn decode_error_reads_title_and_detail() {
    let e = decode_error("{\"title\":\"Forbidden\",\"detail\":\"Not allowed\",\"status\":403}");
    assert_eq!(e.title, "Forbidden");
    assert_eq!(e.detail, "Not allowed");
    assert_eq!(e.status, 403);
    assert!(is_fallback(&decode_error("Forbidden")));
}

#[test]
fn an_error_of_the_transport_is_handed_on() {
    let mut e = MailchimpErrorType::default();
    e.title = "Timeout".to_string();
    let r = decode_reply::<EmptyType>(Err(e));
    assert_eq!(r.unwrap_err().title, "Timeout");
}

#[test]
fn an_empty_body_decodes_to_the_empty_record() {
    assert!(decode_reply::<EmptyType>(Ok(String::new())).is_ok());
    assert!(decode_reply::<EmptyType>(Ok("{}".to_string())).is_ok());
    assert!(decode_reply::<EmptyType>(Ok("{\"a\":1}".to_string())).is_ok());
}

#[test]
fn a_body_of_the_wrong_shape_gives_the_fallback_error() {
    assert!(is_fallback(&decode_reply::<EmptyType>(Ok("[]".to_string())).unwrap_err()));
    assert!(is_fallback(&decode_reply::<EmptyType>(Ok("nonsense".to_string())).unwrap_err()));
    assert!(is_fallback(&decode_reply::<u64>(Ok("\"seven\"".to_string())).unwrap_err()));
    assert_eq!(decode_reply::<u64>(Ok("7".to_string())).unwrap(), 7);
}

#[test]
fn an_error_is_written_with_all_its_members() {
    let e = decode_error(NOT_FOUND);
    let text = e.to_json().print();
    assert_eq!(
        text,
        "{\"detail\":\"The requested resource could not be found.\",\"instance\":\"995c5cb0-3280-4a6e-808b-3b096d0bb219\",\"status\":404,\"title\":\"Resource Not Found\",\"type\":\"http://developer.mailchimp.com/documentation/mailchimp/guides/error-glossary/\"}"
    );
    let again = decode_error(&text);
    assert_eq!(again.title, e.title);
    assert_eq!(again.status, 404);
    assert_eq!(
        MailchimpErrorType::default().to_json().print(),
        "{\"detail\":\"\",\"instance\":\"\",\"status\":0,\"title\":\"\",\"type\":\"\"}"
    );
}

#[test]
fn reduce_keeps_the_error_only() {
    assert!(reduce::<u64>(Ok(3)).is_none());
    let mut e = MailchimpErrorType::default();
    e.status = 401;
    assert_eq!(reduce::<u64>(Err(e)).unwrap().status, 401);
}
