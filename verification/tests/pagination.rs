//! The walk over a paginated collection, against a transport that serves a
//! collection of a given size page by page.

use mailchimp::iter::{BuildIter, MalchimpIter, ResourceFilter};
use mailchimp::types::{ListMember, ListMembersBuilder, ListMembersFilter};
use mailchimp::{
    BasicAuth, HeaderSet, HttpReq, MailchimpApi, MailchimpErrorType, MailchimpResult,
};
use std::cell::RefCell;
use std::rc::Rc;

/// Serves `total` members, as many per page as the request asks for, and
/// keeps the URLs it was asked for. Fails every request from `fail_from` on.
struct PagedTransport {
    total: u64,
    fail_from: usize,
    asked: Rc<RefCell<Vec<String>>>,
}

type Log = Rc<RefCell<Vec<String>>>;

impl PagedTransport {
    fn new(total: u64, asked: &Log) -> Self {
        PagedTransport { total, fail_from: usize::MAX, asked: asked.clone() }
    }

    fn failing_from(total: u64, fail_from: usize, asked: &Log) -> Self {
        PagedTransport { total, fail_from, asked: asked.clone() }
    }
}

fn new_log() -> Log {
    Rc::new(RefCell::new(Vec::new()))
}

fn query_number(url: &str, name: &str) -> u64 {
    let query = url.split('?').nth(1).unwrap_or("");
    for pair in query.split('&') {
        let mut halves = pair.split('=');
        if halves.next() == Some(name) {
            return halves.next().unwrap().parse().unwrap();
        }
    }
    panic!("no parameter {} in {}", name, url)
}

impl HttpReq for PagedTransport {
    fn get(
        &self,
        url: String,
        _headers: HeaderSet,
        _basic_auth: &Option<BasicAuth>,
    ) -> MailchimpResult<String> {
        let call = self.asked.borrow().len();
        self.asked.borrow_mut().push(url.clone());
        if call >= self.fail_from {
            let mut e = MailchimpErrorType::default();
            e.title = "Too Many Requests".to_string();
            e.status = 429;
            return Err(e);
        }
        let count = query_number(&url, "count");
        let offset = query_number(&url, "offset");
        let mut members = Vec::new();
        let mut i = offset;
        while i < self.total && i < offset + count {
            members.push(format!(
                "{{\"id\":\"m{}\",\"email_address\":\"m{}@example.com\",\"vip\":{},\"stats\":{{\"avg_open_rate\":0.25,\"avg_click_rate\":0}},\"merge_fields\":{{\"FNAME\":\"F{}\",\"LNAME\":\"L{}\"}},\"tags\":[\"a\",\"b\"],\"location\":{{\"gmtoff\":-5,\"latitude\":33.75}}}}",
                i, i, i % 2 == 0, i, i
            ));
            i += 1;
        }
        Ok(format!(
            "{{\"members\":[{}],\"list_id\":\"L1\",\"total_items\":{}}}",
            members.join(","),
            self.total
        ))
    }

    fn post(
        &self,
        url: String,
        _headers: HeaderSet,
        _payload: String,
        _basic_auth: &Option<BasicAuth>,
    ) -> MailchimpResult<String> {
        self.asked.borrow_mut().push(format!("POST {}", url));
        Ok(String::new())
    }

    fn patch(
        &self,
        _url: String,
        _headers: HeaderSet,
        _payload: String,
        _basic_auth: &Option<BasicAuth>,
    ) -> MailchimpResult<String> {
        Ok(String::new())
    }

    fn put(
        &self,
        _url: String,
        _headers: HeaderSet,
        _payload: String,
        _basic_auth: &Option<BasicAuth>,
    ) -> MailchimpResult<String> {
        Ok(String::new())
    }

    fn delete(
        &self,
        url: String,
        _headers: HeaderSet,
        _basic_auth: &Option<BasicAuth>,
    ) -> MailchimpResult<String> {
        self.asked.borrow_mut().push(format!("DELETE {}", url));
        Ok(String::new())
    }
}

fn filter(count: u64) -> ListMembersFilter {
    let mut f = ListMembersFilter::default();
    f.count = Some(count);
    f
}

fn step(f: &ListMembersFilter) -> ListMembersFilter {
    <ListMembersBuilder as BuildIter<'_, PagedTransport>>::update_filter_offset(&builder(), f)
}

fn builder() -> ListMembersBuilder {
    ListMembersBuilder { endpoint: "lists/L1/members".to_string() }
}

fn drain<'a>(
    it: &mut MalchimpIter<'a, ListMembersBuilder, PagedTransport>,
) -> Vec<ListMember<'a, PagedTransport>> {
    let mut out = Vec::new();
    while let Some(m) = it.next() {
        out.push(m);
    }
    out
}

fn url(count: u64, offset: u64) -> String {
    format!(
        "https://us6.api.mailchimp.com/3.0/lists/L1/members?count={}&offset={}",
        count, offset
    )
}

#[test]
fn pages_of_count_count_and_count_minus_one() {
    let count = 3;
    let log = new_log();
    let api = MailchimpApi::new("us6", "key", PagedTransport::new(3 * count - 1, &log));
    let mut it = MalchimpIter::new(builder(), &api, "lists/L1/members", filter(count));
    assert!(log.borrow().is_empty());
    let members = drain(&mut it);
    assert_eq!(members.len() as u64, 3 * count - 1);
    let ids: Vec<&str> = members.iter().map(|m| m.id.as_str()).collect();
    assert_eq!(ids, vec!["m0", "m1", "m2", "m3", "m4", "m5", "m6", "m7"]);
    assert_eq!(*log.borrow(), vec![url(3, 0), url(3, 3), url(3, 6)]);
    assert!(it.next().is_none());
    assert!(it.next().is_none());
    assert_eq!(log.borrow().len(), 3);
    assert_eq!(it.total_items(), 8);
    assert!(it.failure().is_none());
}

#[test]
fn take_pulls_until_the_walk_is_over() {
    let log = new_log();
    let api = MailchimpApi::new("us6", "key", PagedTransport::new(8, &log));
    let mut it = MalchimpIter::new(builder(), &api, "lists/L1/members", filter(3));
    let members = it.take(100);
    let ids: Vec<&str> = members.iter().map(|m| m.id.as_str()).collect();
    assert_eq!(ids, vec!["m0", "m1", "m2", "m3", "m4", "m5", "m6", "m7"]);
    assert_eq!(*log.borrow(), vec![url(3, 0), url(3, 3), url(3, 6)]);
    assert!(it.take(5).is_empty());
    assert_eq!(log.borrow().len(), 3);
}

#[test]
fn a_page_that_is_accepted_becomes_the_page_at_hand() {
    let log = new_log();
    let api = MailchimpApi::new("us6", "key", PagedTransport::new(9, &log));
    let mut it = MalchimpIter::new(builder(), &api, "lists/L1/members", filter(2));
    let text = "{\"members\":[{\"id\":\"x\"},{\"id\":\"y\"}],\"total_items\":9}";
    it.accept(mailchimp::api::decode_reply(Ok(text.to_string())));
    assert_eq!(it.total_items(), 9);
    assert_eq!(it.next().unwrap().id, "x");
    assert_eq!(it.next().unwrap().get_base_endpoint(), "lists/L1/members/y");
    assert!(log.borrow().is_empty());
    assert_eq!(it.next().unwrap().id, "m2");
    assert_eq!(*log.borrow(), vec![url(2, 2)]);
}

#[test]
fn an_error_that_is_accepted_ends_the_walk() {
    let log = new_log();
    let api = MailchimpApi::new("us6", "key", PagedTransport::new(9, &log));
    let mut it = MalchimpIter::new(builder(), &api, "lists/L1/members", filter(2));
    let mut e = MailchimpErrorType::default();
    e.title = "Forbidden".to_string();
    it.accept(Err(e));
    assert!(it.next().is_none());
    assert_eq!(it.failure().as_ref().unwrap().title, "Forbidden");
    assert!(log.borrow().is_empty());
}

#[test]
fn a_filter_with_other_characters_is_encoded_in_the_request() {
    let log = new_log();
    let api = MailchimpApi::new("us6", "key", PagedTransport::new(1, &log));
    let mut f = ListMembersFilter { count: Some(5), offset: Some(0), ..ListMembersFilter::default() };
    f.since_timestamp_opt = Some("2015-10-21T15:41:36+00:00".to_string());
    let mut it = MalchimpIter::new(builder(), &api, "lists/L1/members", f);
    assert_eq!(it.take(10).len(), 1);
    assert_eq!(
        *log.borrow(),
        vec![
            "https://us6.api.mailchimp.com/3.0/lists/L1/members?count=5&offset=0&since_timestamp_opt=2015-10-21T15%3A41%3A36%2B00%3A00"
                .to_string()
        ]
    );
}

#[test]
fn take_stops_at_its_limit() {
    let log = new_log();
    let api = MailchimpApi::new("us6", "key", PagedTransport::new(8, &log));
    let mut it = MalchimpIter::new(builder(), &api, "lists/L1/members", filter(3));
    assert!(it.take(0).is_empty());
    assert!(log.borrow().is_empty());
    let first: Vec<String> = it.take(2).into_iter().map(|m| m.id).collect();
    assert_eq!(first, vec!["m0", "m1"]);
    assert_eq!(log.borrow().len(), 1);
    let next: Vec<String> = it.take(2).into_iter().map(|m| m.id).collect();
    assert_eq!(next, vec!["m2", "m3"]);
    assert_eq!(*log.borrow(), vec![url(3, 0), url(3, 3)]);
}

#[test]
fn a_collection_of_whole_pages_ends_on_an_empty_page() {
    let log = new_log();
    let api = MailchimpApi::new("us6", "key", PagedTransport::new(4, &log));
    let mut it = MalchimpIter::new(builder(), &api, "lists/L1/members", filter(2));
    assert_eq!(drain(&mut it).len(), 4);
    assert_eq!(*log.borrow(), vec![url(2, 0), url(2, 2), url(2, 4)]);
    assert!(it.next().is_none());
    assert_eq!(log.borrow().len(), 3);
}

#[test]
fn an_empty_collection_takes_one_fetch() {
    let log = new_log();
    let api = MailchimpApi::new("us6", "key", PagedTransport::new(0, &log));
    let mut it = MalchimpIter::new(builder(), &api, "lists/L1/members", filter(10));
    assert!(it.next().is_none());
    assert!(it.next().is_none());
    assert_eq!(*log.borrow(), vec![url(10, 0)]);
}

#[test]
fn a_short_first_page_is_the_only_page() {
    let log = new_log();
    let api = MailchimpApi::new("us6", "key", PagedTransport::new(2, &log));
    let mut it = MalchimpIter::new(builder(), &api, "lists/L1/members", filter(50));
    assert_eq!(drain(&mut it).len(), 2);
    assert_eq!(*log.borrow(), vec![url(50, 0)]);
}

#[test]
fn nothing_is_fetched_before_the_first_pull() {
    let log = new_log();
    let api = MailchimpApi::new("us6", "key", PagedTransport::new(5, &log));
    let mut it = MalchimpIter::new(builder(), &api, "lists/L1/members", filter(2));
    assert!(log.borrow().is_empty());
    assert_eq!(it.next().unwrap().id, "m0");
    assert_eq!(log.borrow().len(), 1);
    assert_eq!(it.next().unwrap().id, "m1");
    assert_eq!(log.borrow().len(), 1);
    assert_eq!(it.next().unwrap().id, "m2");
    assert_eq!(log.borrow().len(), 2);
}

#[test]
fn a_failed_fetch_ends_the_walk() {
    let log = new_log();
    let api = MailchimpApi::new("us6", "key", PagedTransport::failing_from(10, 1, &log));
    let mut it = MalchimpIter::new(builder(), &api, "lists/L1/members", filter(2));
    assert_eq!(drain(&mut it).len(), 2);
    assert_eq!(log.borrow().len(), 2);
    assert!(it.next().is_none());
    assert_eq!(log.borrow().len(), 2);
    let failure = it.failure().as_ref().unwrap();
    assert_eq!(failure.title, "Too Many Requests");
    assert_eq!(failure.status, 429);
}

#[test]
fn the_walk_starts_at_the_offset_of_the_filter() {
    let log = new_log();
    let api = MailchimpApi::new("us6", "key", PagedTransport::new(7, &log));
    let mut f = filter(3);
    f.offset = Some(2);
    let mut it = MalchimpIter::new(builder(), &api, "lists/L1/members", f);
    let ids: Vec<String> = drain(&mut it).into_iter().map(|m| m.id).collect();
    assert_eq!(ids, vec!["m2", "m3", "m4", "m5", "m6"]);
    assert_eq!(*log.borrow(), vec![url(3, 2), url(3, 5)]);
}

#[test]
fn a_filter_without_count_walks_in_pages_of_ten() {
    let f = ListMembersFilter { count: None, offset: None, ..ListMembersFilter::default() };
    assert_eq!(f.page_size(), 10);
    assert_eq!(f.page_offset(), 0);
    let next = step(&f);
    assert_eq!(next.count, None);
    assert_eq!(next.offset, Some(10));
}

#[test]
fn members_handed_out_carry_the_endpoint() {
    let log = new_log();
    let api = MailchimpApi::new("us6", "key", PagedTransport::new(1, &log));
    let mut it = MalchimpIter::new(builder(), &api, "lists/L1/members", filter(5));
    let m = it.next().unwrap();
    assert_eq!(m.get_base_endpoint(), "lists/L1/members/m0");
    assert_eq!(m.email_address, "m0@example.com");
    assert!(m.vip);
    assert_eq!(m.stats.avg_open_rate.text(), "0.25");
    assert_eq!(m.stats.avg_click_rate.text(), "0");
    assert_eq!(m.location.gmtoff, -5);
    assert_eq!(m.location.latitude.text(), "33.75");
    assert_eq!(m.location.longitude.text(), "0");
    assert_eq!(m.merge_fields.value("FNAME").as_deref(), Some("F0"));
    assert_eq!(m.merge_fields.value("LNAME").as_deref(), Some("L0"));
    assert_eq!(m.merge_fields.count(), 2);
    assert_eq!(m.tags, vec!["a".to_string(), "b".to_string()]);
    assert_eq!(m.list_id, "");
}

#[test]
fn every_member_is_given_its_own_endpoint() {
    let log = new_log();
    let api = MailchimpApi::new("us6", "key", PagedTransport::new(3, &log));
    let mut it = MalchimpIter::new(builder(), &api, "lists/L1/members", filter(2));
    let endpoints: Vec<String> =
        drain(&mut it).iter().map(|m| m.get_base_endpoint().clone()).collect();
    assert_eq!(
        endpoints,
        vec!["lists/L1/members/m0", "lists/L1/members/m1", "lists/L1/members/m2"]
    );
}

#[test]
fn a_member_handed_out_deletes_itself_at_its_own_endpoint() {
    let log = new_log();
    let api = MailchimpApi::new("us6", "key", PagedTransport::new(2, &log));
    let mut it = MalchimpIter::new(builder(), &api, "lists/L1/members", filter(5));
    let first = it.next().unwrap();
    let second = it.next().unwrap();
    assert_eq!(
        second.permanent_delete_endpoint(),
        "lists/L1/members/m1/actions/delete-permanent"
    );
    assert!(first.delete().is_none());
    assert!(second.permanently_delete().is_none());
    assert_eq!(
        log.borrow()[1..].to_vec(),
        vec![
            "DELETE https://us6.api.mailchimp.com/3.0/lists/L1/members/m0".to_string(),
            "POST https://us6.api.mailchimp.com/3.0/lists/L1/members/m1/actions/delete-permanent"
                .to_string(),
        ]
    );
}

#[test]
fn the_hook_keeps_the_member_and_sets_its_endpoint() {
    let log = new_log();
    let api = MailchimpApi::new("us6", "key", PagedTransport::new(0, &log));
    let mut raw = ListMember::default();
    raw.id = "852aaa9532cb36adfb5e9fef7a4206a9".to_string();
    raw.email_address = "urist@example.com".to_string();
    raw.member_rating = 4;
    let out = builder().update_item(raw, &api);
    assert_eq!(
        out.get_base_endpoint(),
        "lists/L1/members/852aaa9532cb36adfb5e9fef7a4206a9"
    );
    assert_eq!(out.id, "852aaa9532cb36adfb5e9fef7a4206a9");
    assert_eq!(out.email_address, "urist@example.com");
    assert_eq!(out.member_rating, 4);
    assert!(std::ptr::eq(out._api.unwrap(), &api));
}

#[test]
fn the_next_page_asks_for_what_the_page_before_asked_for() {
    let mut f = filter(3);
    f.status = Some("subscribed".to_string());
    f.fields = Some("members.id".to_string());
    f.since_last_campaign = Some(false);
    let before = f.build_payload();
    let after = step(&f).build_payload();
    assert_eq!(before.count(), after.count());
    for (name, value) in before.entries() {
        if name != "offset" {
            assert_eq!(after.value(name).as_ref(), Some(value));
        }
    }
    assert_eq!(after.value("offset").as_deref(), Some("3"));
}

#[test]
fn a_filter_moves_on_by_itself() {
    let mut f = filter(7);
    f.offset = Some(14);
    f.sort_dir = Some("DESC".to_string());
    let next = f.moved_on();
    assert_eq!(next.offset, Some(21));
    assert_eq!(next.count, Some(7));
    assert_eq!(next.sort_dir.as_deref(), Some("DESC"));
    assert_eq!(next.fields, None);
}

#[test]
fn the_offset_moves_on_by_the_page_size() {
    let f = filter(25);
    let next = step(&f);
    assert_eq!(next.offset, Some(25));
    assert_eq!(next.count, Some(25));
    let after = step(&next);
    assert_eq!(after.offset, Some(50));
    let mut named = filter(4);
    named.status = Some("subscribed".to_string());
    named.since_last_campaign = Some(true);
    let moved = step(&named);
    assert_eq!(moved.status.as_deref(), Some("subscribed"));
    assert_eq!(moved.since_last_campaign, Some(true));
    assert_eq!(moved.offset, Some(4));
}
