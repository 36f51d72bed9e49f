//! What holds of the library as a whole: statements that tie several of its
//! operations together, each proved from the contracts of the operations.

use crate::api::{
    domain_of, header_pairs, is_action_outcome, is_decoding_of, plain_url_text, url_text,
    version_text,
};
use crate::encode::form_encoded;
use crate::codec::{FromJson, ToJson};
use crate::error_type::MailchimpErrorType;
use crate::iter::{
    after_fetch, after_page, after_pull, after_pulls, is_last_page, is_step, lemma_pulls_add,
    lemma_pulls_after_the_end, lemma_pulls_through_page, pull_fetches, BuildIter, Cursor,
    MalchimpIter,
};
use crate::json::{json_parse, JsonTree};
use crate::iter::ResourceFilter;
use crate::params::{
    distinct_keys, has_key, pair_text, plain_pair_text, plain_query_text, put_each, query_text,
    stored_count, value_of, ParamSeq,
};
use crate::text::{decimal, lemma_decimal_injective};
use crate::request::{is_outcome_of, is_success, HttpReq, MailchimpResult, Reply};
use crate::round_trip::RoundTrip;
use crate::types::authorized_apps::AuthorizedAppsType;
use crate::types::automation_campaign::{AutomationsType, WorkflowEmailsType};
use crate::types::campaign::CampaignsType;
use crate::types::empty::EmptyType;
use crate::types::list_members::{CollectionListMembers, ListMembersFilter};
use crate::types::member_filter::{
    filter_name, lemma_filter_other_name, lemma_filter_payload_len, lemma_filter_stores,
    lemma_filter_value,
};
use vstd::prelude::*;

verus! {

/// The URL of an endpoint without parameters is the domain, the version, a
/// slash and the endpoint, and nothing more: no `?` is added.
pub proof fn law_url_without_params(dc: Seq<char>, endpoint: Seq<char>)
    ensures
        url_text(domain_of(dc), version_text(), endpoint, ParamSeq::empty()) == domain_of(dc)
            + version_text() + "/"@ + endpoint,
{
}

/// With one parameter the URL is the URL without parameters followed by
/// exactly `?name=value`, name and value percent-encoded.
pub proof fn law_url_with_one_param(
    dc: Seq<char>,
    endpoint: Seq<char>,
    name: Seq<char>,
    value: Seq<char>,
)
    ensures
        url_text(domain_of(dc), version_text(), endpoint, seq![(name, value)]) == url_text(
            domain_of(dc),
            version_text(),
            endpoint,
            ParamSeq::empty(),
        ) + "?"@ + form_encoded(name) + "="@ + form_encoded(value),
{
    let s: ParamSeq = seq![(name, value)];
    assert(s.len() == 1);
    assert(query_text(s) == pair_text(s[0]));
    assert(url_text(domain_of(dc), version_text(), endpoint, s) =~= url_text(
        domain_of(dc),
        version_text(),
        endpoint,
        ParamSeq::empty(),
    ) + "?"@ + form_encoded(name) + "="@ + form_encoded(value));
}

/// One more parameter adds `&name=value`, percent-encoded, at the end of a
/// query string that is not empty: parameters stand in their order, joined
/// by `&`.
pub proof fn law_query_joins_in_order(s: ParamSeq, name: Seq<char>, value: Seq<char>)
    requires
        s.len() > 0,
    ensures
        query_text(s.push((name, value))) == query_text(s) + "&"@ + form_encoded(name) + "="@
            + form_encoded(value),
{
    let t = s.push((name, value));
    assert(t.drop_last() =~= s);
    assert(t.last() == (name, value));
    assert(query_text(t) == query_text(s) + "&"@ + pair_text((name, value)));
    assert(query_text(s) + "&"@ + pair_text((name, value)) =~= query_text(s) + "&"@
        + form_encoded(name) + "="@ + form_encoded(value));
}

/// Written as they are, one parameter adds exactly `?name=value` to the URL
/// without parameters, and one more parameter adds `&name=value` at the end
/// of a query string that is not empty. That is what the URL of parameters
/// of plain characters is.
pub proof fn law_plain_url(
    dc: Seq<char>,
    endpoint: Seq<char>,
    s: ParamSeq,
    name: Seq<char>,
    value: Seq<char>,
)
    ensures
        plain_url_text(domain_of(dc), version_text(), endpoint, ParamSeq::empty()) == domain_of(
            dc,
        ) + version_text() + "/"@ + endpoint,
        plain_url_text(domain_of(dc), version_text(), endpoint, seq![(name, value)])
            == plain_url_text(domain_of(dc), version_text(), endpoint, ParamSeq::empty()) + "?"@
            + name + "="@ + value,
        s.len() > 0 ==> plain_query_text(s.push((name, value))) == plain_query_text(s) + "&"@
            + name + "="@ + value,
{
    let one: ParamSeq = seq![(name, value)];
    assert(one.len() == 1);
    assert(plain_query_text(one) == plain_pair_text(one[0]));
    assert(plain_url_text(domain_of(dc), version_text(), endpoint, one) =~= plain_url_text(
        domain_of(dc),
        version_text(),
        endpoint,
        ParamSeq::empty(),
    ) + "?"@ + name + "="@ + value);
    if s.len() > 0 {
        let t = s.push((name, value));
        assert(t.drop_last() =~= s);
        assert(t.last() == (name, value));
        assert(plain_query_text(t) == plain_query_text(s) + "&"@ + plain_pair_text(
            (name, value),
        ));
        assert(plain_query_text(s) + "&"@ + plain_pair_text((name, value)) =~= plain_query_text(
            s,
        ) + "&"@ + name + "="@ + value);
    }
}

/// The headers always hold the JSON content type, and, where the key is
/// sent as a bearer token, the authorization header with that key.
pub proof fn law_headers(api_key: Seq<char>, bearer: bool)
    ensures
        value_of(header_pairs(api_key, bearer), "content-type"@) == Some("application/json"@),
        bearer ==> value_of(header_pairs(api_key, bearer), "authorization"@) == Some(
            "Bearer "@ + api_key,
        ),
        !bearer ==> !has_key(header_pairs(api_key, bearer), "authorization"@),
{
    reveal_strlit("content-type");
    reveal_strlit("authorization");
    let h = header_pairs(api_key, bearer);
    assert("content-type"@.len() != "authorization"@.len());
    assert(h[0].0 == "content-type"@);
    assert(has_key(h, "content-type"@));
    if bearer {
        assert(h[1].0 == "authorization"@);
        assert(has_key(h, "authorization"@));
    }
}

/// A pull never moves the offset by anything but one page size: after a
/// page that is not the last one, the next fetch asks for the offset of the
/// page before plus the page size; after a last page, and after a failed
/// fetch, nothing is fetched any more.
pub proof fn law_offset_advances_by_count(c: Cursor, outcome: Option<nat>)
    requires
        !c.exhausted,
    ensures
        ({
            let next = after_fetch(c, outcome);
            if next.exhausted {
                next.offset == c.offset
            } else {
                outcome matches Some(items) && !is_last_page(c.count, items) && next.offset
                    == c.offset + c.count
            }
        }),
        after_fetch(c, outcome).count == c.count,
{
}

/// A pull that hands out nothing ends the walk: the walk is exhausted then,
/// and every later pull hands out nothing, fetches nothing and leaves the
/// cursor as it is.
pub proof fn law_walk_that_ended_stays_ended(a: Cursor, b: Cursor, c: Cursor, yielded: bool)
    requires
        a.position <= a.buffered,
        is_step(a, b, false),
        is_step(b, c, yielded),
    ensures
        b.exhausted,
        !yielded,
        c == b,
{
}

/// Skipping `k` items twice is skipping twice as many.
proof fn lemma_skip_twice<T>(s: Seq<T>, k: int)
    requires
        0 <= k,
        2 * k <= s.len(),
    ensures
        s.skip(k).skip(k) == s.skip(2 * k),
{
    assert(s.skip(k).skip(k) =~= s.skip(2 * k));
}

/// Whether the transport answers every walk of `states` that asks for the
/// page at `offset` with a page of `n` items.
pub open spec fn pages_at<'a, B: BuildIter<'a, R>, R: HttpReq>(
    states: Seq<MalchimpIter<'a, B, R>>,
    offset: nat,
    n: nat,
) -> bool {
    forall|i: int|
        0 <= i < states.len() && (#[trigger] states[i]).cursor().offset == offset
            ==> states[i].page_has(n)
}

/// Whether the transport answers the walks of `states` with `full` pages
/// of `count` items each, the first of them at `offset` and each of the
/// others `count` after the one before, and then with a page of `last`
/// items.
pub open spec fn pages_from<'a, B: BuildIter<'a, R>, R: HttpReq>(
    states: Seq<MalchimpIter<'a, B, R>>,
    offset: nat,
    count: nat,
    full: nat,
    last: nat,
) -> bool {
    &&& forall|k: nat| k < full ==> #[trigger] pages_at(states, offset + k * count, count)
    &&& pages_at(states, offset + full * count, last)
}

/// What the transport answers to the walks of a run it answers to those of
/// the rest of the run.
proof fn lemma_pages_at_later<'a, B: BuildIter<'a, R>, R: HttpReq>(
    states: Seq<MalchimpIter<'a, B, R>>,
    k: int,
    offset: nat,
    n: nat,
)
    requires
        0 <= k <= states.len(),
        pages_at(states, offset, n),
    ensures
        pages_at(states.skip(k), offset, n),
{
    let later = states.skip(k);
    assert forall|i: int|
        0 <= i < later.len() && (#[trigger] later[i]).cursor().offset == offset implies later[i].page_has(
        n,
    ) by {
        assert(states[i + k] == later[i]);
    }
}

/// A walk ends after the first page that is shorter than the page size.
/// On a transport that answers with `full` full pages and then a page of
/// `last < count` items, a run of pulls that goes on until a pull hands out
/// nothing hands out `full * count + last` items and leaves the walk
/// exhausted with no item at hand.
pub proof fn law_run_ends_after_short_page<'a, B: BuildIter<'a, R>, R: HttpReq>(
    start: MalchimpIter<'a, B, R>,
    states: Seq<MalchimpIter<'a, B, R>>,
    items: Seq<B::Item>,
    after: MalchimpIter<'a, B, R>,
    limit: nat,
    full: nat,
    last: nat,
)
    requires
        MalchimpIter::is_run(start, states, items),
        MalchimpIter::ends_run(states, &after, items.len(), limit),
        items.len() < limit,
        start.pending().len() == 0,
        !start.exhausted(),
        start.cursor().count >= 1,
        last < start.cursor().count,
        start.cursor().offset + full * start.cursor().count <= u64::MAX,
        pages_from(states, start.cursor().offset, start.cursor().count, full, last),
    ensures
        items.len() == full * start.cursor().count + last,
        after.exhausted(),
        after.pending().len() == 0,
    decreases full,
{
    let c = start.cursor().count;
    let o = start.cursor().offset;
    assert(states[0] == start);
    if full == 0 {
        assert(o + full * c == o) by (nonlinear_arith)
            requires
                full == 0,
        ;
        assert(start.page_has(last));
        if last >= 1 {
            MalchimpIter::lemma_run_past_page(start, states, items, after, limit, last);
            let k = last as int;
            assert(items.skip(k).len() == items.len() - k);
            MalchimpIter::lemma_run_is_over(
                states[k],
                states.skip(k),
                items.skip(k),
                after,
                (limit - last) as nat,
            );
        } else {
            MalchimpIter::lemma_run_takes_page(start, states, items, after, limit, 0);
        }
    } else {
        assert(pages_at(states, o + 0nat * c, c));
        assert(o + 0nat * c == o) by (nonlinear_arith);
        assert(start.page_has(c));
        assert(o + c <= o + full * c && o + c + (full - 1) * c == o + full * c)
            by (nonlinear_arith)
            requires
                full >= 1,
        ;
        MalchimpIter::lemma_run_past_page(start, states, items, after, limit, c);
        let k = c as int;
        let second = states[k];
        let later = states.skip(k);
        let rest = items.skip(k);
        assert(rest.len() == items.len() - k);
        assert forall|j: nat| j < full - 1 implies #[trigger] pages_at(
            later,
            o + c + j * c,
            c,
        ) by {
            assert(pages_at(states, o + (j + 1) as nat * c, c));
            assert(o + (j + 1) as nat * c == o + c + j * c) by (nonlinear_arith);
            lemma_pages_at_later(states, k, o + c + j * c, c);
        }
        lemma_pages_at_later(states, k, o + full * c, last);
        assert(pages_from(later, o + c, c, (full - 1) as nat, last));
        law_run_ends_after_short_page(
            second,
            later,
            rest,
            after,
            (limit - c) as nat,
            (full - 1) as nat,
            last,
        );
        assert(c + (full - 1) * c + last == full * c + last) by (nonlinear_arith)
            requires
                full >= 1,
        ;
    }
}

/// A walk on a transport that answers with pages of `count`, `count` and
/// `count - 1` items: a run of pulls that goes on until a pull hands out
/// nothing hands out `3 * count - 1` items. The first page is asked for at
/// the offset of the filter, the second after `count` pulls at that offset
/// and `count`, the third after `2 * count` pulls at that offset and twice
/// `count`, and the requests for the second and the third name those
/// offsets in their parameter `offset`. What is handed out are the items
/// of the first page, then those of the second, then those of the third,
/// each page in its order and each item as the hook prepares it. The run
/// leaves the walk exhausted with no item at hand, so that no pull after
/// it asks the transport for anything.
pub proof fn law_walk_of_three_pages<'a, B: BuildIter<'a, R>, R: HttpReq>(
    start: MalchimpIter<'a, B, R>,
    states: Seq<MalchimpIter<'a, B, R>>,
    items: Seq<B::Item>,
    after: MalchimpIter<'a, B, R>,
    limit: nat,
)
    requires
        MalchimpIter::is_run(start, states, items),
        MalchimpIter::ends_run(states, &after, items.len(), limit),
        items.len() < limit,
        start.pending().len() == 0,
        !start.exhausted(),
        start.cursor().count >= 1,
        start.cursor().offset + 2 * start.cursor().count <= u64::MAX,
        pages_at(states, start.cursor().offset, start.cursor().count),
        pages_at(states, start.cursor().offset + start.cursor().count, start.cursor().count),
        pages_at(
            states,
            start.cursor().offset + 2 * start.cursor().count,
            (start.cursor().count - 1) as nat,
        ),
    ensures
        items.len() == 3 * start.cursor().count - 1,
        states[start.cursor().count as int].pending().len() == 0,
        states[start.cursor().count as int].cursor().offset == start.cursor().offset
            + start.cursor().count,
        states[2 * start.cursor().count as int].pending().len() == 0,
        states[2 * start.cursor().count as int].cursor().offset == start.cursor().offset + 2
            * start.cursor().count,
        value_of(states[start.cursor().count as int].filter().payload(), "offset"@) == Some(
            decimal(start.cursor().offset + start.cursor().count),
        ),
        value_of(states[2 * start.cursor().count as int].filter().payload(), "offset"@) == Some(
            decimal(start.cursor().offset + 2 * start.cursor().count),
        ),
        after.exhausted(),
        after.pending().len() == 0,
        start.hands_out_page(items, start.cursor().count),
        states[start.cursor().count as int].hands_out_page(
            items.skip(start.cursor().count as int),
            start.cursor().count,
        ),
        start.cursor().count > 1 ==> states[2 * start.cursor().count as int].hands_out_page(
            items.skip(2 * start.cursor().count as int),
            (start.cursor().count - 1) as nat,
        ),
{
    let c = start.cursor().count as int;
    let o = start.cursor().offset as int;
    assert(states[0] == start);
    MalchimpIter::lemma_run_past_page(start, states, items, after, limit, c as nat);
    let second = states[c];
    let states_b = states.skip(c);
    let items_b = items.skip(c);
    assert(second.cursor().offset == o + c);
    assert(second.page_has(c as nat));
    MalchimpIter::lemma_run_past_page(
        second,
        states_b,
        items_b,
        after,
        (limit - c) as nat,
        c as nat,
    );
    let third = states_b[c];
    let states_c = states_b.skip(c);
    let items_c = items_b.skip(c);
    assert(third == states[2 * c]);
    assert(third.cursor().offset == o + 2 * c);
    assert(third.page_has((c - 1) as nat));
    assert(items_b.len() == items.len() - c);
    assert(items_c.len() == items_b.len() - c);
    lemma_skip_twice(items, c);
    if c > 1 {
        MalchimpIter::lemma_run_past_page(
            third,
            states_c,
            items_c,
            after,
            (limit - 2 * c) as nat,
            (c - 1) as nat,
        );
        assert(items_c.skip(c - 1).len() == items_c.len() - (c - 1));
        MalchimpIter::lemma_run_is_over(
            states_c[c - 1],
            states_c.skip(c - 1),
            items_c.skip(c - 1),
            after,
            (limit - (3 * c - 1)) as nat,
        );
    } else {
        MalchimpIter::lemma_run_takes_page(
            third,
            states_c,
            items_c,
            after,
            (limit - 2 * c) as nat,
            0,
        );
    }
}

/// A run of pulls on a walk whose pages come with `count`, `count` and
/// `count - 1` items: the first `3 * count - 1` pulls hand out an item each;
/// every pull after them hands out nothing; and once a pull has handed out
/// nothing, exactly three pages have been fetched, whatever further pages
/// the service might have, and the walk is exhausted.
pub proof fn law_three_pages_pulled(c: Cursor, more: Seq<Option<nat>>, extra: nat)
    requires
        pull_fetches(c),
        c.count >= 1,
        c.offset + 3 * c.count <= u64::MAX,
    ensures
        ({
            let pages = seq![Some(c.count), Some(c.count), Some((c.count - 1) as nat)] + more;
            let all = (3 * c.count - 1) as nat;
            &&& after_pulls(c, pages, all).handed == all
            &&& after_pulls(c, pages, all + extra).handed == all
            &&& extra >= 1 ==> after_pulls(c, pages, all + extra).left == more
            &&& extra >= 1 ==> after_pulls(c, pages, all + extra).fetched == 3
            &&& extra >= 1 ==> after_pulls(c, pages, all + extra).cursor.exhausted
            &&& extra >= 1 ==> after_pulls(c, pages, all + extra).cursor.offset == c.offset + 2
                * c.count
        }),
{
    let n = c.count;
    let pages = seq![Some(n), Some(n), Some((n - 1) as nat)] + more;
    let all = (3 * n - 1) as nat;
    lemma_pulls_through_page(c, pages, n);
    let r1 = after_pulls(c, pages, n);
    let later = pages.drop_first();
    assert(later[0] == Some(n));
    lemma_pulls_through_page(r1.cursor, later, n);
    let r2 = after_pulls(r1.cursor, later, n);
    let last = later.drop_first();
    assert(last[0] == Some((n - 1) as nat));
    assert(last.drop_first() =~= more);
    lemma_pulls_add(c, pages, n, n);
    let two = after_pulls(c, pages, n + n);
    assert(two.cursor == r2.cursor && two.left == last && two.handed == n + n && two.fetched == 2);
    if n >= 2 {
        lemma_pulls_through_page(r2.cursor, last, (n - 1) as nat);
        let r3 = after_pulls(r2.cursor, last, (n - 1) as nat);
        lemma_pulls_add(c, pages, n + n, (n - 1) as nat);
        assert(n + n + (n - 1) as nat == all);
        lemma_pulls_after_the_end(r3.cursor, more, extra);
        lemma_pulls_add(c, pages, all, extra);
    } else {
        assert(all == n + n);
        if extra >= 1 {
            let ended = after_pull(r2.cursor, Some(0nat));
            lemma_pulls_after_the_end(ended, more, (extra - 1) as nat);
            assert(after_pulls(r2.cursor, last, extra).handed == 0);
            assert(after_pulls(r2.cursor, last, extra).fetched == 1);
            lemma_pulls_add(c, pages, all, extra);
        }
    }
}

/// The cursor after a run of pages has arrived and every item of them has
/// been handed out: the walk takes pages from `sizes` until it is exhausted.
pub open spec fn after_pages(c: Cursor, sizes: Seq<nat>) -> Cursor
    decreases sizes.len(),
{
    if sizes.len() == 0 || c.exhausted {
        c
    } else {
        let arrived = after_page(c, sizes[0]);
        after_pages(Cursor { position: arrived.buffered, ..arrived }, sizes.drop_first())
    }
}

/// The number of pages of `sizes` that a walk from `c` fetches.
pub open spec fn pages_fetched(c: Cursor, sizes: Seq<nat>) -> nat
    decreases sizes.len(),
{
    if sizes.len() == 0 || c.exhausted {
        0
    } else {
        let arrived = after_page(c, sizes[0]);
        1 + pages_fetched(Cursor { position: arrived.buffered, ..arrived }, sizes.drop_first())
    }
}

/// The number of items that a walk from `c` hands out of the pages `sizes`.
pub open spec fn items_handed_out(c: Cursor, sizes: Seq<nat>) -> nat
    decreases sizes.len(),
{
    if sizes.len() == 0 || c.exhausted {
        0
    } else {
        let arrived = after_page(c, sizes[0]);
        sizes[0] + items_handed_out(
            Cursor { position: arrived.buffered, ..arrived },
            sizes.drop_first(),
        )
    }
}

/// The pages of a collection that a walk with page size `count` sees when
/// the first `full` pages are full and the next one holds `last` items.
pub open spec fn full_pages_then(count: nat, full: nat, last: nat, more: Seq<nat>) -> Seq<nat> {
    Seq::new(full, |i: int| count) + seq![last] + more
}

/// A walk ends at the first page that is shorter than the page size: after
/// `full` full pages and one page of `last < count` items it has fetched
/// `full + 1` pages, the last of them at the offset `o + full * count`, has
/// handed out `full * count + last` items, and is exhausted, whatever
/// further pages the service might have.
pub proof fn law_walk_ends_at_first_short_page(c: Cursor, full: nat, last: nat, more: Seq<nat>)
    requires
        !c.exhausted,
        c.count >= 1,
        last < c.count,
        c.offset + (full + 1) * c.count <= u64::MAX,
    ensures
        ({
            let sizes = full_pages_then(c.count, full, last, more);
            &&& pages_fetched(c, sizes) == full + 1
            &&& items_handed_out(c, sizes) == full * c.count + last
            &&& after_pages(c, sizes).exhausted
            &&& after_pages(c, sizes).offset == c.offset + full * c.count
            &&& after_pages(c, sizes).count == c.count
        }),
    decreases full,
{
    let sizes = full_pages_then(c.count, full, last, more);
    let arrived = after_page(c, sizes[0]);
    let next = Cursor { position: arrived.buffered, ..arrived };
    let rest = sizes.drop_first();
    if full == 0 {
        assert(sizes[0] == last);
        assert(next.exhausted);
        assert(pages_fetched(next, rest) == 0);
        assert(items_handed_out(next, rest) == 0);
        assert(after_pages(next, rest) == next);
        assert(full * c.count == 0) by (nonlinear_arith)
            requires
                full == 0,
        ;
    } else {
        assert(sizes[0] == c.count);
        assert((full + 1) * c.count == full * c.count + c.count) by (nonlinear_arith);
        assert(full * c.count == (full - 1) * c.count + c.count) by (nonlinear_arith);
        assert((full - 1) * c.count >= 0) by (nonlinear_arith)
            requires
                full >= 1,
                c.count >= 1,
        ;
        assert(!next.exhausted);
        assert(next.offset == c.offset + c.count);
        assert(rest =~= full_pages_then(c.count, (full - 1) as nat, last, more));
        law_walk_ends_at_first_short_page(next, (full - 1) as nat, last, more);
    }
}

/// A walk whose pages come with `count`, `count` and `count - 1` items
/// fetches exactly three pages, at the offsets `o`, `o + count` and
/// `o + 2 * count`, hands out `3 * count - 1` items, and is exhausted then:
/// whatever further pages the service might have, none is fetched.
pub proof fn law_three_pages(c: Cursor, more: Seq<nat>)
    requires
        !c.exhausted,
        c.count >= 1,
        c.offset + 3 * c.count <= u64::MAX,
    ensures
        ({
            let sizes = seq![c.count, c.count, (c.count - 1) as nat] + more;
            &&& pages_fetched(c, sizes) == 3
            &&& items_handed_out(c, sizes) == 3 * c.count - 1
            &&& after_pages(c, sizes).exhausted
            &&& after_page(c, c.count).offset == c.offset + c.count
            &&& after_page(after_page(c, c.count), c.count).offset == c.offset + 2 * c.count
            &&& after_pages(c, sizes).offset == c.offset + 2 * c.count
        }),
{
    let sizes = seq![c.count, c.count, (c.count - 1) as nat] + more;
    let a1 = after_page(c, sizes[0]);
    let c1 = Cursor { position: a1.buffered, ..a1 };
    let s1 = sizes.drop_first();
    assert(s1[0] == c.count);
    let a2 = after_page(c1, s1[0]);
    let c2 = Cursor { position: a2.buffered, ..a2 };
    let s2 = s1.drop_first();
    assert(s2[0] == c.count - 1);
    let a3 = after_page(c2, s2[0]);
    let c3 = Cursor { position: a3.buffered, ..a3 };
    let s3 = s2.drop_first();
    assert(c3.exhausted);
    assert(pages_fetched(c3, s3) == 0);
    assert(items_handed_out(c3, s3) == 0);
    assert(after_pages(c3, s3) == c3);
    assert(pages_fetched(c2, s2) == 1);
    assert(items_handed_out(c2, s2) == c.count - 1);
    assert(after_pages(c2, s2) == c3);
    assert(pages_fetched(c1, s1) == 2);
    assert(items_handed_out(c1, s1) == 2 * c.count - 1);
    assert(after_pages(c1, s1) == c3);
    assert(pages_fetched(c, sizes) == 3);
    assert(items_handed_out(c, sizes) == 3 * c.count - 1);
    assert(after_pages(c, sizes) == c3);
}

/// A walk that is exhausted fetches nothing and hands out nothing more,
/// whatever pages the service might have.
pub proof fn law_exhausted_walk_stops(c: Cursor, sizes: Seq<nat>)
    requires
        c.exhausted,
    ensures
        pages_fetched(c, sizes) == 0,
        items_handed_out(c, sizes) == 0,
        after_pages(c, sizes) == c,
{
}

/// A response that is no success and whose body is a well-formed error
/// document gives an error with exactly the title and the detail of the
/// document.
pub proof fn law_error_body_decodes(
    status: u16,
    body: String,
    tree: JsonTree,
    title: Seq<char>,
    detail: Seq<char>,
    r: MailchimpResult<String>,
)
    requires
        !is_success(status),
        body@.len() > 0,
        json_parse(body@) == Some(tree),
        MailchimpErrorType::decodable(tree),
        tree.member("title"@) == Some(JsonTree::Text(title)),
        tree.member("detail"@) == Some(JsonTree::Text(detail)),
        is_outcome_of(Reply::Answered { status, body: Some(body) }, r),
    ensures
        r matches Err(e) && e.title@ == title && e.detail@ == detail,
{
}

/// A response that is no success and whose body is empty, is not JSON or is
/// no error document gives the fallback error.
pub proof fn law_malformed_error_body(status: u16, body: String, r: MailchimpResult<String>)
    requires
        !is_success(status),
        body@.len() == 0 || json_parse(body@) is None || !MailchimpErrorType::decodable(
            json_parse(body@)->0,
        ),
        is_outcome_of(Reply::Answered { status, body: Some(body) }, r),
    ensures
        r matches Err(e) && e.is_fallback(),
{
}

/// An action whose response has an empty body reports success.
pub proof fn law_empty_body_is_success(body: String, r: Option<MailchimpErrorType>)
    requires
        body@.len() == 0,
        is_action_outcome(Ok(body), r),
    ensures
        r is None,
{
}

/// An empty body decodes to the empty record.
pub proof fn law_empty_body_decodes(body: String, r: MailchimpResult<EmptyType>)
    requires
        body@.len() == 0,
        is_decoding_of::<EmptyType>(Ok(body), r),
    ensures
        r is Ok,
{
}

/// A member filter whose parameter `offset` is the numeral of `n` names
/// the offset `n` in its member. So the filter of the next page, whose
/// parameter is the offset moved on by the page size, holds exactly that
/// offset.
pub proof fn law_offset_parameter_is_the_offset(f: ListMembersFilter, n: nat)
    requires
        value_of(f.payload(), "offset"@) == Some(decimal(n)),
    ensures
        f.offset matches Some(v) && v == n,
{
    law_filter_names_page(f, "offset"@);
    reveal_strlit("count");
    reveal_strlit("offset");
    assert("count"@.len() != "offset"@.len());
    lemma_decimal_injective(f.offset->0 as nat, n);
}

/// The parameters of a member filter are its named members and nothing
/// else. They are the members stored in turn, in the order in which the
/// filter lists them, so a named member stands under its own name with its
/// value as it is written, and a member that is not named has no
/// parameter. No name occurs twice, the list has one pair for each named
/// member, and a name that is no member's has no value.
pub proof fn law_filter_parameters(f: ListMembersFilter, name: Seq<char>)
    ensures
        f.payload() == put_each(ParamSeq::empty(), f.stores()),
        distinct_keys(f.payload()),
        f.payload().len() == stored_count(f.stores()),
        forall|i: int|
            0 <= i < 19 ==> value_of(f.payload(), #[trigger] filter_name(i)) == f.written(i),
        (forall|i: int| 0 <= i < 19 ==> name != #[trigger] filter_name(i)) ==> value_of(
            f.payload(),
            name,
        ) is None,
{
    lemma_filter_stores(f);
    lemma_filter_payload_len(f);
    assert forall|i: int| 0 <= i < 19 implies value_of(f.payload(), #[trigger] filter_name(i))
        == f.written(i) by {
        lemma_filter_value(f, i);
    }
    if forall|i: int| 0 <= i < 19 ==> name != #[trigger] filter_name(i) {
        lemma_filter_other_name(f, name);
    }
}

/// The request for a page of list members names the page size and the
/// offset of the filter, in decimal digits, where the filter names them; a
/// filter that names neither asks for the first page in the size that the
/// service chooses.
pub proof fn law_filter_names_page(f: ListMembersFilter, name: Seq<char>)
    requires
        name == "count"@ || name == "offset"@,
    ensures
        distinct_keys(f.payload()),
        value_of(f.payload(), name) == if name == "count"@ {
            match f.count {
                Some(n) => Some(decimal(n as nat)),
                None => None,
            }
        } else {
            match f.offset {
                Some(n) => Some(decimal(n as nat)),
                None => None,
            }
        },
{
    reveal_strlit("count");
    reveal_strlit("offset");
    assert("count"@.len() != "offset"@.len());
    lemma_filter_payload_len(f);
    lemma_filter_value(f, 2);
    lemma_filter_value(f, 3);
}


/// A value that is written as a document is read back from that document as
/// itself: the document is one of the value's type, and it decodes to the
/// value.
pub proof fn law_written_value_reads_back<T: RoundTrip>(value: T)
    requires
        value.writable(),
    ensures
        T::decodable(value.encoding()),
        T::decodes_to(value.encoding(), value),
{
    value.lemma_round_trip();
}

/// Whether a document holds as many items under `key` as `items`, and the
/// total `total`, give or take members that it leaves out.
pub open spec fn page_agrees(tree: JsonTree, key: Seq<char>, items: nat, total: int) -> bool {
    &&& tree.member(key) is Some ==> tree.member(key)->0.element_count() == Some(items)
    &&& tree.member("total_items"@) is Some ==> tree.member("total_items"@)->0
        == JsonTree::Integer(total)
}

/// Whether a document holds exactly `items` items under `key` and the total
/// `total`.
pub open spec fn page_holds(tree: JsonTree, key: Seq<char>, items: nat, total: int) -> bool {
    &&& tree.member(key) is Some
    &&& tree.member(key)->0.element_count() == Some(items)
    &&& tree.member("total_items"@) == Some(JsonTree::Integer(total))
}

/// A page of authorized applications that was decoded from a document and is
/// written again has as many applications and the same total as the
/// document had.
pub proof fn law_apps_page_round_trip(tree: JsonTree, page: AuthorizedAppsType)
    requires
        AuthorizedAppsType::decodable(tree),
        AuthorizedAppsType::decodes_to(tree, page),
    ensures
        page_agrees(tree, "apps"@, page.apps@.len(), page.total_items as int),
        page_holds(page.encoding(), "apps"@, page.apps@.len(), page.total_items as int),
{
    reveal_strlit("apps");
    reveal_strlit("total_items");
    reveal_strlit("_links");
    assert("apps"@.len() == 4 && "total_items"@.len() == 11 && "_links"@.len() == 6);
}

/// A page of automations that was decoded from a document and is written
/// again has as many automations and the same total as the document had.
pub proof fn law_automations_page_round_trip(tree: JsonTree, page: AutomationsType)
    requires
        AutomationsType::decodable(tree),
        AutomationsType::decodes_to(tree, page),
    ensures
        page_agrees(tree, "automations"@, page.automations@.len(), page.total_items as int),
        page_holds(
            page.encoding(),
            "automations"@,
            page.automations@.len(),
            page.total_items as int,
        ),
{
    reveal_strlit("automations");
    reveal_strlit("total_items");
    reveal_strlit("_links");
    assert("automations"@[0] != "total_items"@[0]);
    assert("total_items"@.len() == 11 && "_links"@.len() == 6);
}

/// A page of workflow emails that was decoded from a document and is written
/// again has as many emails and the same total as the document had.
pub proof fn law_emails_page_round_trip(tree: JsonTree, page: WorkflowEmailsType)
    requires
        WorkflowEmailsType::decodable(tree),
        WorkflowEmailsType::decodes_to(tree, page),
    ensures
        page_agrees(tree, "emails"@, page.emails@.len(), page.total_items as int),
        page_holds(page.encoding(), "emails"@, page.emails@.len(), page.total_items as int),
{
    reveal_strlit("emails");
    reveal_strlit("total_items");
    reveal_strlit("_links");
    assert("emails"@[0] != "_links"@[0]);
    assert("emails"@.len() == 6 && "total_items"@.len() == 11 && "_links"@.len() == 6);
}

/// A page of campaigns that was decoded from a document and is written
/// again has as many campaigns and the same total as the document had.
pub proof fn law_campaigns_page_round_trip<'a, R: HttpReq>(
    tree: JsonTree,
    page: CampaignsType<'a, R>,
)
    requires
        CampaignsType::<R>::decodable(tree),
        CampaignsType::<R>::decodes_to(tree, page),
    ensures
        page_agrees(tree, "campaigns"@, page.campaigns@.len(), page.total_items as int),
        page_holds(
            page.encoding(),
            "campaigns"@,
            page.campaigns@.len(),
            page.total_items as int,
        ),
{
    reveal_strlit("campaigns");
    reveal_strlit("total_items");
    reveal_strlit("_links");
    assert("campaigns"@.len() == 9 && "total_items"@.len() == 11 && "_links"@.len() == 6);
}

/// A page of list members that was decoded from a document and is written
/// again has as many members and the same total as the document had.
pub proof fn law_members_page_round_trip<'a, R: HttpReq>(
    tree: JsonTree,
    page: CollectionListMembers<'a, R>,
)
    requires
        CollectionListMembers::<R>::decodable(tree),
        CollectionListMembers::<R>::decodes_to(tree, page),
    ensures
        page_agrees(tree, "members"@, page.members@.len(), page.total_items as int),
        page_holds(page.encoding(), "members"@, page.members@.len(), page.total_items as int),
{
    reveal_strlit("members");
    reveal_strlit("list_id");
    reveal_strlit("total_items");
    reveal_strlit("_links");
    assert("members"@[0] != "list_id"@[0]);
    assert("members"@.len() == 7 && "list_id"@.len() == 7 && "total_items"@.len() == 11
        && "_links"@.len() == 6);
}

} // verus!
