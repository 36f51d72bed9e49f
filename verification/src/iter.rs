//! Pagination: a lazy, pull-based walk over a resource collection that
//! fetches one page at a time and stops after the first page that is empty
//! or shorter than the page size asked for.

use crate::api::{
    decode_reply, domain_of, header_pairs, is_decoding_of, url_text, version_text, MailchimpApi,
    Request, RequestMethod,
};
use crate::codec::FromJson;
use crate::error_type::MailchimpErrorType;
use crate::params::{
    agree_but, lemma_agree_same, lemma_agree_trans, reads_as_written, value_of, ParamSeq,
    Params,
};
use crate::text::decimal;
use crate::request::{HttpReq, MailchimpResult};
use std::collections::VecDeque;
use vstd::prelude::*;

verus! {

/// A filter of a collection: the query parameters of a page request. Every
/// filter has a page size and an offset.
pub trait ResourceFilter {
    /// The parameters that the filter stands for.
    spec fn payload(&self) -> ParamSeq;

    /// The number of items asked for per page.
    spec fn count(&self) -> u64;

    /// The number of items to skip.
    spec fn offset(&self) -> u64;

    /// Builds the query parameters.
    fn build_payload(&self) -> (r: Params)
        ensures
            r@ == self.payload(),
    ;

    /// The number of items asked for per page.
    fn page_size(&self) -> (r: u64)
        ensures
            r == self.count(),
    ;

    /// The number of items to skip.
    fn page_offset(&self) -> (r: u64)
        ensures
            r == self.offset(),
    ;
}

/// One page of a collection.
pub trait MailchimpCollection<T>: Sized {
    /// The number of items in the whole collection, over all pages.
    spec fn total(&self) -> u64;

    /// The items of this page, in order.
    spec fn values(&self) -> Seq<T>;

    /// The number of items in the whole collection, over all pages.
    fn get_total_items(&self) -> (r: u64)
        ensures
            r == self.total(),
    ;

    /// Hands out the items of this page, in order.
    fn get_values(self) -> (r: Vec<T>)
        ensures
            r@ == self.values(),
    ;
}

/// What binds the iterator to one resource: the types of its items, filters
/// and pages, the hook that prepares each item before it is handed out, and
/// the step from one page's filter to the next.
pub trait BuildIter<'a, R: HttpReq> {
    type Item;

    type FilterItem: ResourceFilter;

    type Collection: MailchimpCollection<Self::Item> + FromJson;

    /// Whether `out` is the item that the hook makes of `raw` for a walk
    /// that fetches through `api`.
    spec fn hooked(&self, raw: Self::Item, api: &MailchimpApi<R>, out: Self::Item) -> bool;

    /// Prepares an item of a page for the caller.
    fn update_item(&self, data: Self::Item, api: &'a MailchimpApi<R>) -> (r: Self::Item)
        ensures
            self.hooked(data, api, r),
    ;

    /// The filter of the page after the one that `filter` asks for: the
    /// offset moves on by the page size and is named in the parameters, and
    /// every parameter but `offset` keeps its value.
    fn update_filter_offset(&self, filter: &Self::FilterItem) -> (r: Self::FilterItem)
        requires
            filter.offset() + filter.count() <= u64::MAX,
        ensures
            r.count() == filter.count(),
            r.offset() == filter.offset() + filter.count(),
            agree_but(r.payload(), filter.payload(), "offset"@),
            value_of(r.payload(), "offset"@) == Some(
                decimal((filter.offset() + filter.count()) as nat),
            ),
    ;
}

/// The state of a walk, as far as it decides what happens next.
pub struct Cursor {
    /// The offset of the next page to fetch.
    pub offset: nat,
    /// The page size asked for.
    pub count: nat,
    /// The number of items in the page at hand.
    pub buffered: nat,
    /// How many items of the page at hand have been handed out.
    pub position: nat,
    /// Whether no further page will be fetched.
    pub exhausted: bool,
    /// Whether the walk ended on a failed fetch.
    pub failed: bool,
}

/// Whether a page with `items` items is the last one of a walk that asks for
/// `count` items per page: it is empty, or shorter than asked for.
pub open spec fn is_last_page(count: nat, items: nat) -> bool {
    items == 0 || items < count
}

/// The cursor after a page with `items` items arrived. After a last page
/// the walk is exhausted; otherwise the offset moves on by the page size
/// (and the walk is exhausted too where that offset no longer fits in
/// `u64`).
pub open spec fn after_page(c: Cursor, items: nat) -> Cursor {
    if is_last_page(c.count, items) || c.offset + c.count > u64::MAX {
        Cursor { buffered: items, position: 0, exhausted: true, ..c }
    } else {
        Cursor { offset: c.offset + c.count, buffered: items, position: 0, ..c }
    }
}

/// The cursor after a fetch failed: the walk is over.
pub open spec fn after_error(c: Cursor) -> Cursor {
    Cursor { buffered: 0, position: 0, exhausted: true, failed: true, ..c }
}

/// The cursor after a fetch: `outcome` is the number of items of the page,
/// or `None` where the fetch failed.
pub open spec fn after_fetch(c: Cursor, outcome: Option<nat>) -> Cursor {
    match outcome {
        Some(items) => after_page(c, items),
        None => after_error(c),
    }
}

/// The cursor after one more item of the page at hand was handed out.
pub open spec fn after_yield(c: Cursor) -> Cursor {
    Cursor { position: c.position + 1, ..c }
}

/// Whether a pull that takes the cursor from `before` to `after` and hands
/// out an item (`yielded`) or ends the walk is a step of the walk:
/// - while the page at hand has items left, the next one is handed out and
///   nothing is fetched;
/// - after that, an exhausted walk hands out nothing and stays as it is;
/// - otherwise one page is fetched, and its first item, if it has one, is
///   handed out.
pub open spec fn is_step(before: Cursor, after: Cursor, yielded: bool) -> bool {
    if before.position < before.buffered {
        yielded && after == after_yield(before)
    } else if before.exhausted {
        !yielded && after == before
    } else {
        exists|outcome: Option<nat>|
            {
                let mid = #[trigger] after_fetch(before, outcome);
                if mid.buffered > 0 {
                    yielded && after == after_yield(mid)
                } else {
                    !yielded && after == mid
                }
            }
    }
}

/// Whether a pull from the cursor `c` fetches a page: the page at hand is
/// used up and the walk is not exhausted.
pub open spec fn pull_fetches(c: Cursor) -> bool {
    c.position >= c.buffered && !c.exhausted
}

/// The cursor after one pull from `c`, where the fetch, if the pull makes
/// one, brings `outcome`.
pub open spec fn after_pull(c: Cursor, outcome: Option<nat>) -> Cursor {
    if c.position < c.buffered {
        after_yield(c)
    } else if c.exhausted {
        c
    } else {
        let mid = after_fetch(c, outcome);
        if mid.buffered > 0 {
            after_yield(mid)
        } else {
            mid
        }
    }
}

/// Whether one pull from `c` hands out an item, where the fetch, if the
/// pull makes one, brings `outcome`.
pub open spec fn pull_hands_out(c: Cursor, outcome: Option<nat>) -> bool {
    c.position < c.buffered || (!c.exhausted && after_fetch(c, outcome).buffered > 0)
}

/// A step of the walk is a pull for some outcome of the fetch, and every
/// pull is a step.
pub proof fn lemma_step_is_pull(before: Cursor, after: Cursor, yielded: bool)
    ensures
        is_step(before, after, yielded) <==> exists|outcome: Option<nat>|
            after == #[trigger] after_pull(before, outcome) && yielded == pull_hands_out(
                before,
                outcome,
            ),
{
    if is_step(before, after, yielded) {
        if before.position < before.buffered || before.exhausted {
            assert(after == after_pull(before, None) && yielded == pull_hands_out(before, None));
        } else {
            let outcome = choose|outcome: Option<nat>|
                {
                    let mid = #[trigger] after_fetch(before, outcome);
                    if mid.buffered > 0 {
                        yielded && after == after_yield(mid)
                    } else {
                        !yielded && after == mid
                    }
                };
            assert(after == after_pull(before, outcome) && yielded == pull_hands_out(
                before,
                outcome,
            ));
        }
    }
    if exists|outcome: Option<nat>|
        after == #[trigger] after_pull(before, outcome) && yielded == pull_hands_out(
            before,
            outcome,
        ) {
        let outcome = choose|outcome: Option<nat>|
            after == #[trigger] after_pull(before, outcome) && yielded == pull_hands_out(
                before,
                outcome,
            );
        if before.position >= before.buffered && !before.exhausted {
            let mid = after_fetch(before, outcome);
            assert(if mid.buffered > 0 {
                yielded && after == after_yield(mid)
            } else {
                !yielded && after == mid
            });
        }
    }
}

/// A run of pulls: the cursor it ends in, the outcomes of fetches that it
/// has not used, the number of items that it handed out and the number of
/// fetches that it made.
pub struct Run {
    /// The cursor after the run.
    pub cursor: Cursor,
    /// The outcomes of the fetches that were not made.
    pub left: Seq<Option<nat>>,
    /// The number of items handed out.
    pub handed: nat,
    /// The number of fetches made.
    pub fetched: nat,
}

/// The outcome that the next fetch brings: the first of `pages`, or a
/// failure where there is none.
pub open spec fn next_outcome(pages: Seq<Option<nat>>) -> Option<nat> {
    if pages.len() > 0 {
        pages[0]
    } else {
        None
    }
}

/// What `n` pulls make of a walk at the cursor `c` whose fetches bring the
/// outcomes `pages`, in order: each pull is [`after_pull`], and a pull that
/// fetches takes the next outcome.
pub open spec fn after_pulls(c: Cursor, pages: Seq<Option<nat>>, n: nat) -> Run
    decreases n,
{
    if n == 0 {
        Run { cursor: c, left: pages, handed: 0, fetched: 0 }
    } else {
        let outcome = next_outcome(pages);
        let rest = if pull_fetches(c) && pages.len() > 0 {
            pages.drop_first()
        } else {
            pages
        };
        let later = after_pulls(after_pull(c, outcome), rest, (n - 1) as nat);
        Run {
            handed: later.handed + if pull_hands_out(c, outcome) {
                1nat
            } else {
                0nat
            },
            fetched: later.fetched + if pull_fetches(c) {
                1nat
            } else {
                0nat
            },
            ..later
        }
    }
}

/// A run of `a + b` pulls is a run of `a` pulls followed by a run of `b`.
pub proof fn lemma_pulls_add(c: Cursor, pages: Seq<Option<nat>>, a: nat, b: nat)
    ensures
        ({
            let first = after_pulls(c, pages, a);
            let second = after_pulls(first.cursor, first.left, b);
            after_pulls(c, pages, a + b) == (Run {
                handed: first.handed + second.handed,
                fetched: first.fetched + second.fetched,
                ..second
            })
        }),
    decreases a,
{
    if a > 0 {
        let outcome = next_outcome(pages);
        let rest = if pull_fetches(c) && pages.len() > 0 {
            pages.drop_first()
        } else {
            pages
        };
        lemma_pulls_add(after_pull(c, outcome), rest, (a - 1) as nat, b);
        assert(((a + b) - 1) as nat == (a - 1) as nat + b);
    }
}

/// While the page at hand has items left, every pull hands one out and
/// fetches nothing.
pub proof fn lemma_pulls_within_page(c: Cursor, pages: Seq<Option<nat>>, k: nat)
    requires
        c.position + k <= c.buffered,
    ensures
        after_pulls(c, pages, k) == (Run {
            cursor: Cursor { position: c.position + k, ..c },
            left: pages,
            handed: k,
            fetched: 0,
        }),
    decreases k,
{
    if k > 0 {
        lemma_pulls_within_page(after_pull(c, next_outcome(pages)), pages, (k - 1) as nat);
    }
}

/// A fetch that brings a page of `n >= 1` items is followed by `n` pulls
/// that hand out the page: the first of them makes the fetch.
pub proof fn lemma_pulls_through_page(c: Cursor, pages: Seq<Option<nat>>, n: nat)
    requires
        pull_fetches(c),
        pages.len() > 0,
        pages[0] == Some(n),
        n >= 1,
    ensures
        after_pulls(c, pages, n) == (Run {
            cursor: Cursor { position: n, ..after_page(c, n) },
            left: pages.drop_first(),
            handed: n,
            fetched: 1,
        }),
{
    let first = after_pull(c, Some(n));
    lemma_pulls_within_page(first, pages.drop_first(), (n - 1) as nat);
}

/// A walk that is over stays over: no pull hands out an item or makes a
/// fetch.
pub proof fn lemma_pulls_after_the_end(c: Cursor, pages: Seq<Option<nat>>, m: nat)
    requires
        c.exhausted,
        c.position >= c.buffered,
    ensures
        after_pulls(c, pages, m) == (Run { cursor: c, left: pages, handed: 0, fetched: 0 }),
    decreases m,
{
    if m > 0 {
        lemma_pulls_after_the_end(c, pages, (m - 1) as nat);
    }
}

/// A run that found an outcome for each of its fetches is the same run when
/// further outcomes stand behind those it was given; they are left over.
pub proof fn lemma_pulls_with_more_pages(
    c: Cursor,
    pages: Seq<Option<nat>>,
    more: Seq<Option<nat>>,
    n: nat,
)
    requires
        after_pulls(c, pages, n).fetched + after_pulls(c, pages, n).left.len() == pages.len(),
    ensures
        after_pulls(c, pages + more, n) == (Run {
            left: after_pulls(c, pages, n).left + more,
            ..after_pulls(c, pages, n)
        }),
    decreases n,
{
    if n > 0 {
        let outcome = next_outcome(pages);
        let rest = if pull_fetches(c) && pages.len() > 0 {
            pages.drop_first()
        } else {
            pages
        };
        let later = after_pulls(after_pull(c, outcome), rest, (n - 1) as nat);
        lemma_pulls_leave_behind(after_pull(c, outcome), rest, (n - 1) as nat);
        if pull_fetches(c) {
            assert(pages.len() > 0);
            assert((pages + more).drop_first() =~= pages.drop_first() + more);
            assert((pages + more)[0] == pages[0]);
        } else {
            assert(after_pull(c, next_outcome(pages + more)) == after_pull(c, outcome));
            assert(pull_hands_out(c, next_outcome(pages + more)) == pull_hands_out(c, outcome));
        }
        lemma_pulls_with_more_pages(after_pull(c, outcome), rest, more, (n - 1) as nat);
    } else {
        assert(pages + more =~= pages + more);
    }
}

/// A run leaves behind no more outcomes than it was given, and makes at
/// least as many fetches as it took outcomes.
pub proof fn lemma_pulls_leave_behind(c: Cursor, pages: Seq<Option<nat>>, n: nat)
    ensures
        after_pulls(c, pages, n).fetched + after_pulls(c, pages, n).left.len() >= pages.len(),
        after_pulls(c, pages, n).left.len() <= pages.len(),
    decreases n,
{
    if n > 0 {
        let outcome = next_outcome(pages);
        let rest = if pull_fetches(c) && pages.len() > 0 {
            pages.drop_first()
        } else {
            pages
        };
        lemma_pulls_leave_behind(after_pull(c, outcome), rest, (n - 1) as nat);
    }
}

/// Moves the items of a page into a queue, first item first.
fn queue_of<T>(items: Vec<T>) -> (r: VecDeque<T>)
    ensures
        r@ == items@,
{
    let mut rest = items;
    let mut queue: VecDeque<T> = VecDeque::new();
    while rest.len() > 0
        invariant
            rest@ + queue@ == items@,
        decreases rest.len(),
    {
        let ghost before_rest = rest@;
        let ghost before_queue = queue@;
        match rest.pop() {
            Some(x) => {
                queue.push_front(x);
                assert(rest@ + queue@ =~= before_rest + before_queue);
            },
            None => {},
        }
    }
    assert(queue@ =~= rest@ + queue@);
    queue
}

/// A walk over the collection at one endpoint.
pub struct MalchimpIter<'a, B: BuildIter<'a, R>, R: HttpReq> {
    builder: B,
    data: VecDeque<B::Item>,
    handed: Ghost<nat>,
    cur_filters: B::FilterItem,
    total_items: u64,
    api: &'a MailchimpApi<R>,
    endpoint: String,
    exhausted: bool,
    failure: Option<MailchimpErrorType>,
}

impl<'a, B: BuildIter<'a, R>, R: HttpReq> MalchimpIter<'a, B, R> {
    /// The filter of the next page to fetch.
    pub closed spec fn filter(&self) -> B::FilterItem {
        self.cur_filters
    }

    /// The endpoint of the collection.
    pub closed spec fn target(&self) -> Seq<char> {
        self.endpoint@
    }

    /// The client that the walk fetches through.
    pub closed spec fn client(&self) -> MailchimpApi<R> {
        *self.api
    }

    /// The items of the page at hand that have not been handed out yet, as
    /// they arrived.
    pub closed spec fn pending(&self) -> Seq<B::Item> {
        self.data@
    }

    /// The hook that prepares the items.
    pub closed spec fn hook(&self) -> B {
        self.builder
    }

    /// The number of items of the page at hand that have been handed out.
    pub closed spec fn handed_out(&self) -> nat {
        self.handed@
    }

    /// Whether no further page will be fetched.
    pub closed spec fn exhausted(&self) -> bool {
        self.exhausted
    }

    /// The error that ended the walk, where a failed fetch ended it.
    pub closed spec fn failed_with(&self) -> Option<MailchimpErrorType> {
        self.failure
    }

    /// The number of items in the whole collection, as the last page that
    /// arrived reported it; zero before the first page.
    pub closed spec fn reported_total(&self) -> u64 {
        self.total_items
    }

    /// The cursor of the walk.
    pub open spec fn cursor(&self) -> Cursor {
        Cursor {
            offset: self.filter().offset() as nat,
            count: self.filter().count() as nat,
            buffered: self.handed_out() + self.pending().len(),
            position: self.handed_out(),
            exhausted: self.exhausted(),
            failed: self.failed_with() is Some,
        }
    }

    /// Whether `reply` is an answer of the client's transport to the request
    /// for the next page: `GET` on the endpoint of the collection, with the
    /// parameters of the filter as the query string.
    pub open spec fn is_page_reply(&self, reply: MailchimpResult<String>) -> bool {
        self.client().answers_query(
            RequestMethod::Get,
            self.target(),
            self.filter().payload(),
            reply,
        )
    }

    /// Whether the filter of `after` asks for what follows a page of `items`
    /// items that the walk `self` fetched: after a last page, and where the
    /// next offset no longer fits in `u64`, the filter stays as it is;
    /// otherwise its parameter `offset` is the offset moved on by the page
    /// size, in decimal digits.
    pub open spec fn asks_on(&self, after: &Self, items: nat) -> bool {
        if is_last_page(self.cursor().count, items) || self.cursor().offset + self.cursor().count
            > u64::MAX {
            after.filter() == self.filter()
        } else {
            value_of(after.filter().payload(), "offset"@) == Some(
                decimal(self.cursor().offset + self.cursor().count),
            )
        }
    }

    /// Whether `after` is the walk that `self` becomes when the fetch of its
    /// next page brings `got`: a page becomes the page at hand, with all its
    /// items left to hand out, and moves the cursor on; an error ends the
    /// walk and is kept. The filter keeps every parameter but `offset`.
    pub open spec fn is_fetched(&self, got: MailchimpResult<B::Collection>, after: &Self) -> bool {
        &&& after.hook() == self.hook()
        &&& after.target() == self.target()
        &&& after.client() == self.client()
        &&& agree_but(after.filter().payload(), self.filter().payload(), "offset"@)
        &&& match got {
            Ok(page) => {
                &&& after.pending() == page.values()
                &&& after.reported_total() == page.total()
                &&& after.failed_with() == self.failed_with()
                &&& after.cursor() == after_page(self.cursor(), page.values().len())
                &&& self.asks_on(after, page.values().len())
            },
            Err(e) => {
                &&& after.pending().len() == 0
                &&& after.reported_total() == self.reported_total()
                &&& after.failed_with() == Some(e)
                &&& after.cursor() == after_error(self.cursor())
                &&& after.filter() == self.filter()
            },
        }
    }

    /// Whether `after` and `r` are what a pull makes of the walk `self`
    /// when it has to fetch and the fetch brings `got`: the first item of
    /// the page is handed out as the hook prepares it and the rest of the
    /// page is left; an empty page and an error hand out nothing.
    pub open spec fn is_pull(
        &self,
        got: MailchimpResult<B::Collection>,
        after: &Self,
        r: Option<B::Item>,
    ) -> bool {
        &&& after.hook() == self.hook()
        &&& after.target() == self.target()
        &&& after.client() == self.client()
        &&& agree_but(after.filter().payload(), self.filter().payload(), "offset"@)
        &&& match got {
            Ok(page) => {
                let arrived = after_page(self.cursor(), page.values().len());
                &&& after.reported_total() == page.total()
                &&& after.failed_with() == self.failed_with()
                &&& self.asks_on(after, page.values().len())
                &&& if page.values().len() > 0 {
                    &&& r is Some
                    &&& self.hook().hooked(page.values()[0], &self.client(), r->0)
                    &&& after.pending() == page.values().drop_first()
                    &&& after.cursor() == after_yield(arrived)
                } else {
                    &&& r is None
                    &&& after.pending().len() == 0
                    &&& after.cursor() == arrived
                }
            },
            Err(e) => {
                &&& r is None
                &&& after.pending().len() == 0
                &&& after.reported_total() == self.reported_total()
                &&& after.failed_with() == Some(e)
                &&& after.cursor() == after_error(self.cursor())
                &&& after.filter() == self.filter()
            },
        }
    }

    /// Whether `after` and `r` are what one pull makes of the walk `self`:
    /// - while the page at hand has items left, the first of them is handed
    ///   out as the hook prepares it, and nothing else changes;
    /// - after that, a walk that is exhausted hands out nothing and stays as
    ///   it is;
    /// - otherwise the next page is asked of the transport, and the pull is
    ///   what [`MalchimpIter::is_pull`] says for what the reply decodes to.
    #[verifier::opaque]
    pub open spec fn is_next(&self, after: &Self, r: Option<B::Item>) -> bool {
        &&& is_step(self.cursor(), after.cursor(), r is Some)
        &&& self.pending().len() > 0 ==> {
            &&& r is Some
            &&& self.hook().hooked(self.pending()[0], &self.client(), r->0)
            &&& after.pending() == self.pending().drop_first()
            &&& after.cursor() == after_yield(self.cursor())
            &&& after.reported_total() == self.reported_total()
            &&& after.failed_with() == self.failed_with()
            &&& after.hook() == self.hook()
            &&& after.target() == self.target()
            &&& after.client() == self.client()
            &&& after.filter() == self.filter()
        }
        &&& self.pending().len() == 0 && self.exhausted() ==> {
            &&& r is None
            &&& after.cursor() == self.cursor()
            &&& after.pending() == self.pending()
            &&& after.reported_total() == self.reported_total()
            &&& after.failed_with() == self.failed_with()
            &&& after.hook() == self.hook()
            &&& after.target() == self.target()
            &&& after.client() == self.client()
            &&& after.filter() == self.filter()
        }
        &&& self.pending().len() == 0 && !self.exhausted() ==> exists|
            reply: MailchimpResult<String>,
            got: MailchimpResult<B::Collection>,
        |
            #[trigger] is_decoding_of::<B::Collection>(reply, got) && self.is_pull(got, after, r)
                && self.is_page_reply(reply)
    }

    /// Whether `states` are the walks that a run of pulls from `start` goes
    /// through, one after each pull, and `items` are what the pulls handed
    /// out: every pull of the run hands out an item.
    pub open spec fn is_run(start: Self, states: Seq<Self>, items: Seq<B::Item>) -> bool {
        &&& states.len() == items.len() + 1
        &&& states[0] == start
        &&& forall|i: int|
            0 <= i < items.len() ==> (#[trigger] states[i]).is_next(
                &states[i + 1],
                Some(items[i]),
            )
    }

    /// Whether a run that went through `states` and handed out `handed`
    /// items ends in `after` under the limit `limit`: either the limit is
    /// reached, or one more pull was made and handed out nothing.
    pub open spec fn ends_run(states: Seq<Self>, after: &Self, handed: nat, limit: nat) -> bool {
        &&& handed <= limit
        &&& if handed < limit {
            states.last().is_next(after, None)
        } else {
            states.last() == *after
        }
    }

    /// Whether `items` begin with the page that the first fetch of a run
    /// brought: after an error nothing is handed out and the error is kept;
    /// the items of a page are handed out first, in their order, each as the
    /// hook prepares it, all of them or as many as the limit allows.
    pub open spec fn begins_with_page(
        &self,
        got: MailchimpResult<B::Collection>,
        after: &Self,
        items: Seq<B::Item>,
        limit: nat,
    ) -> bool {
        match got {
            Err(e) => items.len() == 0 && after.failed_with() == Some(e),
            Ok(page) => {
                &&& items.len() >= page.values().len() || items.len() >= limit
                &&& forall|i: int|
                    0 <= i < page.values().len() && i < items.len() ==> self.hook().hooked(
                        #[trigger] page.values()[i],
                        &self.client(),
                        items[i],
                    )
            },
        }
    }

    /// Whether the transport answers the request for the next page of the
    /// walk with a page of `n` items: every reply that it gives to that
    /// request decodes to such a page.
    pub open spec fn page_has(&self, n: nat) -> bool {
        forall|reply: MailchimpResult<String>, got: MailchimpResult<B::Collection>|
            #[trigger] is_decoding_of::<B::Collection>(reply, got) && self.is_page_reply(reply)
                ==> got is Ok && got->Ok_0.values().len() == n
    }

    /// Whether `items` begin with a page of `n` items that the transport
    /// gave in answer to the request for the next page of the walk: the
    /// items of the page in their order, each as the hook prepares it.
    #[verifier::opaque]
    pub open spec fn hands_out_page(&self, items: Seq<B::Item>, n: nat) -> bool {
        exists|reply: MailchimpResult<String>, got: MailchimpResult<B::Collection>|
            {
                &&& #[trigger] is_decoding_of::<B::Collection>(reply, got)
                &&& self.is_page_reply(reply)
                &&& got is Ok
                &&& got->Ok_0.values().len() == n
                &&& items.len() >= n
                &&& forall|j: int|
                    0 <= j < n ==> self.hook().hooked(
                        #[trigger] got->Ok_0.values()[j],
                        &self.client(),
                        items[j],
                    )
            }
    }

    /// A pull is a step of the cursor, and a pull that hands out nothing
    /// leaves the walk over.
    pub proof fn lemma_next_is_step(&self, after: &Self, r: Option<B::Item>)
        requires
            self.is_next(after, r),
        ensures
            is_step(self.cursor(), after.cursor(), r is Some),
            r is None ==> after.cursor().exhausted && after.cursor().position
                >= after.cursor().buffered,
    {
        reveal(MalchimpIter::is_next);
    }

    /// A pull leaves the walk the walk: hook, endpoint and client stay, and
    /// the filter keeps every parameter but `offset`.
    pub proof fn lemma_next_keeps(&self, after: &Self, r: Option<B::Item>)
        requires
            self.is_next(after, r),
        ensures
            after.hook() == self.hook(),
            after.target() == self.target(),
            after.client() == self.client(),
            agree_but(after.filter().payload(), self.filter().payload(), "offset"@),
    {
        reveal(MalchimpIter::is_next);
        lemma_agree_same(self.filter().payload(), "offset"@);
        if self.pending().len() == 0 && !self.exhausted() {
            let (reply, got) = choose|
                reply: MailchimpResult<String>,
                got: MailchimpResult<B::Collection>,
            |
                #[trigger] is_decoding_of::<B::Collection>(reply, got) && self.is_pull(
                    got,
                    after,
                    r,
                ) && self.is_page_reply(reply);
            assert(self.is_pull(got, after, r));
        }
    }

    /// Every walk of a run is the walk that the run began with: hook,
    /// endpoint and client stay, and the filter keeps every parameter but
    /// `offset`.
    pub proof fn lemma_run_keeps(start: Self, states: Seq<Self>, items: Seq<B::Item>, k: int)
        requires
            Self::is_run(start, states, items),
            0 <= k <= items.len(),
        ensures
            states[k].hook() == start.hook(),
            states[k].target() == start.target(),
            states[k].client() == start.client(),
            agree_but(states[k].filter().payload(), start.filter().payload(), "offset"@),
        decreases k,
    {
        if k == 0 {
            lemma_agree_same(start.filter().payload(), "offset"@);
        } else {
            Self::lemma_run_keeps(start, states, items, k - 1);
            let before = states[k - 1];
            assert(before.is_next(&states[k - 1 + 1], Some(items[k - 1])));
            before.lemma_next_keeps(&states[k], Some(items[k - 1]));
            lemma_agree_trans(
                states[k].filter().payload(),
                before.filter().payload(),
                start.filter().payload(),
                "offset"@,
            );
        }
    }

    /// A run hands out the items that were left of the page at hand first,
    /// in their order, each as the hook prepares it.
    pub proof fn lemma_run_pending(start: Self, states: Seq<Self>, items: Seq<B::Item>, k: int)
        requires
            Self::is_run(start, states, items),
            0 <= k <= items.len(),
            k <= start.pending().len(),
        ensures
            states[k].pending() == start.pending().skip(k),
            forall|j: int|
                0 <= j < k ==> start.hook().hooked(
                    #[trigger] start.pending()[j],
                    &start.client(),
                    items[j],
                ),
        decreases k,
    {
        if k == 0 {
            assert(start.pending().skip(0) =~= start.pending());
        } else {
            Self::lemma_run_pending(start, states, items, k - 1);
            Self::lemma_run_keeps(start, states, items, k - 1);
            let before = states[k - 1];
            assert(before.is_next(&states[k - 1 + 1], Some(items[k - 1])));
            reveal(MalchimpIter::is_next);
            assert(before.pending().len() > 0);
            assert(before.pending()[0] == start.pending()[k - 1]);
            assert(states[k].pending() =~= start.pending().skip(k));
        }
    }

    /// What follows the first pull of a run is a run.
    pub proof fn lemma_run_tail(start: Self, states: Seq<Self>, items: Seq<B::Item>)
        requires
            Self::is_run(start, states, items),
            items.len() > 0,
        ensures
            Self::is_run(states[1], states.skip(1), items.skip(1)),
    {
        let later = states.skip(1);
        let rest = items.skip(1);
        assert forall|i: int| 0 <= i < rest.len() implies (#[trigger] later[i]).is_next(
            &later[i + 1],
            Some(rest[i]),
        ) by {
            assert(states[i + 1].is_next(&states[i + 1 + 1], Some(items[i + 1])));
        }
    }

    /// A run that meets its end hands out at least as many items as were
    /// left of the page at hand, as far as the limit allows.
    pub proof fn lemma_run_takes_pending(
        start: Self,
        states: Seq<Self>,
        items: Seq<B::Item>,
        after: Self,
        limit: nat,
    )
        requires
            Self::is_run(start, states, items),
            Self::ends_run(states, &after, items.len(), limit),
        ensures
            items.len() >= start.pending().len() || items.len() >= limit,
            forall|i: int|
                0 <= i < start.pending().len() && i < items.len() ==> start.hook().hooked(
                    #[trigger] start.pending()[i],
                    &start.client(),
                    items[i],
                ),
    {
        let m: int = if items.len() <= start.pending().len() {
            items.len() as int
        } else {
            start.pending().len() as int
        };
        Self::lemma_run_pending(start, states, items, m);
        reveal(MalchimpIter::is_next);
        if items.len() < limit && items.len() < start.pending().len() {
            assert(states.last() == states[m]);
            assert(states[m].pending().len() > 0);
        }
    }

    /// A run that begins with a fetch asks the transport for the page and
    /// begins with what the reply decodes to.
    pub proof fn lemma_run_begins_with_page(
        start: Self,
        states: Seq<Self>,
        items: Seq<B::Item>,
        after: Self,
        limit: nat,
    )
        requires
            Self::is_run(start, states, items),
            Self::ends_run(states, &after, items.len(), limit),
            limit > 0,
            start.pending().len() == 0,
            !start.exhausted(),
        ensures
            exists|reply: MailchimpResult<String>, got: MailchimpResult<B::Collection>|
                #[trigger] is_decoding_of::<B::Collection>(reply, got) && start.is_page_reply(
                    reply,
                ) && start.begins_with_page(got, &after, items, limit),
    {
        reveal(MalchimpIter::is_next);
        if items.len() == 0 {
            assert(states.last() == start);
            let (reply, got) = choose|
                reply: MailchimpResult<String>,
                got: MailchimpResult<B::Collection>,
            |
                #[trigger] is_decoding_of::<B::Collection>(reply, got) && start.is_pull(
                    got,
                    &after,
                    None,
                ) && start.is_page_reply(reply);
            assert(start.begins_with_page(got, &after, items, limit));
        } else {
            let second = states[1];
            assert(states[0].is_next(&states[0int + 1], Some(items[0])));
            let (reply, got) = choose|
                reply: MailchimpResult<String>,
                got: MailchimpResult<B::Collection>,
            |
                #[trigger] is_decoding_of::<B::Collection>(reply, got) && start.is_pull(
                    got,
                    &second,
                    Some(items[0]),
                ) && start.is_page_reply(reply);
            assert(got is Ok);
            let page = got->Ok_0;
            start.lemma_next_keeps(&second, Some(items[0]));
            Self::lemma_run_tail(start, states, items);
            let later = states.skip(1);
            let rest = items.skip(1);
            assert(later.last() == states.last());
            Self::lemma_run_takes_pending(second, later, rest, after, (limit - 1) as nat);
            assert forall|i: int| 0 <= i < page.values().len() && i < items.len() implies start.hook().hooked(
                #[trigger] page.values()[i],
                &start.client(),
                items[i],
            ) by {
                if i > 0 {
                    assert(second.pending()[i - 1] == page.values()[i]);
                    assert(rest[i - 1] == items[i]);
                }
            }
            assert(start.begins_with_page(got, &after, items, limit));
        }
    }

    /// What a run that met its end comes to: the walk stays the walk, the
    /// items that were left of the page at hand come first, and a run that
    /// begins with a fetch asks the transport for the page and begins with
    /// its items.
    pub proof fn lemma_run_summary(
        start: Self,
        states: Seq<Self>,
        items: Seq<B::Item>,
        after: Self,
        limit: nat,
    )
        requires
            Self::is_run(start, states, items),
            Self::ends_run(states, &after, items.len(), limit),
        ensures
            after.hook() == start.hook(),
            after.target() == start.target(),
            after.client() == start.client(),
            agree_but(after.filter().payload(), start.filter().payload(), "offset"@),
            items.len() >= start.pending().len() || items.len() >= limit,
            forall|i: int|
                0 <= i < start.pending().len() && i < items.len() ==> start.hook().hooked(
                    #[trigger] start.pending()[i],
                    &start.client(),
                    items[i],
                ),
            limit > 0 && start.pending().len() == 0 && !start.exhausted() ==> exists|
                reply: MailchimpResult<String>,
                got: MailchimpResult<B::Collection>,
            |
                #[trigger] is_decoding_of::<B::Collection>(reply, got) && start.is_page_reply(
                    reply,
                ) && start.begins_with_page(got, &after, items, limit),
    {
        Self::lemma_run_keeps(start, states, items, items.len() as int);
        if items.len() < limit {
            states.last().lemma_next_keeps(&after, None);
            lemma_agree_trans(
                after.filter().payload(),
                states.last().filter().payload(),
                start.filter().payload(),
                "offset"@,
            );
        }
        Self::lemma_run_takes_pending(start, states, items, after, limit);
        if limit > 0 && start.pending().len() == 0 && !start.exhausted() {
            Self::lemma_run_begins_with_page(start, states, items, after, limit);
        }
    }

    /// What follows the first `k` pulls of a run is a run.
    pub proof fn lemma_run_from(start: Self, states: Seq<Self>, items: Seq<B::Item>, k: int)
        requires
            Self::is_run(start, states, items),
            0 <= k <= items.len(),
        ensures
            Self::is_run(states[k], states.skip(k), items.skip(k)),
    {
        let later = states.skip(k);
        let rest = items.skip(k);
        assert forall|i: int| 0 <= i < rest.len() implies (#[trigger] later[i]).is_next(
            &later[i + 1],
            Some(rest[i]),
        ) by {
            assert(states[i + k].is_next(&states[i + k + 1], Some(items[i + k])));
        }
    }

    /// While a run hands out the items that were left of the page at hand,
    /// only the position of the cursor moves, and the filter stays.
    pub proof fn lemma_run_pending_cursor(
        start: Self,
        states: Seq<Self>,
        items: Seq<B::Item>,
        k: int,
    )
        requires
            Self::is_run(start, states, items),
            0 <= k <= items.len(),
            k <= start.pending().len(),
        ensures
            states[k].cursor() == (Cursor {
                position: (start.cursor().position + k) as nat,
                ..start.cursor()
            }),
            states[k].filter() == start.filter(),
        decreases k,
    {
        if k > 0 {
            Self::lemma_run_pending_cursor(start, states, items, k - 1);
            Self::lemma_run_pending(start, states, items, k - 1);
            let before = states[k - 1];
            assert(before.is_next(&states[k - 1 + 1], Some(items[k - 1])));
            reveal(MalchimpIter::is_next);
            assert(before.pending().len() > 0);
        }
    }

    /// A pull that fetches, on a transport that answers with a page of `n`
    /// items: it hands out an item where the page has one, leaves the rest
    /// of the page, and moves the cursor as the page says.
    pub proof fn lemma_pull_of_page(&self, after: &Self, r: Option<B::Item>, n: nat)
        requires
            self.is_next(after, r),
            self.pending().len() == 0,
            !self.exhausted(),
            self.page_has(n),
        ensures
            r is Some <==> n > 0,
            n > 0 ==> after.pending().len() == n - 1 && after.cursor() == after_yield(
                after_page(self.cursor(), n),
            ),
            n == 0 ==> after.pending().len() == 0 && after.cursor() == after_page(
                self.cursor(),
                0,
            ),
            self.asks_on(after, n),
            exists|reply: MailchimpResult<String>, got: MailchimpResult<B::Collection>|
                {
                    &&& #[trigger] is_decoding_of::<B::Collection>(reply, got)
                    &&& self.is_page_reply(reply)
                    &&& got is Ok
                    &&& got->Ok_0.values().len() == n
                    &&& n > 0 ==> r is Some && self.hook().hooked(
                        got->Ok_0.values()[0],
                        &self.client(),
                        r->0,
                    ) && after.pending() == got->Ok_0.values().drop_first()
                },
    {
        reveal(MalchimpIter::is_next);
        let (reply, got) = choose|
            reply: MailchimpResult<String>,
            got: MailchimpResult<B::Collection>,
        |
            #[trigger] is_decoding_of::<B::Collection>(reply, got) && self.is_pull(got, after, r)
                && self.is_page_reply(reply);
        assert(is_decoding_of::<B::Collection>(reply, got) && self.is_page_reply(reply));
        assert(got is Ok && got->Ok_0.values().len() == n);
        assert(self.is_pull(got, after, r));
    }

    /// A run that begins with a fetch, on a transport that answers with a
    /// page of `n` items, and that is long enough: after `n` pulls the page
    /// is used up, and the cursor is where the page has put it.
    pub proof fn lemma_run_through_page(
        start: Self,
        states: Seq<Self>,
        items: Seq<B::Item>,
        n: nat,
    )
        requires
            Self::is_run(start, states, items),
            start.pending().len() == 0,
            !start.exhausted(),
            start.page_has(n),
            1 <= n <= items.len(),
        ensures
            states[n as int].pending().len() == 0,
            states[n as int].cursor() == (Cursor { position: n, ..after_page(start.cursor(), n) }),
            start.asks_on(&states[n as int], n),
            start.hands_out_page(items, n),
    {
        let second = states[1];
        assert(states[0].is_next(&states[0int + 1], Some(items[0])));
        start.lemma_pull_of_page(&second, Some(items[0]), n);
        start.lemma_next_keeps(&second, Some(items[0]));
        Self::lemma_run_tail(start, states, items);
        let later = states.skip(1);
        let rest = items.skip(1);
        Self::lemma_run_pending(second, later, rest, n - 1);
        Self::lemma_run_pending_cursor(second, later, rest, n - 1);
        assert(later[n - 1] == states[n as int]);
        let (reply, got) = choose|
            reply: MailchimpResult<String>,
            got: MailchimpResult<B::Collection>,
        |
            {
                &&& #[trigger] is_decoding_of::<B::Collection>(reply, got)
                &&& start.is_page_reply(reply)
                &&& got is Ok
                &&& got->Ok_0.values().len() == n
                &&& n > 0 ==> start.hook().hooked(
                    got->Ok_0.values()[0],
                    &start.client(),
                    items[0],
                ) && second.pending() == got->Ok_0.values().drop_first()
            };
        reveal(MalchimpIter::hands_out_page);
        let page = got->Ok_0;
        assert forall|j: int| 0 <= j < n implies start.hook().hooked(
            #[trigger] page.values()[j],
            &start.client(),
            items[j],
        ) by {
            if j > 0 {
                assert(second.pending()[j - 1] == page.values()[j]);
                assert(rest[j - 1] == items[j]);
            }
        }
        assert(is_decoding_of::<B::Collection>(reply, got) && start.is_page_reply(reply));
    }

    /// A run that ends by itself and begins with a fetch, on a transport
    /// that answers with a page of `n` items, hands out the whole page; an
    /// empty page ends it at once.
    pub proof fn lemma_run_takes_page(
        start: Self,
        states: Seq<Self>,
        items: Seq<B::Item>,
        after: Self,
        limit: nat,
        n: nat,
    )
        requires
            Self::is_run(start, states, items),
            Self::ends_run(states, &after, items.len(), limit),
            items.len() < limit,
            start.pending().len() == 0,
            !start.exhausted(),
            start.page_has(n),
        ensures
            items.len() >= n,
            n == 0 ==> items.len() == 0 && after.pending().len() == 0 && after.cursor()
                == after_page(start.cursor(), 0),
    {
        if items.len() == 0 {
            assert(states.last() == start);
            start.lemma_pull_of_page(&after, None, n);
        } else {
            let second = states[1];
            assert(states[0].is_next(&states[0int + 1], Some(items[0])));
            start.lemma_pull_of_page(&second, Some(items[0]), n);
            Self::lemma_run_tail(start, states, items);
            let later = states.skip(1);
            let rest = items.skip(1);
            assert(later.last() == states.last());
            Self::lemma_run_takes_pending(second, later, rest, after, (limit - 1) as nat);
        }
    }

    /// A run that ends by itself and begins with a fetch, on a transport
    /// that answers with a page of `n` items, one at least: the run hands
    /// out the whole page, after `n` pulls the page is used up and the
    /// cursor is where the page has put it, and what follows is a run that
    /// ends as the whole run does.
    pub proof fn lemma_run_past_page(
        start: Self,
        states: Seq<Self>,
        items: Seq<B::Item>,
        after: Self,
        limit: nat,
        n: nat,
    )
        requires
            Self::is_run(start, states, items),
            Self::ends_run(states, &after, items.len(), limit),
            items.len() < limit,
            start.pending().len() == 0,
            !start.exhausted(),
            start.page_has(n),
            n >= 1,
        ensures
            items.len() >= n,
            states[n as int].pending().len() == 0,
            states[n as int].cursor() == (Cursor { position: n, ..after_page(start.cursor(), n) }),
            start.asks_on(&states[n as int], n),
            start.hands_out_page(items, n),
            Self::is_run(states[n as int], states.skip(n as int), items.skip(n as int)),
            Self::ends_run(
                states.skip(n as int),
                &after,
                items.skip(n as int).len(),
                (limit - n) as nat,
            ),
    {
        Self::lemma_run_takes_page(start, states, items, after, limit, n);
        Self::lemma_run_through_page(start, states, items, n);
        Self::lemma_run_from(start, states, items, n as int);
        assert(states.skip(n as int).last() == states.last());
    }

    /// A run from a walk that is over hands out nothing and leaves the
    /// walk as it is.
    pub proof fn lemma_run_is_over(
        start: Self,
        states: Seq<Self>,
        items: Seq<B::Item>,
        after: Self,
        limit: nat,
    )
        requires
            Self::is_run(start, states, items),
            Self::ends_run(states, &after, items.len(), limit),
            items.len() < limit,
            start.pending().len() == 0,
            start.exhausted(),
        ensures
            items.len() == 0,
            after.cursor() == start.cursor(),
            after.pending().len() == 0,
    {
        reveal(MalchimpIter::is_next);
        if items.len() > 0 {
            assert(states[0].is_next(&states[0int + 1], Some(items[0])));
        }
        assert(states.last() == start);
    }

    /// Takes a page that was fetched, or the error of the fetch, into the
    /// walk: a page becomes the page at hand and moves the cursor on, an
    /// error ends the walk and is kept.
    pub fn accept(&mut self, got: MailchimpResult<B::Collection>)
        ensures
            old(self).is_fetched(got, final(self)),
            final(self).handed_out() == 0,
    {
        let size = self.cur_filters.page_size();
        let offset = self.cur_filters.page_offset();
        proof {
            lemma_agree_same(self.filter().payload(), "offset"@);
        }
        match got {
            Ok(page) => {
                self.total_items = page.get_total_items();
                let values = page.get_values();
                let items = values.len();
                self.data = queue_of(values);
                self.handed = Ghost(0);
                if items == 0 || (items as u64) < size || size > u64::MAX - offset {
                    self.exhausted = true;
                } else {
                    self.cur_filters = self.builder.update_filter_offset(&self.cur_filters);
                }
            },
            Err(e) => {
                self.data = VecDeque::new();
                self.handed = Ghost(0);
                self.exhausted = true;
                self.failure = Some(e);
            },
        }
    }

    /// A walk over the collection at `endpoint` that starts with the page
    /// that `filter` asks for. Nothing is fetched before the first pull.
    pub fn new(builder: B, api: &'a MailchimpApi<R>, endpoint: &str, filter: B::FilterItem) -> (r:
        Self)
        ensures
            r.hook() == builder,
            r.client() == *api,
            r.target() == endpoint@,
            r.filter() == filter,
            r.pending().len() == 0,
            r.handed_out() == 0,
            !r.exhausted(),
            r.failed_with().is_none(),
            r.reported_total() == 0,
    {
        MalchimpIter {
            builder,
            data: VecDeque::new(),
            handed: Ghost(0),
            cur_filters: filter,
            total_items: 0,
            api,
            endpoint: String::from_str(endpoint),
            exhausted: false,
            failure: None,
        }
    }

    /// The request that fetches the next page: `GET` on the endpoint of the
    /// collection, with the filter as the query string.
    pub fn page_request(&self) -> (r: Request)
        ensures
            r.method == RequestMethod::Get,
            r.url@ == url_text(
                domain_of(self.client().datacenter()),
                version_text(),
                self.target(),
                self.filter().payload(),
            ),
            r.headers@ == header_pairs(self.client().key(), self.client().basic_user().is_none()),
            r.body is None,
            reads_as_written(self.filter().payload()),
    {
        let payload = self.cur_filters.build_payload();
        self.api.inner().query_request(RequestMethod::Get, self.endpoint.as_str(), &payload)
    }

    /// The next item of the collection, or `None` where the walk is over.
    /// A walk is over after its last page, and after a fetch that failed;
    /// once it is over, nothing is fetched any more. Items come in the order
    /// of their page, each as the hook prepared it; the first item of a page
    /// is handed out by the pull that fetched the page.
    pub fn next(&mut self) -> (r: Option<B::Item>)
        ensures
            old(self).is_next(final(self), r),
    {
        proof {
            reveal(MalchimpIter::is_next);
        }
        if self.data.len() == 0 {
            if self.exhausted {
                return None;
            }
            let ghost before = *self;
            self.fetch();
            let ghost mid = *self;
            let r = self.hand_out();
            proof {
                let (reply, got) = choose|
                    reply: MailchimpResult<String>,
                    got: MailchimpResult<B::Collection>,
                |
                    #[trigger] is_decoding_of::<B::Collection>(reply, got) && before.is_fetched(
                        got,
                        &mid,
                    ) && before.is_page_reply(reply);
                assert(before.is_pull(got, &*self, r) && before.is_page_reply(reply));
                let outcome: Option<nat> = match got {
                    Ok(page) => Some(page.values().len()),
                    Err(_) => None,
                };
                assert(mid.cursor() == after_fetch(before.cursor(), outcome));
            }
            r
        } else {
            self.hand_out()
        }
    }

    /// Fetches the page that the filter asks for and moves the cursor on.
    fn fetch(&mut self)
        requires
            old(self).pending().len() == 0,
            !old(self).exhausted(),
        ensures
            final(self).handed_out() == 0,
            exists|reply: MailchimpResult<String>, got: MailchimpResult<B::Collection>|
                #[trigger] is_decoding_of::<B::Collection>(reply, got) && old(self).is_fetched(
                    got,
                    final(self),
                ) && old(self).is_page_reply(reply),
    {
        let reply = self.api.inner().send(self.page_request());
        let ghost seen = reply;
        let response = decode_reply::<B::Collection>(reply);
        let ghost got = response;
        self.accept(response);
        assert(is_decoding_of::<B::Collection>(seen, got) && old(self).is_fetched(got, &*self)
            && old(self).is_page_reply(seen));
    }

    /// Hands out the first of the items that are left, as the hook prepares
    /// it.
    fn hand_out(&mut self) -> (r: Option<B::Item>)
        ensures
            final(self).hook() == old(self).hook(),
            final(self).target() == old(self).target(),
            final(self).client() == old(self).client(),
            final(self).filter() == old(self).filter(),
            final(self).handed_out() == if r is Some {
                old(self).handed_out() + 1
            } else {
                old(self).handed_out()
            },
            final(self).exhausted() == old(self).exhausted(),
            final(self).failed_with() == old(self).failed_with(),
            final(self).reported_total() == old(self).reported_total(),
            r is Some <==> old(self).pending().len() > 0,
            r is Some ==> old(self).hook().hooked(
                    old(self).pending()[0],
                    &old(self).client(),
                    r->0,
                ),
            r is Some ==> final(self).pending() == old(self).pending().drop_first(),
            r is None ==> final(self).pending() == old(self).pending(),
    {
        let ghost left = self.data@;
        match self.data.pop_front() {
            Some(raw) => {
                let item = self.builder.update_item(raw, self.api);
                assert(self.data@ =~= left.drop_first());
                self.handed = Ghost(self.handed@ + 1);
                Some(item)
            },
            None => None,
        }
    }

    /// Pulls up to `limit` times and hands out the items in the order in
    /// which they came; it stops at the first pull that hands out nothing.
    /// What it does is a run of pulls, each of them a pull as
    /// [`MalchimpIter::next`] makes it, that ends at the limit or with a pull
    /// that hands out nothing. So the walk stays the walk; the items that
    /// were left of the page at hand come first; and a run that begins with
    /// a fetch asks the transport for the page and begins with its items.
    /// On the cursor the run is [`after_pulls`] for the outcomes of the
    /// fetches made.
    pub fn take(&mut self, limit: usize) -> (r: Vec<B::Item>)
        ensures
            exists|states: Seq<Self>| #[trigger]
                Self::is_run(*old(self), states, r@) && Self::ends_run(
                    states,
                    final(self),
                    r@.len(),
                    limit as nat,
                ),
            final(self).hook() == old(self).hook(),
            final(self).target() == old(self).target(),
            final(self).client() == old(self).client(),
            agree_but(final(self).filter().payload(), old(self).filter().payload(), "offset"@),
            r@.len() >= old(self).pending().len() || r@.len() >= limit,
            forall|i: int|
                0 <= i < old(self).pending().len() && i < r@.len() ==> old(self).hook().hooked(
                    #[trigger] old(self).pending()[i],
                    &old(self).client(),
                    r@[i],
                ),
            limit > 0 && old(self).pending().len() == 0 && !old(self).exhausted() ==> exists|
                reply: MailchimpResult<String>,
                got: MailchimpResult<B::Collection>,
            |
                #[trigger] is_decoding_of::<B::Collection>(reply, got) && old(self).is_page_reply(
                    reply,
                ) && old(self).begins_with_page(got, final(self), r@, limit as nat),
            exists|pages: Seq<Option<nat>>| #[trigger]
                after_pulls(old(self).cursor(), pages, limit as nat) == (Run {
                    cursor: final(self).cursor(),
                    left: Seq::empty(),
                    handed: r@.len() as nat,
                    fetched: pages.len(),
                }),
    {
        let ghost first = *self;
        let ghost start = self.cursor();
        let ghost mut pages: Seq<Option<nat>> = Seq::empty();
        let ghost mut states: Seq<Self> = seq![*self];
        let mut out: Vec<B::Item> = Vec::new();
        let mut pulled: usize = 0;
        let mut over = false;
        while pulled < limit && !over
            invariant
                pulled <= limit,
                out@.len() <= pulled,
                Self::is_run(first, states, out@),
                !over ==> states.last() == *self && out@.len() == pulled,
                over ==> out@.len() < limit && states.last().is_next(&*self, None),
                over ==> self.cursor().exhausted && self.cursor().position
                    >= self.cursor().buffered,
                after_pulls(start, pages, pulled as nat) == (Run {
                    cursor: self.cursor(),
                    left: Seq::empty(),
                    handed: out@.len() as nat,
                    fetched: pages.len(),
                }),
            decreases limit - pulled + if over { 0int } else { 1int },
        {
            let ghost whole = *self;
            let ghost before = self.cursor();
            let ghost used = pages;
            let ghost gone = states;
            let ghost had = out@;
            let item = self.next();
            proof {
                whole.lemma_next_is_step(&*self, item);
                lemma_step_is_pull(before, self.cursor(), item is Some);
                let outcome = choose|outcome: Option<nat>|
                    self.cursor() == #[trigger] after_pull(before, outcome) && (item is Some)
                        == pull_hands_out(before, outcome);
                let given: Seq<Option<nat>> = if pull_fetches(before) {
                    seq![outcome]
                } else {
                    Seq::empty()
                };
                pages = used + given;
                lemma_pulls_with_more_pages(start, used, given, pulled as nat);
                lemma_pulls_add(start, pages, pulled as nat, 1);
                assert(Seq::<Option<nat>>::empty() + given =~= given);
                if pull_fetches(before) {
                    assert(given.drop_first() =~= Seq::<Option<nat>>::empty());
                } else {
                    assert(after_pull(before, next_outcome(given)) == after_pull(before, outcome));
                    assert(pull_hands_out(before, next_outcome(given)) == pull_hands_out(
                        before,
                        outcome,
                    ));
                }
                assert(after_pulls(self.cursor(), Seq::<Option<nat>>::empty(), 0) == (Run {
                    cursor: self.cursor(),
                    left: Seq::empty(),
                    handed: 0,
                    fetched: 0,
                }));
            }
            pulled = pulled + 1;
            match item {
                Some(x) => {
                    out.push(x);
                    proof {
                        states = gone.push(*self);
                        assert forall|i: int| 0 <= i < out@.len() implies (
                        #[trigger] states[i]).is_next(&states[i + 1], Some(out@[i])) by {
                            if i < had.len() {
                                assert(gone[i].is_next(&gone[i + 1], Some(had[i])));
                            } else {
                                assert(states[i] == whole);
                                assert(states[i + 1] == *self);
                            }
                        }
                    }
                },
                None => {
                    over = true;
                },
            }
        }
        proof {
            if pulled < limit {
                lemma_pulls_after_the_end(self.cursor(), Seq::empty(), (limit - pulled) as nat);
                lemma_pulls_add(start, pages, pulled as nat, (limit - pulled) as nat);
            }
            assert(Self::is_run(first, states, out@) && Self::ends_run(
                states,
                &*self,
                out@.len(),
                limit as nat,
            ));
            Self::lemma_run_summary(first, states, out@, *self, limit as nat);
        }
        out
    }

    /// The number of items in the whole collection, as the last page that
    /// arrived reported it; zero before the first page.
    pub fn total_items(&self) -> (r: u64)
        ensures
            r == self.reported_total(),
    {
        self.total_items
    }

    /// The error that ended the walk, where a failed fetch ended it.
    pub fn failure(&self) -> (r: &Option<MailchimpErrorType>)
        ensures
            *r == self.failed_with(),
    {
        &self.failure
    }
}

} // verus!
