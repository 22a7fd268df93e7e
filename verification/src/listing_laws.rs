//! What holds of every cursor over a listing, proved of the runs of
//! [`crate::listing_model`].
//!
//! A listing is given by the pages that the store still has to hand out, in
//! the order in which it hands them out. Against such a feed the four
//! operations behave as views of one forward-only stream of entries.

use crate::listing_model::{
    accept, advanced, consumed, count_step, fresh, last_step, next_step, nth_step, page_request,
    run_count, run_last, run_next, run_nth, state, unread, CursorState, CursorView, EntryView,
    Outcome, PageView,
};
use vstd::prelude::*;

verus! {

/// The entries of `feed`, page after page.
pub open spec fn listed(feed: Seq<PageView>) -> Seq<EntryView>
    decreases feed.len(),
{
    if feed.len() == 0 {
        Seq::empty()
    } else {
        feed.first().entries + listed(feed.drop_first())
    }
}

/// `feed` holds exactly the pages that `cursor` has yet to fetch: none if
/// the listing has ended, else all up to the one page, the last, that
/// carries no token.
pub open spec fn completes(cursor: CursorView, feed: Seq<PageView>) -> bool {
    if cursor.continuation is End {
        feed.len() == 0
    } else {
        &&& feed.len() > 0
        &&& feed.last().next_token is None
        &&& forall|at: int| 0 <= at < feed.len() - 1 ==> (#[trigger] feed[at]).next_token is Some
    }
}

/// The entries that `cursor` has yet to yield: the unread ones of its
/// page, then those of the pages to come.
pub open spec fn remaining(cursor: CursorView, feed: Seq<PageView>) -> Seq<EntryView> {
    unread(cursor) + listed(feed)
}

/// The cursor and what is left of the feed after `next` was run `times`
/// times.
pub open spec fn after_nexts(cursor: CursorView, feed: Seq<PageView>, times: nat) -> (
    CursorView,
    Seq<PageView>,
)
    decreases times,
{
    if times == 0 {
        (cursor, feed)
    } else {
        let first = run_next(cursor, feed);
        after_nexts(first.cursor, feed.skip(first.fetched as int), (times - 1) as nat)
    }
}

/// Taking in the page that was asked for changes nothing of what is yet to
/// be yielded.
proof fn lemma_accept(cursor: CursorView, feed: Seq<PageView>)
    requires
        completes(cursor, feed),
        state(cursor) is Empty,
    ensures
        feed.len() > 0,
        completes(accept(cursor, feed.first()), feed.drop_first()),
        remaining(accept(cursor, feed.first()), feed.drop_first()) == remaining(cursor, feed),
        unread(accept(cursor, feed.first())) == feed.first().entries,
{
    let taken = accept(cursor, feed.first());
    let rest = feed.drop_first();
    assert(unread(taken) =~= feed.first().entries);
    assert(remaining(taken, rest) =~= remaining(cursor, feed));
    if feed.len() == 1 {
        assert(feed.first() == feed.last());
    } else {
        assert(feed.first() == feed[0]);
        assert(rest.last() == feed.last());
        assert forall|at: int| 0 <= at < rest.len() - 1 implies (#[trigger] rest[at]).next_token
            is Some by {
            assert(rest[at] == feed[at + 1]);
        }
    }
}

/// Skipping one page more.
proof fn lemma_skip_one_more(feed: Seq<PageView>, fetched: nat)
    requires
        feed.len() > 0,
        fetched <= feed.len() - 1,
    ensures
        feed.skip(fetched as int + 1) == feed.drop_first().skip(fetched as int),
{
    assert(feed.skip(fetched as int + 1) =~= feed.drop_first().skip(fetched as int));
}

/// `next` yields the first of the entries that are left and leaves the
/// others, or yields none where none is left: the cursor is then exhausted.
/// It fetches pages only as far as it must to find an entry.
pub proof fn lemma_next(cursor: CursorView, feed: Seq<PageView>)
    requires
        completes(cursor, feed),
    ensures
        ({
            let run = run_next(cursor, feed);
            let rest = feed.skip(run.fetched as int);
            let left = remaining(cursor, feed);
            &&& run.fetched <= feed.len()
            &&& completes(run.cursor, rest)
            &&& left.len() > 0 ==> run.result == Some(Some(left.first())) && remaining(
                run.cursor,
                rest,
            ) == left.drop_first()
            &&& left.len() == 0 ==> run.result == Some(None::<EntryView>) && state(run.cursor)
                is Exhausted && remaining(run.cursor, rest) == left
        }),
    decreases feed.len(),
{
    let left = remaining(cursor, feed);
    match state(cursor) {
        CursorState::Buffered => {
            assert(feed.skip(0) =~= feed);
            assert(unread(advanced(cursor, 1)) =~= unread(cursor).drop_first());
            assert(remaining(advanced(cursor, 1), feed) =~= left.drop_first());
        },
        CursorState::Exhausted => {
            assert(feed.skip(0) =~= feed);
            assert(left =~= Seq::empty());
        },
        CursorState::Empty => {
            lemma_accept(cursor, feed);
            let taken = accept(cursor, feed.first());
            let later = feed.drop_first();
            lemma_next(taken, later);
            lemma_skip_one_more(feed, run_next(taken, later).fetched);
        },
    }
}

/// Draining a listing with `next` yields its entries in the store's order,
/// each once, and after the last of them `None`, however often it is
/// called again.
pub proof fn lemma_drain(cursor: CursorView, feed: Seq<PageView>, times: nat)
    requires
        completes(cursor, feed),
    ensures
        ({
            let now = after_nexts(cursor, feed, times);
            let left = remaining(cursor, feed);
            &&& completes(now.0, now.1)
            &&& times <= left.len() ==> remaining(now.0, now.1) == left.skip(times as int)
            &&& times >= left.len() ==> remaining(now.0, now.1).len() == 0
            &&& times > left.len() ==> state(now.0) is Exhausted
            &&& run_next(now.0, now.1).result == Some(
                if times < left.len() {
                    Some(left[times as int])
                } else {
                    None
                },
            )
        }),
    decreases times,
{
    let left = remaining(cursor, feed);
    lemma_next(cursor, feed);
    if times == 0 {
        assert(left.skip(0) =~= left);
    } else {
        let first = run_next(cursor, feed);
        let rest = feed.skip(first.fetched as int);
        lemma_drain(first.cursor, rest, (times - 1) as nat);
        let now = after_nexts(cursor, feed, times);
        if left.len() > 0 {
            if times <= left.len() {
                assert(left.drop_first().skip(times - 1) =~= left.skip(times as int));
            }
        } else {
            lemma_next(now.0, now.1);
        }
    }
}

/// `nth(n)` yields the entry `n` places after the first that is left and
/// leaves those after it; where no more than `n` are left it yields none
/// and the cursor is exhausted.
pub proof fn lemma_nth(cursor: CursorView, feed: Seq<PageView>, n: nat)
    requires
        completes(cursor, feed),
    ensures
        ({
            let run = run_nth(cursor, feed, n);
            let rest = feed.skip(run.fetched as int);
            let left = remaining(cursor, feed);
            &&& run.fetched <= feed.len()
            &&& completes(run.cursor, rest)
            &&& n < left.len() ==> run.result == Some(Some(left[n as int])) && remaining(
                run.cursor,
                rest,
            ) == left.skip(n as int + 1)
            &&& n >= left.len() ==> run.result == Some(None::<EntryView>) && state(run.cursor)
                is Exhausted && remaining(run.cursor, rest).len() == 0
        }),
    decreases feed.len(),
{
    let left = remaining(cursor, feed);
    let buffered = unread(cursor);
    if n < buffered.len() {
        assert(feed.skip(0) =~= feed);
        assert(unread(advanced(cursor, n + 1)) =~= buffered.skip(n as int + 1));
        assert(remaining(advanced(cursor, n + 1), feed) =~= left.skip(n as int + 1));
    } else if cursor.continuation is End {
        assert(feed.skip(0) =~= feed);
        assert(unread(consumed(cursor)) =~= Seq::empty());
    } else {
        let skipped = consumed(cursor);
        assert(unread(skipped) =~= Seq::empty());
        lemma_accept(skipped, feed);
        let taken = accept(skipped, feed.first());
        let later = feed.drop_first();
        let fewer = (n - buffered.len()) as nat;
        lemma_nth(taken, later, fewer);
        lemma_skip_one_more(feed, run_nth(taken, later, fewer).fetched);
        let ahead = remaining(taken, later);
        assert(ahead == listed(feed));
        assert(left =~= buffered + ahead);
        if n < left.len() {
            assert(left.skip(n as int + 1) =~= ahead.skip(fewer as int + 1));
        }
    }
}

/// `count` yields the number of entries that are left, on top of those
/// counted before, and exhausts the cursor.
pub proof fn lemma_count(cursor: CursorView, feed: Seq<PageView>, counted: nat)
    requires
        completes(cursor, feed),
    ensures
        ({
            let run = run_count(cursor, feed, counted);
            &&& run.result == Some(counted + remaining(cursor, feed).len())
            &&& run.fetched == feed.len()
            &&& state(run.cursor) is Exhausted
        }),
    decreases feed.len(),
{
    let buffered = unread(cursor);
    let skipped = consumed(cursor);
    assert(unread(skipped) =~= Seq::empty());
    if !(cursor.continuation is End) {
        lemma_accept(skipped, feed);
        lemma_count(accept(skipped, feed.first()), feed.drop_first(), counted + buffered.len());
    }
}

/// `last` yields the last of the entries that are left, or the candidate
/// it was given where none is left, and exhausts the cursor.
pub proof fn lemma_last(cursor: CursorView, feed: Seq<PageView>, candidate: Option<EntryView>)
    requires
        completes(cursor, feed),
    ensures
        ({
            let run = run_last(cursor, feed, candidate);
            let left = remaining(cursor, feed);
            &&& run.result == Some(
                if left.len() > 0 {
                    Some(left.last())
                } else {
                    candidate
                },
            )
            &&& run.fetched == feed.len()
            &&& state(run.cursor) is Exhausted
        }),
    decreases feed.len(),
{
    let buffered = unread(cursor);
    let skipped = consumed(cursor);
    assert(unread(skipped) =~= Seq::empty());
    if !(cursor.continuation is End) {
        lemma_accept(skipped, feed);
        let latest = if buffered.len() > 0 {
            Some(buffered.last())
        } else {
            candidate
        };
        lemma_last(accept(skipped, feed.first()), feed.drop_first(), latest);
    }
}

/// `nth(0)` is `next`: same result, same cursor after it, same pages
/// fetched.
pub proof fn lemma_nth_zero_is_next(cursor: CursorView, feed: Seq<PageView>)
    ensures
        run_nth(cursor, feed, 0) == run_next(cursor, feed),
    decreases feed.len(),
{
    if state(cursor) is Empty && feed.len() > 0 {
        lemma_nth_zero_is_next(accept(cursor, feed.first()), feed.drop_first());
    }
}

/// `outcome` after `fetched` more pages were fetched before it.
pub open spec fn later<T>(outcome: Outcome<T>, fetched: nat) -> Outcome<T> {
    Outcome { fetched: outcome.fetched + fetched, ..outcome }
}

/// `nth(n)` for `n > 0` is one `next`, whose result is dropped, and then
/// `nth(n - 1)`.
pub proof fn lemma_nth_after_next(cursor: CursorView, feed: Seq<PageView>, n: nat)
    requires
        completes(cursor, feed),
        n > 0,
    ensures
        ({
            let first = run_next(cursor, feed);
            let rest = feed.skip(first.fetched as int);
            run_nth(cursor, feed, n) == later(
                run_nth(first.cursor, rest, (n - 1) as nat),
                first.fetched,
            )
        }),
    decreases feed.len(),
{
    let buffered = unread(cursor);
    match state(cursor) {
        CursorState::Buffered => {
            assert(feed.skip(0) =~= feed);
            let moved = advanced(cursor, 1);
            assert(unread(moved) =~= buffered.drop_first());
            if n < buffered.len() {
                assert(advanced(moved, n) == advanced(cursor, n + 1));
            } else {
                assert(consumed(moved) == consumed(cursor));
                assert(page_request(moved) == page_request(cursor));
            }
        },
        CursorState::Exhausted => {
            assert(feed.skip(0) =~= feed);
        },
        CursorState::Empty => {
            lemma_accept(cursor, feed);
            let taken = accept(cursor, feed.first());
            let rest = feed.drop_first();
            lemma_next(taken, rest);
            lemma_nth_after_next(taken, rest, n);
            lemma_skip_one_more(feed, run_next(taken, rest).fetched);
        },
    }
}

/// `nth(n)` is `next` called `n + 1` times, of which the last result is
/// kept: same result, same cursor after it, same pages fetched. So `nth`
/// continues where earlier calls of either operation left off, and fetches
/// no page that those calls of `next` would not fetch.
pub proof fn lemma_nth_is_repeated_next(cursor: CursorView, feed: Seq<PageView>, n: nat)
    requires
        completes(cursor, feed),
    ensures
        ({
            let skipped = after_nexts(cursor, feed, n);
            let last = run_next(skipped.0, skipped.1);
            let run = run_nth(cursor, feed, n);
            &&& run.result == last.result
            &&& run.cursor == last.cursor
            &&& feed.skip(run.fetched as int) == skipped.1.skip(last.fetched as int)
        }),
    decreases n,
{
    if n == 0 {
        lemma_nth_zero_is_next(cursor, feed);
    } else {
        let first = run_next(cursor, feed);
        let rest = feed.skip(first.fetched as int);
        lemma_next(cursor, feed);
        lemma_nth_after_next(cursor, feed, n);
        lemma_nth_is_repeated_next(first.cursor, rest, (n - 1) as nat);
        lemma_nth(first.cursor, rest, (n - 1) as nat);
        let inner = run_nth(first.cursor, rest, (n - 1) as nat);
        assert(feed.skip((inner.fetched + first.fetched) as int) =~= rest.skip(
            inner.fetched as int,
        ));
    }
}

/// After `taken` entries were pulled with `next`, `count` yields the number
/// of all entries less `taken`; after all were pulled, and on an exhausted
/// cursor, it yields 0.
pub proof fn lemma_count_after_nexts(cursor: CursorView, feed: Seq<PageView>, taken: nat)
    requires
        completes(cursor, feed),
    ensures
        ({
            let now = after_nexts(cursor, feed, taken);
            let all = remaining(cursor, feed).len();
            run_count(now.0, now.1, 0).result == Some(
                if taken <= all {
                    (all - taken) as nat
                } else {
                    0
                },
            )
        }),
{
    lemma_drain(cursor, feed, taken);
    let now = after_nexts(cursor, feed, taken);
    lemma_count(now.0, now.1, 0);
}

/// `last` yields what the last successful `next` of a full drain yields:
/// the entry at the last place in the store's order.
pub proof fn lemma_last_is_final_next(cursor: CursorView, feed: Seq<PageView>)
    requires
        completes(cursor, feed),
        remaining(cursor, feed).len() > 0,
    ensures
        ({
            let before = after_nexts(cursor, feed, (remaining(cursor, feed).len() - 1) as nat);
            &&& run_last(cursor, feed, None).result == run_next(before.0, before.1).result
            &&& run_last(cursor, feed, None).result == Some(Some(remaining(cursor, feed).last()))
        }),
{
    lemma_last(cursor, feed, None);
    lemma_drain(cursor, feed, (remaining(cursor, feed).len() - 1) as nat);
}

/// A cursor that was just made has yet to yield the whole listing.
pub proof fn lemma_fresh_remaining(
    bucket: Seq<char>,
    prefix: Option<Seq<char>>,
    feed: Seq<PageView>,
)
    ensures
        remaining(fresh(bucket, prefix), feed) == listed(feed),
        state(fresh(bucket, prefix)) is Empty,
{
    assert(remaining(fresh(bucket, prefix), feed) =~= listed(feed));
}

/// No operation and no page changes the bucket or the prefix that a cursor
/// was made with, and every page request carries both.
pub proof fn lemma_prefix_passed_on(
    cursor: CursorView,
    page: PageView,
    n: nat,
    candidate: Option<EntryView>,
)
    ensures
        page_request(cursor).bucket == cursor.bucket,
        page_request(cursor).prefix == cursor.prefix,
        accept(cursor, page).bucket == cursor.bucket,
        accept(cursor, page).prefix == cursor.prefix,
        next_step(cursor).0.bucket == cursor.bucket,
        next_step(cursor).0.prefix == cursor.prefix,
        nth_step(cursor, n).0.bucket == cursor.bucket,
        nth_step(cursor, n).0.prefix == cursor.prefix,
        count_step(cursor, n).0.bucket == cursor.bucket,
        count_step(cursor, n).0.prefix == cursor.prefix,
        last_step(cursor, candidate).0.bucket == cursor.bucket,
        last_step(cursor, candidate).0.prefix == cursor.prefix,
        next_step(cursor).1 is Fetch ==> next_step(cursor).1->request == page_request(cursor),
        nth_step(cursor, n).1 is Fetch ==> nth_step(cursor, n).1->request == page_request(cursor),
        count_step(cursor, n).1 is Fetch ==> count_step(cursor, n).1->request == page_request(
            cursor,
        ),
        last_step(cursor, candidate).1 is Fetch ==> last_step(cursor, candidate).1->request
            == page_request(cursor),
{
}

/// No operation goes back: a step keeps the buffered page and never lowers
/// the read index. Only a page that was asked for replaces the buffered
/// one, and only after all of it was read; reading then starts over at the
/// first entry of the new page.
pub proof fn lemma_read_index_advances(
    cursor: CursorView,
    page: PageView,
    n: nat,
    candidate: Option<EntryView>,
)
    ensures
        next_step(cursor).0.page == cursor.page && next_step(cursor).0.index >= cursor.index,
        nth_step(cursor, n).0.page == cursor.page && nth_step(cursor, n).0.index >= cursor.index,
        count_step(cursor, n).0.page == cursor.page && count_step(cursor, n).0.index
            >= cursor.index,
        last_step(cursor, candidate).0.page == cursor.page && last_step(
            cursor,
            candidate,
        ).0.index >= cursor.index,
        accept(cursor, page) != cursor ==> unread(cursor).len() == 0 && !(cursor.continuation
            is End) && accept(cursor, page).index == 0 && accept(cursor, page).page
            == page.entries,
{
}

} // verus!
