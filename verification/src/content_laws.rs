//! What holds of every cursor over contents: a content is fetched for each
//! object that is yielded, right before it is yielded, and for no other.

use crate::content_model::{
    count_calls, get_request, gets, last_calls, next_calls, nth_calls, CallView, GetRequestView,
};
use crate::listing_laws::{completes, lemma_next, remaining};
use crate::listing_model::{
    accept, count_step, last_step, next_step, nth_step, run_last, run_next, run_nth, state,
    CursorState, CursorView, EntryView, PageView,
};
use vstd::prelude::*;

verus! {

/// The contents fetched by an operation that yields `entry`, if it yields
/// one: that of `entry`, listed in `bucket`.
pub open spec fn gets_for(bucket: Seq<char>, entry: Option<EntryView>) -> Seq<GetRequestView> {
    match entry {
        Some(entry) => seq![get_request(bucket, entry)],
        None => Seq::empty(),
    }
}

/// The calls that `next` on contents makes when it is called `times` times.
pub open spec fn drain_calls(cursor: CursorView, feed: Seq<PageView>, times: nat) -> Seq<CallView>
    decreases times,
{
    if times == 0 {
        Seq::empty()
    } else {
        let first = run_next(cursor, feed);
        next_calls(cursor, feed) + drain_calls(
            first.cursor,
            feed.skip(first.fetched as int),
            (times - 1) as nat,
        )
    }
}

/// The contents fetched among calls made one after the other.
pub proof fn lemma_gets_concat(first: Seq<CallView>, second: Seq<CallView>)
    ensures
        gets(first + second) == gets(first) + gets(second),
    decreases second.len(),
{
    if second.len() == 0 {
        assert(first + second =~= first);
        assert(gets(first) + gets(second) =~= gets(first));
    } else {
        lemma_gets_concat(first, second.drop_last());
        assert((first + second).drop_last() =~= first + second.drop_last());
        assert((first + second).last() == second.last());
        match second.last() {
            CallView::GetObject(request) => {
                assert((gets(first) + gets(second.drop_last())).push(request) =~= gets(first)
                    + gets(second.drop_last()).push(request));
            },
            CallView::ListPage(_) => {},
        }
    }
}

/// The contents fetched among one call.
proof fn lemma_gets_single(call: CallView)
    ensures
        gets(seq![call]) == match call {
            CallView::GetObject(request) => seq![request],
            CallView::ListPage(_) => Seq::empty(),
        },
{
    assert(seq![call].drop_last() =~= Seq::<CallView>::empty());
    assert(gets(Seq::<CallView>::empty()) =~= Seq::empty());
    match call {
        CallView::GetObject(request) => {
            assert(Seq::<GetRequestView>::empty().push(request) =~= seq![request]);
        },
        CallView::ListPage(_) => {},
    }
}

/// `next` on contents moves the cursor as `next` on the listing does. It
/// fetches one content if the listing yields an entry, that of this entry
/// and as its last call; it fetches none if the listing has ended.
pub proof fn lemma_next_gets_what_it_yields(cursor: CursorView, feed: Seq<PageView>)
    ensures
        ({
            let run = run_next(cursor, feed);
            let calls = next_calls(cursor, feed);
            &&& run.cursor.bucket == cursor.bucket
            &&& match run.result {
                Some(Some(entry)) => {
                    &&& gets(calls) == seq![get_request(cursor.bucket, entry)]
                    &&& calls.len() == run.fetched + 1
                    &&& calls.last() == CallView::GetObject(get_request(cursor.bucket, entry))
                },
                Some(None) => gets(calls).len() == 0 && calls.len() == run.fetched,
                None => gets(calls).len() == 0,
            }
        }),
    decreases feed.len(),
{
    let calls = next_calls(cursor, feed);
    match state(cursor) {
        CursorState::Buffered => {
            lemma_gets_single(calls[0]);
            assert(calls =~= seq![calls[0]]);
        },
        CursorState::Exhausted => {},
        CursorState::Empty => {
            let request = CallView::ListPage(next_step(cursor).1->request);
            lemma_gets_single(request);
            if feed.len() > 0 {
                let taken = accept(cursor, feed.first());
                let later = next_calls(taken, feed.drop_first());
                lemma_next_gets_what_it_yields(taken, feed.drop_first());
                lemma_gets_concat(seq![request], later);
                assert(gets(seq![request]) + gets(later) =~= gets(later));
            }
        },
    }
}

/// Draining a listing of contents with `next` fetches one content for each
/// object yielded, in the order yielded, and none after the last: called
/// `times` times on a cursor with `left` objects to go, it fetches the
/// contents of the first `times` of them, or of all if they are fewer.
pub proof fn lemma_drain_gets_each_once(cursor: CursorView, feed: Seq<PageView>, times: nat)
    requires
        completes(cursor, feed),
    ensures
        ({
            let left = remaining(cursor, feed);
            let fetched = gets(drain_calls(cursor, feed, times));
            &&& fetched.len() == if times <= left.len() {
                times
            } else {
                left.len()
            }
            &&& forall|at: int|
                0 <= at < fetched.len() ==> #[trigger] fetched[at] == get_request(
                    cursor.bucket,
                    left[at],
                )
        }),
    decreases times,
{
    let left = remaining(cursor, feed);
    if times == 0 {
        assert(gets(Seq::<CallView>::empty()) =~= Seq::empty());
    } else {
        let first = run_next(cursor, feed);
        let rest = feed.skip(first.fetched as int);
        let head = next_calls(cursor, feed);
        let tail = drain_calls(first.cursor, rest, (times - 1) as nat);
        lemma_next(cursor, feed);
        lemma_next_gets_what_it_yields(cursor, feed);
        lemma_drain_gets_each_once(first.cursor, rest, (times - 1) as nat);
        lemma_gets_concat(head, tail);
        let fetched = gets(head) + gets(tail);
        if left.len() > 0 {
            assert forall|at: int| 0 <= at < fetched.len() implies #[trigger] fetched[at]
                == get_request(cursor.bucket, left[at]) by {
                if at > 0 {
                    assert(fetched[at] == gets(tail)[at - 1]);
                    assert(left.drop_first()[at - 1] == left[at]);
                }
            }
        }
    }
}

/// `count` on contents fetches no content at all, whatever the listing
/// holds: all its calls are page requests.
pub proof fn lemma_count_gets_nothing(cursor: CursorView, feed: Seq<PageView>, counted: nat)
    ensures
        gets(count_calls(cursor, feed, counted)).len() == 0,
        forall|at: int|
            0 <= at < count_calls(cursor, feed, counted).len() ==> (#[trigger] count_calls(
                cursor,
                feed,
                counted,
            )[at]) is ListPage,
    decreases feed.len(),
{
    let calls = count_calls(cursor, feed, counted);
    let (after, pull) = count_step(cursor, counted);
    if pull is Fetch {
        let request = CallView::ListPage(pull->request);
        lemma_gets_single(request);
        if feed.len() > 0 {
            let later = count_calls(accept(after, feed.first()), feed.drop_first(), pull->resume);
            lemma_count_gets_nothing(accept(after, feed.first()), feed.drop_first(), pull->resume);
            lemma_gets_concat(seq![request], later);
            assert forall|at: int| 0 <= at < calls.len() implies (#[trigger] calls[at])
                is ListPage by {
                if at > 0 {
                    assert(calls[at] == later[at - 1]);
                }
            }
        }
    }
}

/// `nth(n)` on contents fetches the content of the entry it yields and of
/// no entry it skips; it fetches none where it yields none.
pub proof fn lemma_nth_gets_what_it_yields(cursor: CursorView, feed: Seq<PageView>, n: nat)
    ensures
        gets(nth_calls(cursor, feed, n)) == match run_nth(cursor, feed, n).result {
            Some(entry) => gets_for(cursor.bucket, entry),
            None => Seq::empty(),
        },
    decreases feed.len(),
{
    let calls = nth_calls(cursor, feed, n);
    let (after, pull) = nth_step(cursor, n);
    if pull is Fetch {
        let request = CallView::ListPage(pull->request);
        lemma_gets_single(request);
        if feed.len() > 0 {
            let taken = accept(after, feed.first());
            let later = nth_calls(taken, feed.drop_first(), pull->resume);
            lemma_nth_gets_what_it_yields(taken, feed.drop_first(), pull->resume);
            lemma_gets_concat(seq![request], later);
            assert(gets(seq![request]) + gets(later) =~= gets(later));
        }
    } else {
        if calls.len() > 0 {
            lemma_gets_single(calls[0]);
            assert(calls =~= seq![calls[0]]);
        } else {
            assert(gets(calls) =~= Seq::empty());
        }
    }
}

/// `last` on contents fetches the content of the entry it yields, and of
/// no entry that it passes on the way.
pub proof fn lemma_last_gets_what_it_yields(
    cursor: CursorView,
    feed: Seq<PageView>,
    candidate: Option<EntryView>,
)
    ensures
        gets(last_calls(cursor, feed, candidate)) == match run_last(
            cursor,
            feed,
            candidate,
        ).result {
            Some(entry) => gets_for(cursor.bucket, entry),
            None => Seq::empty(),
        },
    decreases feed.len(),
{
    let calls = last_calls(cursor, feed, candidate);
    let (after, pull) = last_step(cursor, candidate);
    if pull is Fetch {
        let request = CallView::ListPage(pull->request);
        lemma_gets_single(request);
        if feed.len() > 0 {
            let taken = accept(after, feed.first());
            let later = last_calls(taken, feed.drop_first(), pull->resume);
            lemma_last_gets_what_it_yields(taken, feed.drop_first(), pull->resume);
            lemma_gets_concat(seq![request], later);
            assert(gets(seq![request]) + gets(later) =~= gets(later));
        }
    } else {
        if calls.len() > 0 {
            lemma_gets_single(calls[0]);
            assert(calls =~= seq![calls[0]]);
        } else {
            assert(gets(calls) =~= Seq::empty());
        }
    }
}

} // verus!
