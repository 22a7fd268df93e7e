//! A cursor over the contents of the listed objects as a mathematical value.
//!
//! It is the listing cursor of [`crate::listing_model`] with one more kind
//! of call: the content of an entry is fetched when, and only when, the
//! entry is yielded.

use crate::listing_model::{
    accept, count_step, last_step, next_step, nth_step, CursorView, EntryView, PageRequestView,
    PageView, PullView,
};
use vstd::prelude::*;

verus! {

/// One call that fetches the content of an object.
pub struct GetRequestView {
    pub bucket: Seq<char>,
    pub key: Seq<char>,
}

/// Where an operation on contents stands after one step.
pub enum ContentPullView<A> {
    /// The operation yields the object that the request names, once its
    /// content was fetched with it.
    Retrieve(GetRequestView),
    /// The operation yields nothing: the listing has ended.
    Finished,
    /// The operation needs the next page of the listing.
    Fetch { request: PageRequestView, resume: A },
}

/// A call to the store.
pub enum CallView {
    ListPage(PageRequestView),
    GetObject(GetRequestView),
}

/// The call that fetches the content of `entry`, listed in `bucket`.
pub open spec fn get_request(bucket: Seq<char>, entry: EntryView) -> GetRequestView {
    GetRequestView { bucket, key: entry.key }
}

/// A step on contents, from the same step on the listing: an entry that
/// the listing yields has its content fetched; nothing else has.
pub open spec fn with_content<A>(bucket: Seq<char>, pull: PullView<Option<EntryView>, A>)
    -> ContentPullView<A> {
    match pull {
        PullView::Ready(Some(entry)) => ContentPullView::Retrieve(get_request(bucket, entry)),
        PullView::Ready(None) => ContentPullView::Finished,
        PullView::Fetch { request, resume } => ContentPullView::Fetch { request, resume },
    }
}

/// One step of `next` on contents.
pub open spec fn content_next_step(cursor: CursorView) -> (CursorView, ContentPullView<()>) {
    (next_step(cursor).0, with_content(cursor.bucket, next_step(cursor).1))
}

/// One step of `nth(n)` on contents.
pub open spec fn content_nth_step(cursor: CursorView, n: nat) -> (
    CursorView,
    ContentPullView<nat>,
) {
    (nth_step(cursor, n).0, with_content(cursor.bucket, nth_step(cursor, n).1))
}

/// One step of `last` on contents.
pub open spec fn content_last_step(cursor: CursorView, candidate: Option<EntryView>) -> (
    CursorView,
    ContentPullView<Option<EntryView>>,
) {
    (
        last_step(cursor, candidate).0,
        with_content(cursor.bucket, last_step(cursor, candidate).1),
    )
}

/// The calls that `next` on contents makes until it has its result, each
/// page request being answered with the first page of `feed` not yet taken.
pub open spec fn next_calls(cursor: CursorView, feed: Seq<PageView>) -> Seq<CallView>
    decreases feed.len(),
{
    let (after, pull) = content_next_step(cursor);
    match pull {
        ContentPullView::Retrieve(request) => seq![CallView::GetObject(request)],
        ContentPullView::Finished => Seq::empty(),
        ContentPullView::Fetch { request, .. } => if feed.len() == 0 {
            seq![CallView::ListPage(request)]
        } else {
            seq![CallView::ListPage(request)] + next_calls(
                accept(after, feed.first()),
                feed.drop_first(),
            )
        },
    }
}

/// The calls that `nth(n)` on contents makes until it has its result.
pub open spec fn nth_calls(cursor: CursorView, feed: Seq<PageView>, n: nat) -> Seq<CallView>
    decreases feed.len(),
{
    let (after, pull) = content_nth_step(cursor, n);
    match pull {
        ContentPullView::Retrieve(request) => seq![CallView::GetObject(request)],
        ContentPullView::Finished => Seq::empty(),
        ContentPullView::Fetch { request, resume } => if feed.len() == 0 {
            seq![CallView::ListPage(request)]
        } else {
            seq![CallView::ListPage(request)] + nth_calls(
                accept(after, feed.first()),
                feed.drop_first(),
                resume,
            )
        },
    }
}

/// The calls that `last` on contents makes until it has its result.
pub open spec fn last_calls(cursor: CursorView, feed: Seq<PageView>, candidate: Option<EntryView>)
    -> Seq<CallView>
    decreases feed.len(),
{
    let (after, pull) = content_last_step(cursor, candidate);
    match pull {
        ContentPullView::Retrieve(request) => seq![CallView::GetObject(request)],
        ContentPullView::Finished => Seq::empty(),
        ContentPullView::Fetch { request, resume } => if feed.len() == 0 {
            seq![CallView::ListPage(request)]
        } else {
            seq![CallView::ListPage(request)] + last_calls(
                accept(after, feed.first()),
                feed.drop_first(),
                resume,
            )
        },
    }
}

/// The calls that `count` on contents makes until it has its result. It
/// is the `count` of the listing: a step of it has no way to ask for a
/// content.
pub open spec fn count_calls(cursor: CursorView, feed: Seq<PageView>, counted: nat) -> Seq<
    CallView,
>
    decreases feed.len(),
{
    let (after, pull) = count_step(cursor, counted);
    match pull {
        PullView::Ready(_) => Seq::empty(),
        PullView::Fetch { request, resume } => if feed.len() == 0 {
            seq![CallView::ListPage(request)]
        } else {
            seq![CallView::ListPage(request)] + count_calls(
                accept(after, feed.first()),
                feed.drop_first(),
                resume,
            )
        },
    }
}

/// The contents that are fetched among `calls`, in order.
pub open spec fn gets(calls: Seq<CallView>) -> Seq<GetRequestView>
    decreases calls.len(),
{
    if calls.len() == 0 {
        Seq::empty()
    } else {
        match calls.last() {
            CallView::GetObject(request) => gets(calls.drop_last()).push(request),
            CallView::ListPage(_) => gets(calls.drop_last()),
        }
    }
}

} // verus!
