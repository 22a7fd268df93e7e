//! A cursor over a paged object listing as a mathematical value.
//!
//! The store lists a bucket page by page: each answer holds some entries
//! and, unless it is the last, a token that asks for the page after it. The
//! executable cursor of [`crate::listing`] refines the step functions of
//! this module; the theorems of [`crate::listing_laws`] are stated over
//! its runs.

use vstd::prelude::*;

verus! {

/// One listed object.
pub struct EntryView {
    pub key: Seq<char>,
    pub size: Option<i64>,
    pub last_modified: Option<Seq<char>>,
    pub e_tag: Option<Seq<char>>,
}

/// One answer of the store to a listing call.
pub struct PageView {
    pub entries: Seq<EntryView>,
    pub next_token: Option<Seq<char>>,
}

/// One listing call.
pub struct PageRequestView {
    pub bucket: Seq<char>,
    pub prefix: Option<Seq<char>>,
    pub continuation_token: Option<Seq<char>>,
}

/// How the listing goes on after the buffered page.
pub enum ContinuationView {
    /// No page was fetched yet: the first call carries no token.
    Start,
    /// The page after the buffered one is asked for with this token.
    Token(Seq<char>),
    /// The buffered page is the last one.
    End,
}

/// A cursor: the buffered page, how far it was read, and how to go on.
pub struct CursorView {
    pub bucket: Seq<char>,
    pub prefix: Option<Seq<char>>,
    pub page: Seq<EntryView>,
    pub index: nat,
    pub continuation: ContinuationView,
}

/// The three states a cursor can be in.
#[derive(Clone, Copy, Debug, PartialEq, Eq, Structural)]
pub enum CursorState {
    /// Nothing is buffered, and there may be more to fetch.
    Empty,
    /// Entries of the buffered page are still unread.
    Buffered,
    /// Every entry was read and there is no page left to fetch.
    Exhausted,
}

/// Where an operation stands after one step: it has its result, or it needs
/// the next page, after which it is to be resumed with `resume`.
pub enum PullView<T, A> {
    Ready(T),
    Fetch { request: PageRequestView, resume: A },
}

/// The cursor over the listing of `bucket`, of the keys with `prefix` if
/// there is one, before anything was fetched.
pub open spec fn fresh(bucket: Seq<char>, prefix: Option<Seq<char>>) -> CursorView {
    CursorView {
        bucket,
        prefix,
        page: Seq::empty(),
        index: 0,
        continuation: ContinuationView::Start,
    }
}

/// The entries of the buffered page that were not read yet.
pub open spec fn unread(cursor: CursorView) -> Seq<EntryView> {
    if cursor.index < cursor.page.len() {
        cursor.page.skip(cursor.index as int)
    } else {
        Seq::empty()
    }
}

/// The state of `cursor`.
pub open spec fn state(cursor: CursorView) -> CursorState {
    if unread(cursor).len() > 0 {
        CursorState::Buffered
    } else if cursor.continuation is End {
        CursorState::Exhausted
    } else {
        CursorState::Empty
    }
}

/// The call that fetches the page after the buffered one. Bucket and prefix
/// are those the cursor was made with.
pub open spec fn page_request(cursor: CursorView) -> PageRequestView {
    PageRequestView {
        bucket: cursor.bucket,
        prefix: cursor.prefix,
        continuation_token: match cursor.continuation {
            ContinuationView::Token(token) => Some(token),
            _ => None,
        },
    }
}

/// `cursor` after `count` more entries of the buffered page were read.
pub open spec fn advanced(cursor: CursorView, count: nat) -> CursorView {
    CursorView { index: cursor.index + count, ..cursor }
}

/// `cursor` after all of the buffered page was read.
pub open spec fn consumed(cursor: CursorView) -> CursorView {
    if cursor.index < cursor.page.len() {
        CursorView { index: cursor.page.len(), ..cursor }
    } else {
        cursor
    }
}

/// `cursor` after the store answered its page request with `page`: the
/// page replaces the buffered one and reading starts at its first entry.
/// A page that was not asked for (entries are unread, or the listing has
/// ended) is not taken in.
pub open spec fn accept(cursor: CursorView, page: PageView) -> CursorView {
    if state(cursor) is Empty {
        CursorView {
            page: page.entries,
            index: 0,
            continuation: match page.next_token {
                Some(token) => ContinuationView::Token(token),
                None => ContinuationView::End,
            },
            ..cursor
        }
    } else {
        cursor
    }
}

/// One step of `next`: the next unread entry, or none at the end of the
/// listing, or the request for the page that holds it.
pub open spec fn next_step(cursor: CursorView) -> (CursorView, PullView<Option<EntryView>, ()>) {
    match state(cursor) {
        CursorState::Buffered => (
            advanced(cursor, 1),
            PullView::Ready(Some(unread(cursor)[0])),
        ),
        CursorState::Exhausted => (cursor, PullView::Ready(None)),
        CursorState::Empty => (
            cursor,
            PullView::Fetch { request: page_request(cursor), resume: () },
        ),
    }
}

/// One step of `nth(n)`: the entry `n` places after the next one if the
/// buffered page holds it. If not, the whole page is skipped at once; at the
/// end of the listing there is no such entry, else the next page is asked
/// for and the operation goes on with what is left of `n`.
pub open spec fn nth_step(cursor: CursorView, n: nat) -> (
    CursorView,
    PullView<Option<EntryView>, nat>,
) {
    if n < unread(cursor).len() {
        (advanced(cursor, n + 1), PullView::Ready(Some(unread(cursor)[n as int])))
    } else if cursor.continuation is End {
        (consumed(cursor), PullView::Ready(None))
    } else {
        (
            consumed(cursor),
            PullView::Fetch {
                request: page_request(cursor),
                resume: (n - unread(cursor).len()) as nat,
            },
        )
    }
}

/// One step of `count`: the unread entries of the buffered page are
/// counted in at once; at the end of the listing that is the total.
pub open spec fn count_step(cursor: CursorView, counted: nat) -> (CursorView, PullView<nat, nat>) {
    let total = counted + unread(cursor).len();
    if cursor.continuation is End {
        (consumed(cursor), PullView::Ready(total))
    } else {
        (consumed(cursor), PullView::Fetch { request: page_request(cursor), resume: total })
    }
}

/// One step of `last`: the last entry of the buffered page, if one is
/// unread, replaces the candidate; at the end of the listing the candidate
/// is the result.
pub open spec fn last_step(cursor: CursorView, candidate: Option<EntryView>) -> (
    CursorView,
    PullView<Option<EntryView>, Option<EntryView>>,
) {
    let latest = if unread(cursor).len() > 0 {
        Some(unread(cursor).last())
    } else {
        candidate
    };
    if cursor.continuation is End {
        (consumed(cursor), PullView::Ready(latest))
    } else {
        (consumed(cursor), PullView::Fetch { request: page_request(cursor), resume: latest })
    }
}

/// How an operation ended that was run against the pages the store had to
/// give: the cursor after it, how many of the pages it fetched, and its
/// result; no result if it still waits for a page when all were given.
pub struct Outcome<T> {
    pub cursor: CursorView,
    pub fetched: nat,
    pub result: Option<T>,
}

/// `outcome` after one more page was fetched before it.
pub open spec fn one_more<T>(outcome: Outcome<T>) -> Outcome<T> {
    Outcome { fetched: outcome.fetched + 1, ..outcome }
}

/// `next`, run until it has its result: each page it asks for is the
/// first of `feed` not yet taken.
pub open spec fn run_next(cursor: CursorView, feed: Seq<PageView>) -> Outcome<Option<EntryView>>
    decreases feed.len(),
{
    let (after, pull) = next_step(cursor);
    match pull {
        PullView::Ready(entry) => Outcome { cursor: after, fetched: 0, result: Some(entry) },
        PullView::Fetch { .. } => if feed.len() == 0 {
            Outcome { cursor: after, fetched: 0, result: None }
        } else {
            one_more(run_next(accept(after, feed.first()), feed.drop_first()))
        },
    }
}

/// `nth(n)`, run until it has its result.
pub open spec fn run_nth(cursor: CursorView, feed: Seq<PageView>, n: nat) -> Outcome<
    Option<EntryView>,
>
    decreases feed.len(),
{
    let (after, pull) = nth_step(cursor, n);
    match pull {
        PullView::Ready(entry) => Outcome { cursor: after, fetched: 0, result: Some(entry) },
        PullView::Fetch { resume, .. } => if feed.len() == 0 {
            Outcome { cursor: after, fetched: 0, result: None }
        } else {
            one_more(run_nth(accept(after, feed.first()), feed.drop_first(), resume))
        },
    }
}

/// `count`, run until it has its result, with `counted` entries counted
/// before.
pub open spec fn run_count(cursor: CursorView, feed: Seq<PageView>, counted: nat) -> Outcome<nat>
    decreases feed.len(),
{
    let (after, pull) = count_step(cursor, counted);
    match pull {
        PullView::Ready(total) => Outcome { cursor: after, fetched: 0, result: Some(total) },
        PullView::Fetch { resume, .. } => if feed.len() == 0 {
            Outcome { cursor: after, fetched: 0, result: None }
        } else {
            one_more(run_count(accept(after, feed.first()), feed.drop_first(), resume))
        },
    }
}

/// `last`, run until it has its result, with `candidate` the last entry
/// seen before.
pub open spec fn run_last(
    cursor: CursorView,
    feed: Seq<PageView>,
    candidate: Option<EntryView>,
) -> Outcome<Option<EntryView>>
    decreases feed.len(),
{
    let (after, pull) = last_step(cursor, candidate);
    match pull {
        PullView::Ready(entry) => Outcome { cursor: after, fetched: 0, result: Some(entry) },
        PullView::Fetch { resume, .. } => if feed.len() == 0 {
            Outcome { cursor: after, fetched: 0, result: None }
        } else {
            one_more(run_last(accept(after, feed.first()), feed.drop_first(), resume))
        },
    }
}

} // verus!
