//! A lazy cursor over a paged object listing.
//!
//! The cursor hides the store's pages and continuation tokens behind four
//! operations: [`ListingCursor::next`], [`ListingCursor::nth`],
//! [`ListingCursor::count`] and [`ListingCursor::last`]. It fetches nothing
//! itself. An operation that needs a page says so ([`Pull::Fetch`]); the
//! caller fetches the page, hands it over with [`ListingCursor::accept`]
//! and calls the operation again with what it was told to resume with.

use crate::error::Violation;
use crate::listing_model::{
    accept, count_step, fresh, last_step, next_step, nth_step, page_request, state, unread,
    ContinuationView, CursorState, CursorView, EntryView, PageRequestView, PageView, PullView,
};
use vstd::prelude::*;

verus! {

/// One listed object.
#[derive(Debug, PartialEq)]
pub struct ObjectEntry {
    pub key: String,
    pub size: Option<i64>,
    pub last_modified: Option<String>,
    pub e_tag: Option<String>,
}

/// One answer of the store to a listing call: some entries and, unless this
/// is the last page, the token that asks for the page after it.
#[derive(Debug, PartialEq)]
pub struct ListingPage {
    pub entries: Vec<ObjectEntry>,
    pub next_token: Option<String>,
}

/// One listing call.
#[derive(Debug, PartialEq)]
pub struct PageRequest {
    pub bucket: String,
    pub prefix: Option<String>,
    pub continuation_token: Option<String>,
}

/// Where an operation stands after one step: it has its result, or it needs
/// the next page, after which it is to be called again with `resume`.
#[derive(Debug, PartialEq)]
pub enum Pull<T, A> {
    Ready(T),
    Fetch { request: PageRequest, resume: A },
}

impl View for ObjectEntry {
    type V = EntryView;

    open spec fn view(&self) -> EntryView {
        EntryView {
            key: self.key@,
            size: self.size,
            last_modified: self.last_modified.deep_view(),
            e_tag: self.e_tag.deep_view(),
        }
    }
}

impl DeepView for ObjectEntry {
    type V = EntryView;

    open spec fn deep_view(&self) -> EntryView {
        self@
    }
}

impl View for ListingPage {
    type V = PageView;

    open spec fn view(&self) -> PageView {
        PageView { entries: self.entries.deep_view(), next_token: self.next_token.deep_view() }
    }
}

impl View for PageRequest {
    type V = PageRequestView;

    open spec fn view(&self) -> PageRequestView {
        PageRequestView {
            bucket: self.bucket@,
            prefix: self.prefix.deep_view(),
            continuation_token: self.continuation_token.deep_view(),
        }
    }
}

impl View for Pull<Option<ObjectEntry>, ()> {
    type V = PullView<Option<EntryView>, ()>;

    open spec fn view(&self) -> PullView<Option<EntryView>, ()> {
        match *self {
            Pull::Ready(entry) => PullView::Ready(entry.deep_view()),
            Pull::Fetch { request, resume } => PullView::Fetch { request: request@, resume: () },
        }
    }
}

impl View for Pull<Option<ObjectEntry>, usize> {
    type V = PullView<Option<EntryView>, nat>;

    open spec fn view(&self) -> PullView<Option<EntryView>, nat> {
        match *self {
            Pull::Ready(entry) => PullView::Ready(entry.deep_view()),
            Pull::Fetch { request, resume } => PullView::Fetch {
                request: request@,
                resume: resume as nat,
            },
        }
    }
}

impl View for Pull<usize, usize> {
    type V = PullView<nat, nat>;

    open spec fn view(&self) -> PullView<nat, nat> {
        match *self {
            Pull::Ready(total) => PullView::Ready(total as nat),
            Pull::Fetch { request, resume } => PullView::Fetch {
                request: request@,
                resume: resume as nat,
            },
        }
    }
}

impl View for Pull<Option<ObjectEntry>, Option<ObjectEntry>> {
    type V = PullView<Option<EntryView>, Option<EntryView>>;

    open spec fn view(&self) -> PullView<Option<EntryView>, Option<EntryView>> {
        match *self {
            Pull::Ready(entry) => PullView::Ready(entry.deep_view()),
            Pull::Fetch { request, resume } => PullView::Fetch {
                request: request@,
                resume: resume.deep_view(),
            },
        }
    }
}

/// How the listing goes on after the buffered page.
enum Continuation {
    Start,
    Token(String),
    End,
}

impl View for Continuation {
    type V = ContinuationView;

    closed spec fn view(&self) -> ContinuationView {
        match *self {
            Continuation::Start => ContinuationView::Start,
            Continuation::Token(token) => ContinuationView::Token(token@),
            Continuation::End => ContinuationView::End,
        }
    }
}

/// A forward-only cursor over the listing of one bucket.
pub struct ListingCursor {
    bucket: String,
    prefix: Option<String>,
    page: Vec<ObjectEntry>,
    index: usize,
    continuation: Continuation,
}

impl View for ListingCursor {
    type V = CursorView;

    closed spec fn view(&self) -> CursorView {
        CursorView {
            bucket: self.bucket@,
            prefix: self.prefix.deep_view(),
            page: self.page.deep_view(),
            index: self.index as nat,
            continuation: self.continuation@,
        }
    }
}

fn copy_text(text: &Option<String>) -> (copy: Option<String>)
    ensures
        copy == *text,
{
    match text {
        Some(value) => Some(value.clone()),
        None => None,
    }
}

impl ObjectEntry {
    /// The entry for an object as the store lists it. An object that is
    /// listed without a key is a violation of the protocol.
    pub fn listed(
        key: Option<String>,
        size: Option<i64>,
        last_modified: Option<String>,
        e_tag: Option<String>,
    ) -> (entry: Result<ObjectEntry, Violation>)
        ensures
            match key {
                Some(key) => entry is Ok && entry->Ok_0@ == (EntryView {
                    key: key@,
                    size,
                    last_modified: last_modified.deep_view(),
                    e_tag: e_tag.deep_view(),
                }),
                None => entry == Err::<ObjectEntry, _>(Violation::MissingKey),
            },
    {
        match key {
            Some(key) => Ok(ObjectEntry { key, size, last_modified, e_tag }),
            None => Err(Violation::MissingKey),
        }
    }

    /// A copy of this entry.
    pub fn duplicate(&self) -> (copy: ObjectEntry)
        ensures
            copy@ == self@,
    {
        ObjectEntry {
            key: self.key.clone(),
            size: self.size,
            last_modified: copy_text(&self.last_modified),
            e_tag: copy_text(&self.e_tag),
        }
    }
}

impl ListingCursor {
    /// The cursor over all of `bucket`.
    pub fn new(bucket: String) -> (cursor: ListingCursor)
        ensures
            cursor@ == fresh(bucket@, None),
    {
        let cursor = ListingCursor {
            bucket,
            prefix: None,
            page: Vec::new(),
            index: 0,
            continuation: Continuation::Start,
        };
        assert(cursor.page.deep_view() =~= Seq::<EntryView>::empty());
        cursor
    }

    /// The cursor over the keys of `bucket` that begin with `prefix`.
    pub fn with_prefix(bucket: String, prefix: String) -> (cursor: ListingCursor)
        ensures
            cursor@ == fresh(bucket@, Some(prefix@)),
    {
        let cursor = ListingCursor {
            bucket,
            prefix: Some(prefix),
            page: Vec::new(),
            index: 0,
            continuation: Continuation::Start,
        };
        assert(cursor.page.deep_view() =~= Seq::<EntryView>::empty());
        cursor
    }

    /// The state the cursor is in.
    pub fn state(&self) -> (now: CursorState)
        ensures
            now == state(self@),
    {
        if self.index < self.page.len() {
            CursorState::Buffered
        } else {
            match self.continuation {
                Continuation::End => CursorState::Exhausted,
                _ => CursorState::Empty,
            }
        }
    }

    /// The bucket that is listed.
    pub fn bucket(&self) -> (bucket: &String)
        ensures
            bucket@ == self@.bucket,
    {
        &self.bucket
    }

    /// How many entries of the buffered page are unread.
    pub fn buffered(&self) -> (count: usize)
        ensures
            count == unread(self@).len(),
    {
        if self.index < self.page.len() {
            self.page.len() - self.index
        } else {
            0
        }
    }

    /// The call that fetches the page after the buffered one.
    fn request(&self) -> (request: PageRequest)
        ensures
            request@ == page_request(self@),
    {
        PageRequest {
            bucket: self.bucket.clone(),
            prefix: copy_text(&self.prefix),
            continuation_token: match &self.continuation {
                Continuation::Token(token) => Some(token.clone()),
                _ => None,
            },
        }
    }

    /// Takes in the page that the store returned for the request of the
    /// last `Pull::Fetch`. Returns whether the page was taken in: a page
    /// that was not asked for is dropped and the cursor stays as it is.
    pub fn accept(&mut self, page: ListingPage) -> (taken: bool)
        ensures
            final(self)@ == accept(old(self)@, page@),
            taken == (state(old(self)@) is Empty),
    {
        match self.state() {
            CursorState::Empty => {
                let ListingPage { entries, next_token } = page;
                self.page = entries;
                self.index = 0;
                self.continuation = match next_token {
                    Some(token) => Continuation::Token(token),
                    None => Continuation::End,
                };
                true
            },
            _ => false,
        }
    }

    /// One step of pulling the next entry.
    ///
    /// Ready with the next unread entry of the buffered page, which is
    /// thereby read; ready with `None` once the listing has ended, then and
    /// ever after; else the request for the next page, the cursor unchanged.
    pub fn next(&mut self) -> (pull: Pull<Option<ObjectEntry>, ()>)
        ensures
            (final(self)@, pull@) == next_step(old(self)@),
    {
        if self.index < self.page.len() {
            let entry = self.page[self.index].duplicate();
            self.index = self.index + 1;
            Pull::Ready(Some(entry))
        } else {
            match self.continuation {
                Continuation::End => Pull::Ready(None),
                _ => Pull::Fetch { request: self.request(), resume: () },
            }
        }
    }

    /// One step of skipping `n` entries and pulling the one after them.
    ///
    /// Ready with that entry if the buffered page holds it; the entries
    /// before it are then read too. If not, the rest of the page is
    /// skipped as a whole: at the end of the listing the result is `None`,
    /// else the next page is asked for and what is left of `n` is handed
    /// back to resume with.
    pub fn nth(&mut self, n: usize) -> (pull: Pull<Option<ObjectEntry>, usize>)
        ensures
            (final(self)@, pull@) == nth_step(old(self)@, n as nat),
    {
        let unread = self.buffered();
        assert(unread > 0 ==> unread == self.page.len() - self.index);
        if n < unread {
            let entry = self.page[self.index + n].duplicate();
            self.index = self.index + n + 1;
            Pull::Ready(Some(entry))
        } else {
            let request = self.request();
            if unread > 0 {
                self.index = self.page.len();
            }
            match self.continuation {
                Continuation::End => Pull::Ready(None),
                _ => Pull::Fetch { request, resume: n - unread },
            }
        }
    }

    /// One step of counting the entries that are left, `counted` of them
    /// counted before.
    ///
    /// The unread entries of the buffered page are counted in and skipped.
    /// Ready with the total at the end of the listing; else the next page
    /// is asked for and the count so far is handed back to resume with.
    pub fn count(&mut self, counted: usize) -> (pull: Pull<usize, usize>)
        requires
            counted + unread(old(self)@).len() <= usize::MAX,
        ensures
            (final(self)@, pull@) == count_step(old(self)@, counted as nat),
    {
        let unread = self.buffered();
        let total = counted + unread;
        let request = self.request();
        if unread > 0 {
            self.index = self.page.len();
        }
        match self.continuation {
            Continuation::End => Pull::Ready(total),
            _ => Pull::Fetch { request, resume: total },
        }
    }

    /// One step of finding the last entry of the listing, `candidate` being
    /// the last one seen before.
    ///
    /// The last entry of the buffered page, if one is unread, becomes the
    /// candidate, and the page is skipped. Ready with the candidate at the
    /// end of the listing; else the next page is asked for and the candidate
    /// is handed back to resume with.
    pub fn last(&mut self, candidate: Option<ObjectEntry>) -> (pull: Pull<
        Option<ObjectEntry>,
        Option<ObjectEntry>,
    >)
        ensures
            (final(self)@, pull@) == last_step(old(self)@, candidate.deep_view()),
    {
        let unread = self.buffered();
        let request = self.request();
        let latest = if unread > 0 {
            let entry = self.page[self.page.len() - 1].duplicate();
            self.index = self.page.len();
            Some(entry)
        } else {
            candidate
        };
        match self.continuation {
            Continuation::End => Pull::Ready(latest),
            _ => Pull::Fetch { request, resume: latest },
        }
    }
}

} // verus!
