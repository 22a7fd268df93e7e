//! A lazy cursor over the contents of the listed objects.
//!
//! It wraps a [`ListingCursor`]: an operation that yields an entry asks for
//! that object's content first ([`ContentPull::Retrieve`]), and the caller
//! pairs the key with what the store returned ([`retrieved`]). Entries that
//! are skipped or only counted cost no call for their content.

use crate::content_model::{
    content_last_step, content_next_step, content_nth_step, get_request, ContentPullView,
    GetRequestView,
};
use crate::listing::{ListingCursor, ListingPage, ObjectEntry, PageRequest, Pull};
use crate::listing_model::{accept, count_step, fresh, state, unread, EntryView};
use vstd::prelude::*;

verus! {

/// One call that fetches the content of an object.
#[derive(Debug, PartialEq)]
pub struct GetObjectRequest {
    pub bucket: String,
    pub key: String,
}

/// Where an operation on contents stands after one step.
#[derive(Debug, PartialEq)]
pub enum ContentPull<A> {
    /// The operation yields the object that the request names, once its
    /// content was fetched with it.
    Retrieve(GetObjectRequest),
    /// The operation yields nothing: the listing has ended.
    Finished,
    /// The operation needs the next page of the listing, after which it
    /// is to be called again with `resume`.
    Fetch { request: PageRequest, resume: A },
}

impl View for GetObjectRequest {
    type V = GetRequestView;

    open spec fn view(&self) -> GetRequestView {
        GetRequestView { bucket: self.bucket@, key: self.key@ }
    }
}

impl View for ContentPull<()> {
    type V = ContentPullView<()>;

    open spec fn view(&self) -> ContentPullView<()> {
        match *self {
            ContentPull::Retrieve(request) => ContentPullView::Retrieve(request@),
            ContentPull::Finished => ContentPullView::Finished,
            ContentPull::Fetch { request, resume } => ContentPullView::Fetch {
                request: request@,
                resume: (),
            },
        }
    }
}

impl View for ContentPull<usize> {
    type V = ContentPullView<nat>;

    open spec fn view(&self) -> ContentPullView<nat> {
        match *self {
            ContentPull::Retrieve(request) => ContentPullView::Retrieve(request@),
            ContentPull::Finished => ContentPullView::Finished,
            ContentPull::Fetch { request, resume } => ContentPullView::Fetch {
                request: request@,
                resume: resume as nat,
            },
        }
    }
}

impl View for ContentPull<Option<ObjectEntry>> {
    type V = ContentPullView<Option<EntryView>>;

    open spec fn view(&self) -> ContentPullView<Option<EntryView>> {
        match *self {
            ContentPull::Retrieve(request) => ContentPullView::Retrieve(request@),
            ContentPull::Finished => ContentPullView::Finished,
            ContentPull::Fetch { request, resume } => ContentPullView::Fetch {
                request: request@,
                resume: resume.deep_view(),
            },
        }
    }
}

/// A forward-only cursor over the objects of one bucket with their contents.
pub struct ContentCursor {
    listing: ListingCursor,
}

impl View for ContentCursor {
    type V = crate::listing_model::CursorView;

    closed spec fn view(&self) -> crate::listing_model::CursorView {
        self.listing@
    }
}

/// What an operation yields for the object that `request` named, `content`
/// being what the store returned for it: the key and the content. The
/// content is handed on as it came; reading it is up to the caller.
pub fn retrieved<C>(request: GetObjectRequest, content: C) -> (object: (String, C))
    ensures
        object.0@ == request@.key,
        object.1 == content,
{
    (request.key, content)
}

impl ContentCursor {
    /// The cursor over all of `bucket`.
    pub fn new(bucket: String) -> (cursor: ContentCursor)
        ensures
            cursor@ == fresh(bucket@, None),
    {
        ContentCursor { listing: ListingCursor::new(bucket) }
    }

    /// The cursor over the keys of `bucket` that begin with `prefix`.
    pub fn with_prefix(bucket: String, prefix: String) -> (cursor: ContentCursor)
        ensures
            cursor@ == fresh(bucket@, Some(prefix@)),
    {
        ContentCursor { listing: ListingCursor::with_prefix(bucket, prefix) }
    }

    /// Takes in the page that the store returned for the request of the
    /// last `Fetch`. Returns whether the page was taken in: a page that
    /// was not asked for is dropped and the cursor stays as it is.
    pub fn accept(&mut self, page: ListingPage) -> (taken: bool)
        ensures
            final(self)@ == accept(old(self)@, page@),
            taken == (state(old(self)@) is Empty),
    {
        self.listing.accept(page)
    }

    /// How many entries of the buffered page are unread.
    pub fn buffered(&self) -> (count: usize)
        ensures
            count == unread(self@).len(),
    {
        self.listing.buffered()
    }

    /// The call for the content of an entry that the listing yielded.
    fn content_of(&self, entry: ObjectEntry) -> (request: GetObjectRequest)
        ensures
            request@ == get_request(self@.bucket, entry@),
    {
        GetObjectRequest { bucket: self.listing.bucket().clone(), key: entry.key }
    }

    /// One step of pulling the next object: the step of
    /// [`ListingCursor::next`], with the content asked for where that
    /// yields an entry.
    pub fn next(&mut self) -> (pull: ContentPull<()>)
        ensures
            (final(self)@, pull@) == content_next_step(old(self)@),
    {
        match self.listing.next() {
            Pull::Ready(Some(entry)) => ContentPull::Retrieve(self.content_of(entry)),
            Pull::Ready(None) => ContentPull::Finished,
            Pull::Fetch { request, resume } => ContentPull::Fetch { request, resume },
        }
    }

    /// One step of skipping `n` objects and pulling the one after them: the
    /// step of [`ListingCursor::nth`], with the content asked for where
    /// that yields an entry. No content is asked for of a skipped entry.
    pub fn nth(&mut self, n: usize) -> (pull: ContentPull<usize>)
        ensures
            (final(self)@, pull@) == content_nth_step(old(self)@, n as nat),
    {
        match self.listing.nth(n) {
            Pull::Ready(Some(entry)) => ContentPull::Retrieve(self.content_of(entry)),
            Pull::Ready(None) => ContentPull::Finished,
            Pull::Fetch { request, resume } => ContentPull::Fetch { request, resume },
        }
    }

    /// One step of counting the objects that are left: the step of
    /// [`ListingCursor::count`]. It never asks for a content.
    pub fn count(&mut self, counted: usize) -> (pull: Pull<usize, usize>)
        requires
            counted + unread(old(self)@).len() <= usize::MAX,
        ensures
            (final(self)@, pull@) == count_step(old(self)@, counted as nat),
    {
        self.listing.count(counted)
    }

    /// One step of finding the last object of the listing: the step of
    /// [`ListingCursor::last`], with the content asked for of the entry
    /// that it yields, and of no other.
    pub fn last(&mut self, candidate: Option<ObjectEntry>) -> (pull: ContentPull<
        Option<ObjectEntry>,
    >)
        ensures
            (final(self)@, pull@) == content_last_step(old(self)@, candidate.deep_view()),
    {
        match self.listing.last(candidate) {
            Pull::Ready(Some(entry)) => ContentPull::Retrieve(self.content_of(entry)),
            Pull::Ready(None) => ContentPull::Finished,
            Pull::Fetch { request, resume } => ContentPull::Fetch { request, resume },
        }
    }
}

} // verus!
