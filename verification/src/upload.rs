//! The upload orchestrator.
//!
//! A small object is sent whole, in one put ([`single_put`]). A large one
//! goes through a multipart session, which [`MultipartUpload`] conducts: it
//! is told what happened and says which call to make next, until it hands
//! out the result. It performs no call itself.

use crate::error::{RemoteCall, StoreError, Violation};
use crate::request::{
    AbortSessionRequest, CompleteSessionRequest, CompletedPart, CreateSessionRequest, PartView,
    PutObjectRequest, PutObjectView, UploadPartRequest, UploadTarget,
};
use crate::upload_model::{
    initial, step, work, ActionView, EventView, MachineView, OpenView, PhaseView, SessionView,
    WorkView,
};
use vstd::prelude::*;

verus! {

/// What the caller reports to the orchestrator. `E` is the caller's type for
/// the cause of a failure, `O` its type for what the completion call returns.
#[derive(Debug, PartialEq)]
pub enum Event<E, O> {
    /// The caller is ready to perform calls.
    Begin,
    /// The create-session call returned.
    SessionCreated { upload_id: Option<String> },
    /// A read of the source returned `size`, having filled `buffer` up to there.
    ChunkRead { buffer: Vec<u8>, size: usize },
    /// The upload-part call returned.
    PartUploaded { e_tag: Option<String> },
    /// The completion call returned.
    Completed { output: O },
    /// The abort call returned.
    Aborted,
    /// The pending call, or the pending read, failed.
    Failed { cause: E },
}

/// What the orchestrator asks the caller to do next.
#[derive(Debug, PartialEq)]
pub enum Action<E, O> {
    CreateSession(CreateSessionRequest),
    /// Read up to `capacity` bytes of the source into a fresh buffer.
    ReadChunk { capacity: usize },
    UploadPart(UploadPartRequest),
    CompleteSession(CompleteSessionRequest),
    AbortSession(AbortSessionRequest),
    /// Hand `result` to whoever asked for the upload. `abort_failure` is set
    /// where the abort call itself failed; it is there to be reported and
    /// never replaces the error in `result`.
    Finish { result: Result<O, StoreError<E>>, abort_failure: Option<E> },
}

impl<E, O> View for Event<E, O> {
    type V = EventView<E, O>;

    open spec fn view(&self) -> EventView<E, O> {
        match *self {
            Event::Begin => EventView::Begin,
            Event::SessionCreated { upload_id } => EventView::SessionCreated {
                upload_id: upload_id.deep_view(),
            },
            Event::ChunkRead { buffer, size } => EventView::ChunkRead {
                buffer: buffer@,
                size: size as nat,
            },
            Event::PartUploaded { e_tag } => EventView::PartUploaded { e_tag: e_tag.deep_view() },
            Event::Completed { output } => EventView::Completed { output },
            Event::Aborted => EventView::Aborted,
            Event::Failed { cause } => EventView::Failed { cause },
        }
    }
}

impl<E, O> View for Action<E, O> {
    type V = ActionView<E, O>;

    open spec fn view(&self) -> ActionView<E, O> {
        match *self {
            Action::CreateSession(request) => ActionView::CreateSession(request@),
            Action::ReadChunk { capacity } => ActionView::ReadChunk { capacity: capacity as nat },
            Action::UploadPart(request) => ActionView::UploadPart(request@),
            Action::CompleteSession(request) => ActionView::CompleteSession(request@),
            Action::AbortSession(request) => ActionView::AbortSession(request@),
            Action::Finish { result, abort_failure } => ActionView::Finish {
                result,
                abort_failure,
            },
        }
    }
}

impl<E, O> DeepView for Action<E, O> {
    type V = ActionView<E, O>;

    open spec fn deep_view(&self) -> ActionView<E, O> {
        self@
    }
}

/// A multipart session on the store: its identifier and the parts uploaded
/// so far, in upload order.
#[derive(Debug, PartialEq)]
struct UploadSession {
    upload_id: String,
    parts: Vec<CompletedPart>,
}

/// A session that exists and is neither completed nor aborted, by the
/// answer it waits for.
#[derive(Debug, PartialEq)]
enum Open {
    Reading { session: UploadSession },
    Uploading { session: UploadSession },
    Completing { upload_id: String },
}

#[derive(Debug, PartialEq)]
enum Phase<E> {
    Ready,
    Creating,
    Open { open: Open },
    Aborting { error: StoreError<E> },
    Done,
}

/// What one event does to an open session.
enum Work<E, O> {
    Next { open: Open, action: Action<E, O> },
    Succeeded { output: O },
    Failed { upload_id: String, error: StoreError<E> },
    Ignored { open: Open },
}

impl View for UploadSession {
    type V = SessionView;

    closed spec fn view(&self) -> SessionView {
        SessionView { upload_id: self.upload_id@, parts: self.parts.deep_view() }
    }
}

impl View for Open {
    type V = OpenView;

    closed spec fn view(&self) -> OpenView {
        match *self {
            Open::Reading { session } => OpenView::Reading { session: session@ },
            Open::Uploading { session } => OpenView::Uploading { session: session@ },
            Open::Completing { upload_id } => OpenView::Completing { upload_id: upload_id@ },
        }
    }
}

impl<E> View for Phase<E> {
    type V = PhaseView<E>;

    closed spec fn view(&self) -> PhaseView<E> {
        match *self {
            Phase::Ready => PhaseView::Ready,
            Phase::Creating => PhaseView::Creating,
            Phase::Open { open } => PhaseView::Open { open: open@ },
            Phase::Aborting { error } => PhaseView::Aborting { error },
            Phase::Done => PhaseView::Done,
        }
    }
}

impl<E, O> View for Work<E, O> {
    type V = WorkView<E, O>;

    closed spec fn view(&self) -> WorkView<E, O> {
        match *self {
            Work::Next { open, action } => WorkView::Next { open: open@, action: action@ },
            Work::Succeeded { output } => WorkView::Succeeded { output },
            Work::Failed { upload_id, error } => WorkView::Failed { upload_id: upload_id@, error },
            Work::Ignored { open } => WorkView::Ignored { open: open@ },
        }
    }
}

/// The upload of one object in parts of a fixed size, from the first call
/// to the result.
#[derive(Debug, PartialEq)]
pub struct MultipartUpload<E> {
    target: UploadTarget,
    part_size: usize,
    phase: Phase<E>,
}

impl<E> View for MultipartUpload<E> {
    type V = MachineView<E>;

    closed spec fn view(&self) -> MachineView<E> {
        MachineView { target: self.target@, part_size: self.part_size as nat, phase: self.phase@ }
    }
}

/// The records of `parts` followed by that of `part`.
proof fn lemma_push_part(before: Seq<CompletedPart>, after: Seq<CompletedPart>, part: CompletedPart)
    requires
        after == before.push(part),
    ensures
        Seq::new(after.len(), |i: int| after[i].deep_view()) == Seq::new(
            before.len(),
            |i: int| before[i].deep_view(),
        ).push(part@),
{
    assert(Seq::new(after.len(), |i: int| after[i].deep_view()) =~= Seq::new(
        before.len(),
        |i: int| before[i].deep_view(),
    ).push(part@));
}

/// The part-upload loop: what `event` does to the open session `open`.
fn session_work<E, O>(
    target: &UploadTarget,
    part_size: usize,
    open: Open,
    event: Event<E, O>,
) -> (done: Work<E, O>)
    ensures
        done@ == work(target@, part_size as nat, open@, event@),
{
    match open {
        Open::Reading { session } => match event {
            Event::ChunkRead { buffer, size } => {
                if size == 0 {
                    let request = target.complete_session_request(
                        &session.upload_id,
                        session.parts,
                    );
                    Work::Next {
                        open: Open::Completing { upload_id: session.upload_id },
                        action: Action::CompleteSession(request),
                    }
                } else if session.parts.len() as u64 >= i64::MAX as u64 {
                    Work::Failed { upload_id: session.upload_id, error: StoreError::PartLimit }
                } else {
                    let part_number: i64 = session.parts.len() as i64 + 1;
                    let mut body = buffer;
                    body.truncate(size);
                    let request = target.upload_part_request(
                        &session.upload_id,
                        part_number,
                        body,
                    );
                    Work::Next {
                        open: Open::Uploading { session },
                        action: Action::UploadPart(request),
                    }
                }
            },
            Event::Failed { cause } => Work::Failed {
                upload_id: session.upload_id,
                error: StoreError::SourceRead { cause },
            },
            _ => Work::Ignored { open: Open::Reading { session } },
        },
        Open::Uploading { session } => match event {
            Event::PartUploaded { e_tag } => {
                let UploadSession { upload_id, mut parts } = session;
                let ghost before = parts@;
                if parts.len() as u64 >= i64::MAX as u64 {
                    Work::Failed { upload_id, error: StoreError::PartLimit }
                } else {
                    let part = CompletedPart { part_number: parts.len() as i64 + 1, e_tag };
                    proof {
                        lemma_push_part(before, before.push(part), part);
                    }
                    parts.push(part);
                    Work::Next {
                        open: Open::Reading { session: UploadSession { upload_id, parts } },
                        action: Action::ReadChunk { capacity: part_size },
                    }
                }
            },
            Event::Failed { cause } => Work::Failed {
                upload_id: session.upload_id,
                error: StoreError::RemoteCall { call: RemoteCall::UploadPart, cause },
            },
            _ => Work::Ignored { open: Open::Uploading { session } },
        },
        Open::Completing { upload_id } => match event {
            Event::Completed { output } => Work::Succeeded { output },
            Event::Failed { cause } => Work::Failed {
                upload_id,
                error: StoreError::RemoteCall { call: RemoteCall::CompleteSession, cause },
            },
            _ => Work::Ignored { open: Open::Completing { upload_id } },
        },
    }
}

impl<E> MultipartUpload<E> {
    /// The upload of an object to `target` in parts of `part_size` bytes,
    /// before anything was asked of the store.
    pub fn new(target: UploadTarget, part_size: usize) -> (upload: Self)
        requires
            part_size > 0,
        ensures
            upload@ == initial::<E>(target@, part_size as nat),
    {
        MultipartUpload { target, part_size, phase: Phase::Ready }
    }

    /// Takes note of `event` and says what to do next.
    ///
    /// Returns the upload after the event, and the action that answers it.
    /// Where `event` answers nothing that is pending, there is no action and
    /// the upload is unchanged. After `Action::Finish` no event is answered.
    ///
    /// A session, once created, is resolved exactly once: by the completion
    /// call where every read and call succeeded, by the abort call as soon
    /// as one failed. The error handed out is the one that failed the
    /// upload, whatever the abort call did.
    pub fn handle<O>(self, event: Event<E, O>) -> (next: (Self, Option<Action<E, O>>))
        ensures
            (next.0@, next.1.deep_view()) == step(self@, event@),
    {
        let MultipartUpload { target, part_size, phase } = self;
        match phase {
            Phase::Ready => match event {
                Event::Begin => {
                    let request = target.create_session_request();
                    (
                        MultipartUpload { target, part_size, phase: Phase::Creating },
                        Some(Action::CreateSession(request)),
                    )
                },
                _ => (MultipartUpload { target, part_size, phase: Phase::Ready }, None),
            },
            Phase::Creating => match event {
                Event::SessionCreated { upload_id: Some(upload_id) } => {
                    let session = UploadSession { upload_id, parts: Vec::new() };
                    assert(session.parts.deep_view() =~= Seq::<PartView>::empty());
                    (
                        MultipartUpload {
                            target,
                            part_size,
                            phase: Phase::Open { open: Open::Reading { session } },
                        },
                        Some(Action::ReadChunk { capacity: part_size }),
                    )
                },
                Event::SessionCreated { upload_id: None } => (
                    MultipartUpload { target, part_size, phase: Phase::Done },
                    Some(
                        Action::Finish {
                            result: Err(
                                StoreError::Protocol { violation: Violation::MissingSessionId },
                            ),
                            abort_failure: None,
                        },
                    ),
                ),
                Event::Failed { cause } => (
                    MultipartUpload { target, part_size, phase: Phase::Done },
                    Some(
                        Action::Finish {
                            result: Err(
                                StoreError::RemoteCall { call: RemoteCall::CreateSession, cause },
                            ),
                            abort_failure: None,
                        },
                    ),
                ),
                _ => (MultipartUpload { target, part_size, phase: Phase::Creating }, None),
            },
            Phase::Open { open } => match session_work(&target, part_size, open, event) {
                Work::Next { open, action } => (
                    MultipartUpload { target, part_size, phase: Phase::Open { open } },
                    Some(action),
                ),
                Work::Succeeded { output } => (
                    MultipartUpload { target, part_size, phase: Phase::Done },
                    Some(Action::Finish { result: Ok(output), abort_failure: None }),
                ),
                Work::Failed { upload_id, error } => {
                    let request = target.abort_session_request(upload_id);
                    (
                        MultipartUpload { target, part_size, phase: Phase::Aborting { error } },
                        Some(Action::AbortSession(request)),
                    )
                },
                Work::Ignored { open } => (
                    MultipartUpload { target, part_size, phase: Phase::Open { open } },
                    None,
                ),
            },
            Phase::Aborting { error } => match event {
                Event::Aborted => (
                    MultipartUpload { target, part_size, phase: Phase::Done },
                    Some(Action::Finish { result: Err(error), abort_failure: None }),
                ),
                Event::Failed { cause } => (
                    MultipartUpload { target, part_size, phase: Phase::Done },
                    Some(Action::Finish { result: Err(error), abort_failure: Some(cause) }),
                ),
                _ => (
                    MultipartUpload { target, part_size, phase: Phase::Aborting { error } },
                    None,
                ),
            },
            Phase::Done => (MultipartUpload { target, part_size, phase: Phase::Done }, None),
        }
    }
}

/// The upload of a whole object in one put: the request that sends all of
/// `content` to `target`, or the failure to read the content.
pub fn single_put<E>(target: UploadTarget, content: Result<Vec<u8>, E>) -> (put: Result<
    PutObjectRequest,
    StoreError<E>,
>)
    ensures
        match content {
            Ok(bytes) => put is Ok && put->Ok_0@ == (PutObjectView {
                target: target@,
                body: bytes@,
            }),
            Err(cause) => put == Err::<PutObjectRequest, _>(StoreError::SourceRead { cause }),
        },
{
    match content {
        Ok(bytes) => Ok(target.put_object_request(bytes)),
        Err(cause) => Err(StoreError::SourceRead { cause }),
    }
}

} // verus!
