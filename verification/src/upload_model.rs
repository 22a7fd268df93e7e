//! The multipart upload protocol as a mathematical state machine.
//!
//! The executable orchestrator of [`crate::upload`] refines [`step`]; the
//! theorems of [`crate::upload_laws`] are stated over [`run`].

use crate::error::{RemoteCall, StoreError, Violation};
use crate::request::{
    abort_session_of, complete_session_of, create_session_of, upload_part_of, AbortSessionView,
    CompleteSessionView, CreateSessionView, PartView, TargetView, UploadPartView,
};
use vstd::prelude::*;

verus! {

/// A multipart session on the store: its identifier and the parts uploaded
/// so far, in upload order.
pub struct SessionView {
    pub upload_id: Seq<char>,
    pub parts: Seq<PartView>,
}

/// A session that exists and is neither completed nor aborted, by the
/// answer it waits for.
pub enum OpenView {
    /// A read of the source is pending.
    Reading { session: SessionView },
    /// The upload of part `session.parts.len() + 1` is pending.
    Uploading { session: SessionView },
    /// The completion call is pending.
    Completing { upload_id: Seq<char> },
}

/// Where an upload stands.
pub enum PhaseView<E> {
    /// Nothing was asked of the store yet.
    Ready,
    /// The create-session call is pending; no session exists.
    Creating,
    /// A session exists and is unresolved.
    Open { open: OpenView },
    /// The abort call is pending; `error` is what made the upload fail.
    Aborting { error: StoreError<E> },
    /// The result was handed out.
    Done,
}

/// An upload as a mathematical value.
pub struct MachineView<E> {
    pub target: TargetView,
    pub part_size: nat,
    pub phase: PhaseView<E>,
}

/// What the caller reports to the orchestrator.
pub enum EventView<E, O> {
    /// The caller is ready to perform calls.
    Begin,
    /// The create-session call returned.
    SessionCreated { upload_id: Option<Seq<char>> },
    /// A read of the source returned `size`, having filled `buffer` up to there.
    ChunkRead { buffer: Seq<u8>, size: nat },
    /// The upload-part call returned.
    PartUploaded { e_tag: Option<Seq<char>> },
    /// The completion call returned.
    Completed { output: O },
    /// The abort call returned.
    Aborted,
    /// The pending call, or the pending read, failed.
    Failed { cause: E },
}

/// What the orchestrator asks the caller to do next.
pub enum ActionView<E, O> {
    CreateSession(CreateSessionView),
    /// Read up to `capacity` bytes of the source into a fresh buffer.
    ReadChunk { capacity: nat },
    UploadPart(UploadPartView),
    CompleteSession(CompleteSessionView),
    AbortSession(AbortSessionView),
    /// Hand `result` to whoever asked for the upload. `abort_failure` is set
    /// where the abort call itself failed; it never replaces the error in
    /// `result`.
    Finish { result: Result<O, StoreError<E>>, abort_failure: Option<E> },
}

/// What one event does to an open session.
pub enum WorkView<E, O> {
    /// The session stays open and `action` is next.
    Next { open: OpenView, action: ActionView<E, O> },
    /// The completion call succeeded.
    Succeeded { output: O },
    /// The upload failed; session `upload_id` has to be aborted.
    Failed { upload_id: Seq<char>, error: StoreError<E> },
    /// The event answers nothing that is pending.
    Ignored { open: OpenView },
}

/// The largest part number there is.
pub open spec fn part_number_limit() -> int {
    i64::MAX as int
}

/// The bytes that a read delivered: `buffer` cut down to the `size` that the
/// read returned.
pub open spec fn chunk_body(buffer: Seq<u8>, size: nat) -> Seq<u8> {
    if size <= buffer.len() {
        buffer.subrange(0, size as int)
    } else {
        buffer
    }
}

/// The record of the part that follows `parts`.
pub open spec fn next_part(parts: Seq<PartView>, e_tag: Option<Seq<char>>) -> PartView {
    PartView { part_number: parts.len() as int + 1, e_tag }
}

/// The identifier of an open session.
pub open spec fn session_id(open: OpenView) -> Seq<char> {
    match open {
        OpenView::Reading { session } => session.upload_id,
        OpenView::Uploading { session } => session.upload_id,
        OpenView::Completing { upload_id } => upload_id,
    }
}

/// The part-upload loop: what `event` does to the open session `open`.
///
/// A read that returns nothing ends the loop and the completion call is
/// made, with whatever parts there are. Any other read is uploaded as the
/// next part. Any failure, of a read or of a call, fails the upload.
pub open spec fn work<E, O>(
    target: TargetView,
    part_size: nat,
    open: OpenView,
    event: EventView<E, O>,
) -> WorkView<E, O> {
    match (open, event) {
        (OpenView::Reading { session }, EventView::ChunkRead { buffer, size }) => {
            if size == 0 {
                WorkView::Next {
                    open: OpenView::Completing { upload_id: session.upload_id },
                    action: ActionView::CompleteSession(
                        complete_session_of(target, session.upload_id, session.parts),
                    ),
                }
            } else if session.parts.len() >= part_number_limit() {
                WorkView::Failed { upload_id: session.upload_id, error: StoreError::PartLimit }
            } else {
                WorkView::Next {
                    open: OpenView::Uploading { session },
                    action: ActionView::UploadPart(
                        upload_part_of(
                            target,
                            session.upload_id,
                            session.parts.len() as int + 1,
                            chunk_body(buffer, size),
                        ),
                    ),
                }
            }
        },
        (OpenView::Reading { session }, EventView::Failed { cause }) => WorkView::Failed {
            upload_id: session.upload_id,
            error: StoreError::SourceRead { cause },
        },
        (OpenView::Uploading { session }, EventView::PartUploaded { e_tag }) => {
            if session.parts.len() >= part_number_limit() {
                WorkView::Failed { upload_id: session.upload_id, error: StoreError::PartLimit }
            } else {
                WorkView::Next {
                    open: OpenView::Reading {
                        session: SessionView {
                            upload_id: session.upload_id,
                            parts: session.parts.push(next_part(session.parts, e_tag)),
                        },
                    },
                    action: ActionView::ReadChunk { capacity: part_size },
                }
            }
        },
        (OpenView::Uploading { session }, EventView::Failed { cause }) => WorkView::Failed {
            upload_id: session.upload_id,
            error: StoreError::RemoteCall { call: RemoteCall::UploadPart, cause },
        },
        (OpenView::Completing { upload_id }, EventView::Completed { output }) => {
            WorkView::Succeeded { output }
        },
        (OpenView::Completing { upload_id }, EventView::Failed { cause }) => WorkView::Failed {
            upload_id,
            error: StoreError::RemoteCall { call: RemoteCall::CompleteSession, cause },
        },
        _ => WorkView::Ignored { open },
    }
}

/// The upload of everything to `target` in parts of `part_size`, before
/// anything was asked of the store.
pub open spec fn initial<E>(target: TargetView, part_size: nat) -> MachineView<E> {
    MachineView { target, part_size, phase: PhaseView::Ready }
}

/// `machine` in another phase.
pub open spec fn in_phase<E>(machine: MachineView<E>, phase: PhaseView<E>) -> MachineView<E> {
    MachineView { target: machine.target, part_size: machine.part_size, phase }
}

/// One step of the upload: the state after `event` and the action that
/// answers it, or no action where `event` answers nothing that is pending
/// (the state is then unchanged).
///
/// This is the one place that decides between completing and aborting: a
/// session is aborted exactly when it exists and the upload fails.
pub open spec fn step<E, O>(machine: MachineView<E>, event: EventView<E, O>) -> (
    MachineView<E>,
    Option<ActionView<E, O>>,
) {
    match machine.phase {
        PhaseView::Ready => match event {
            EventView::Begin => (
                in_phase(machine, PhaseView::Creating),
                Some(ActionView::CreateSession(create_session_of(machine.target))),
            ),
            _ => (machine, None),
        },
        PhaseView::Creating => match event {
            EventView::SessionCreated { upload_id: Some(upload_id) } => (
                in_phase(
                    machine,
                    PhaseView::Open {
                        open: OpenView::Reading {
                            session: SessionView { upload_id, parts: Seq::empty() },
                        },
                    },
                ),
                Some(ActionView::ReadChunk { capacity: machine.part_size }),
            ),
            EventView::SessionCreated { upload_id: None } => (
                in_phase(machine, PhaseView::Done),
                Some(
                    ActionView::Finish {
                        result: Err(
                            StoreError::Protocol { violation: Violation::MissingSessionId },
                        ),
                        abort_failure: None,
                    },
                ),
            ),
            EventView::Failed { cause } => (
                in_phase(machine, PhaseView::Done),
                Some(
                    ActionView::Finish {
                        result: Err(
                            StoreError::RemoteCall { call: RemoteCall::CreateSession, cause },
                        ),
                        abort_failure: None,
                    },
                ),
            ),
            _ => (machine, None),
        },
        PhaseView::Open { open } => match work(machine.target, machine.part_size, open, event) {
            WorkView::Next { open, action } => (
                in_phase(machine, PhaseView::Open { open }),
                Some(action),
            ),
            WorkView::Succeeded { output } => (
                in_phase(machine, PhaseView::Done),
                Some(ActionView::Finish { result: Ok(output), abort_failure: None }),
            ),
            WorkView::Failed { upload_id, error } => (
                in_phase(machine, PhaseView::Aborting { error }),
                Some(ActionView::AbortSession(abort_session_of(machine.target, upload_id))),
            ),
            WorkView::Ignored { open } => (machine, None),
        },
        PhaseView::Aborting { error } => match event {
            EventView::Aborted => (
                in_phase(machine, PhaseView::Done),
                Some(ActionView::Finish { result: Err(error), abort_failure: None }),
            ),
            EventView::Failed { cause } => (
                in_phase(machine, PhaseView::Done),
                Some(ActionView::Finish { result: Err(error), abort_failure: Some(cause) }),
            ),
            _ => (machine, None),
        },
        PhaseView::Done => (machine, None),
    }
}

/// The state and the actions, in order, after feeding `events` one by one.
pub open spec fn run<E, O>(machine: MachineView<E>, events: Seq<EventView<E, O>>) -> (
    MachineView<E>,
    Seq<ActionView<E, O>>,
)
    decreases events.len(),
{
    if events.len() == 0 {
        (machine, Seq::empty())
    } else {
        let before = run(machine, events.drop_last());
        let last = step(before.0, events.last());
        match last.1 {
            Some(action) => (last.0, before.1.push(action)),
            None => (last.0, before.1),
        }
    }
}

} // verus!
