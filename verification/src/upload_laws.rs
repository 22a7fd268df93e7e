//! What holds of every multipart upload, proved of the protocol of
//! [`crate::upload_model`].

use crate::error::{RemoteCall, StoreError};
use crate::request::{
    abort_session_of, complete_session_of, create_session_of, upload_part_of, PartView, TargetView,
};
use crate::upload_model::{
    chunk_body, in_phase, initial, next_part, part_number_limit, run, step, ActionView, EventView,
    MachineView, OpenView, PhaseView, SessionView,
};
use vstd::arithmetic::div_mod::{
    lemma_basic_div, lemma_div_by_self, lemma_fundamental_div_mod, lemma_mod_bound,
    lemma_mod_self_0, lemma_small_mod,
};
use vstd::prelude::*;

verus! {

/// One read of the source: the buffer after the read, and the size that the
/// read returned.
pub type ReadView = (Seq<u8>, nat);

/// The upload with session `upload_id` open, `parts` uploaded and a read
/// pending.
pub open spec fn reading<E>(
    target: TargetView,
    part_size: nat,
    upload_id: Seq<char>,
    parts: Seq<PartView>,
) -> MachineView<E> {
    MachineView {
        target,
        part_size,
        phase: PhaseView::Open {
            open: OpenView::Reading { session: SessionView { upload_id, parts } },
        },
    }
}

/// The parts on record once the store has answered the uploads of parts
/// 1, 2, 3, ... with `e_tags`: numbered from 1 in upload order, without gaps.
pub open spec fn recorded_parts(e_tags: Seq<Option<Seq<char>>>) -> Seq<PartView> {
    Seq::new(e_tags.len(), |i: int| PartView { part_number: i + 1, e_tag: e_tags[i] })
}

/// The events of reading and uploading one part after the other: each of
/// `reads` is followed by the store's answer to the upload of what was read.
pub open spec fn part_events<E, O>(reads: Seq<ReadView>, e_tags: Seq<Option<Seq<char>>>) -> Seq<
    EventView<E, O>,
>
    decreases reads.len(),
{
    if reads.len() == 0 {
        Seq::empty()
    } else {
        part_events(reads.drop_last(), e_tags.drop_last()).push(
            EventView::ChunkRead { buffer: reads.last().0, size: reads.last().1 },
        ).push(EventView::PartUploaded { e_tag: e_tags.last() })
    }
}

/// The actions that answer [`part_events`]: each read is uploaded under the
/// next part number, and another read is asked for.
pub open spec fn part_actions<E, O>(
    target: TargetView,
    part_size: nat,
    upload_id: Seq<char>,
    reads: Seq<ReadView>,
) -> Seq<ActionView<E, O>>
    decreases reads.len(),
{
    if reads.len() == 0 {
        Seq::empty()
    } else {
        part_actions(target, part_size, upload_id, reads.drop_last()).push(
            ActionView::UploadPart(
                upload_part_of(
                    target,
                    upload_id,
                    reads.len() as int,
                    chunk_body(reads.last().0, reads.last().1),
                ),
            ),
        ).push(ActionView::ReadChunk { capacity: part_size })
    }
}

/// Feeding one more event means taking one more step.
pub proof fn lemma_run_push<E, O>(
    machine: MachineView<E>,
    events: Seq<EventView<E, O>>,
    event: EventView<E, O>,
)
    ensures
        run(machine, events.push(event)) == ({
            let before = run(machine, events);
            let last = step(before.0, event);
            match last.1 {
                Some(action) => (last.0, before.1.push(action)),
                None => (last.0, before.1),
            }
        }),
{
    assert(events.push(event).drop_last() =~= events);
}

/// Feeding `first + second` means feeding `first`, then `second`.
pub proof fn lemma_run_concat<E, O>(
    machine: MachineView<E>,
    first: Seq<EventView<E, O>>,
    second: Seq<EventView<E, O>>,
)
    ensures
        run(machine, first + second) == ({
            let before = run(machine, first);
            let after = run(before.0, second);
            (after.0, before.1 + after.1)
        }),
    decreases second.len(),
{
    let before = run(machine, first);
    if second.len() == 0 {
        assert(first + second =~= first);
        assert(before.1 + Seq::<ActionView<E, O>>::empty() =~= before.1);
    } else {
        let shorter = second.drop_last();
        lemma_run_concat(machine, first, shorter);
        assert(first + second =~= (first + shorter).push(second.last()));
        lemma_run_push(machine, first + shorter, second.last());
        assert(second =~= shorter.push(second.last()));
        lemma_run_push(before.0, shorter, second.last());
        let middle = run(before.0, shorter);
        let last = step(middle.0, second.last());
        match last.1 {
            Some(action) => {
                assert((before.1 + middle.1).push(action) =~= before.1 + middle.1.push(action));
            },
            None => {},
        }
    }
}

/// While no read comes back empty and nothing fails, the parts are uploaded
/// in the order read, numbered from 1, and recorded with the entity tags
/// that the store returned.
pub proof fn lemma_parts_in_order<E, O>(
    target: TargetView,
    part_size: nat,
    upload_id: Seq<char>,
    reads: Seq<ReadView>,
    e_tags: Seq<Option<Seq<char>>>,
)
    requires
        reads.len() == e_tags.len(),
        reads.len() <= part_number_limit(),
        forall|i: int| 0 <= i < reads.len() ==> (#[trigger] reads[i]).1 > 0,
    ensures
        run::<E, O>(
            reading(target, part_size, upload_id, Seq::empty()),
            part_events(reads, e_tags),
        ) == (
            reading::<E>(target, part_size, upload_id, recorded_parts(e_tags)),
            part_actions::<E, O>(target, part_size, upload_id, reads),
        ),
    decreases reads.len(),
{
    let start = reading::<E>(target, part_size, upload_id, Seq::empty());
    if reads.len() == 0 {
        assert(recorded_parts(e_tags) =~= Seq::empty());
    } else {
        let fewer = reads.drop_last();
        let tags = e_tags.drop_last();
        lemma_parts_in_order::<E, O>(target, part_size, upload_id, fewer, tags);
        let read = EventView::<E, O>::ChunkRead { buffer: reads.last().0, size: reads.last().1 };
        let answer = EventView::<E, O>::PartUploaded { e_tag: e_tags.last() };
        let events = part_events::<E, O>(fewer, tags);
        lemma_run_push(start, events, read);
        lemma_run_push(start, events.push(read), answer);
        assert(reads.last().1 > 0);
        let parts = recorded_parts(tags);
        assert(parts.push(next_part(parts, e_tags.last())) =~= recorded_parts(e_tags));
    }
}

/// The events of an upload in which nothing fails: the session is created
/// as `upload_id`, each of `reads` is uploaded and answered with the entity
/// tag at its place in `e_tags`, a last read returns nothing (leaving
/// `spare` in its buffer), and the completion call returns `output`.
pub open spec fn upload_events<E, O>(
    upload_id: Seq<char>,
    reads: Seq<ReadView>,
    e_tags: Seq<Option<Seq<char>>>,
    spare: Seq<u8>,
    output: O,
) -> Seq<EventView<E, O>> {
    seq![EventView::Begin, EventView::SessionCreated { upload_id: Some(upload_id) }]
        + part_events(reads, e_tags) + seq![
        EventView::ChunkRead { buffer: spare, size: 0 },
        EventView::Completed { output },
    ]
}

/// The actions of an upload in which nothing fails: the session is created,
/// each read is uploaded under the next part number, the session is
/// completed from all parts, and the completion's output is the result.
pub open spec fn upload_actions<E, O>(
    target: TargetView,
    part_size: nat,
    upload_id: Seq<char>,
    reads: Seq<ReadView>,
    e_tags: Seq<Option<Seq<char>>>,
    output: O,
) -> Seq<ActionView<E, O>> {
    seq![
        ActionView::CreateSession(create_session_of(target)),
        ActionView::ReadChunk { capacity: part_size },
    ] + part_actions(target, part_size, upload_id, reads) + seq![
        ActionView::CompleteSession(
            complete_session_of(target, upload_id, recorded_parts(e_tags)),
        ),
        ActionView::Finish { result: Ok(output), abort_failure: None },
    ]
}

/// The first two steps of every upload whose session is created: the
/// create-session call, then the first read.
proof fn lemma_session_opens<E, O>(target: TargetView, part_size: nat, upload_id: Seq<char>)
    ensures
        run::<E, O>(
            initial(target, part_size),
            seq![EventView::Begin, EventView::SessionCreated { upload_id: Some(upload_id) }],
        ) == (
            reading::<E>(target, part_size, upload_id, Seq::empty()),
            seq![
                ActionView::<E, O>::CreateSession(create_session_of(target)),
                ActionView::ReadChunk { capacity: part_size },
            ],
        ),
{
    let start = initial::<E>(target, part_size);
    let none = Seq::<EventView<E, O>>::empty();
    let begin = EventView::<E, O>::Begin;
    let created = EventView::<E, O>::SessionCreated { upload_id: Some(upload_id) };
    assert(seq![begin, created] =~= none.push(begin).push(created));
    lemma_run_push(start, none, begin);
    lemma_run_push(start, none.push(begin), created);
    assert(run(start, none.push(begin).push(created)).1 =~= seq![
        ActionView::<E, O>::CreateSession(create_session_of(target)),
        ActionView::ReadChunk { capacity: part_size },
    ]);
}

/// An upload in which nothing fails takes exactly the steps of
/// [`upload_actions`]: one upload-part call per non-empty read, numbered
/// from 1 in the order read, then one completion call that names every
/// part with its entity tag, and no abort call. Its result is the
/// completion's output.
///
/// With no non-empty read at all the completion call is still made, with
/// an empty list of parts.
pub proof fn lemma_upload_completes<E, O>(
    target: TargetView,
    part_size: nat,
    upload_id: Seq<char>,
    reads: Seq<ReadView>,
    e_tags: Seq<Option<Seq<char>>>,
    spare: Seq<u8>,
    output: O,
)
    requires
        reads.len() == e_tags.len(),
        reads.len() <= part_number_limit(),
        forall|i: int| 0 <= i < reads.len() ==> (#[trigger] reads[i]).1 > 0,
    ensures
        run::<E, O>(
            initial(target, part_size),
            upload_events(upload_id, reads, e_tags, spare, output),
        ) == (
            in_phase(initial::<E>(target, part_size), PhaseView::Done),
            upload_actions::<E, O>(target, part_size, upload_id, reads, e_tags, output),
        ),
{
    let start = initial::<E>(target, part_size);
    let opening = seq![
        EventView::<E, O>::Begin,
        EventView::SessionCreated { upload_id: Some(upload_id) },
    ];
    let parts = part_events::<E, O>(reads, e_tags);
    let end_of_source = EventView::<E, O>::ChunkRead { buffer: spare, size: 0 };
    let completed = EventView::<E, O>::Completed { output };
    lemma_session_opens::<E, O>(target, part_size, upload_id);
    lemma_parts_in_order::<E, O>(target, part_size, upload_id, reads, e_tags);
    lemma_run_concat(start, opening, parts);
    lemma_run_push(start, opening + parts, end_of_source);
    lemma_run_push(start, (opening + parts).push(end_of_source), completed);
    assert(upload_events::<E, O>(upload_id, reads, e_tags, spare, output) =~= (opening
        + parts).push(end_of_source).push(completed));
    let opened = seq![
        ActionView::<E, O>::CreateSession(create_session_of(target)),
        ActionView::ReadChunk { capacity: part_size },
    ];
    let uploaded = part_actions::<E, O>(target, part_size, upload_id, reads);
    assert(upload_actions::<E, O>(target, part_size, upload_id, reads, e_tags, output) =~= (opened
        + uploaded).push(
        ActionView::CompleteSession(
            complete_session_of(target, upload_id, recorded_parts(e_tags)),
        ),
    ).push(ActionView::Finish { result: Ok(output), abort_failure: None }));
}

/// The events of an upload whose last upload-part call fails: the session is
/// created as `upload_id`, all of `reads` but the last are uploaded and
/// answered with `e_tags`, the upload of the last one fails with `cause`,
/// and the abort call returns (`abort_failure` is `None`) or fails.
pub open spec fn failing_part_events<E, O>(
    upload_id: Seq<char>,
    reads: Seq<ReadView>,
    e_tags: Seq<Option<Seq<char>>>,
    cause: E,
    abort_failure: Option<E>,
) -> Seq<EventView<E, O>> {
    seq![EventView::Begin, EventView::SessionCreated { upload_id: Some(upload_id) }]
        + part_events(reads.drop_last(), e_tags) + seq![
        EventView::ChunkRead { buffer: reads.last().0, size: reads.last().1 },
        EventView::Failed { cause },
        match abort_failure {
            Some(failure) => EventView::Failed { cause: failure },
            None => EventView::Aborted,
        },
    ]
}

/// The actions that answer [`failing_part_events`].
pub open spec fn failing_part_actions<E, O>(
    target: TargetView,
    part_size: nat,
    upload_id: Seq<char>,
    reads: Seq<ReadView>,
    cause: E,
    abort_failure: Option<E>,
) -> Seq<ActionView<E, O>> {
    seq![
        ActionView::CreateSession(create_session_of(target)),
        ActionView::ReadChunk { capacity: part_size },
    ] + part_actions(target, part_size, upload_id, reads.drop_last()) + seq![
        ActionView::UploadPart(
            upload_part_of(
                target,
                upload_id,
                reads.len() as int,
                chunk_body(reads.last().0, reads.last().1),
            ),
        ),
        ActionView::AbortSession(abort_session_of(target, upload_id)),
        ActionView::Finish {
            result: Err(StoreError::RemoteCall { call: RemoteCall::UploadPart, cause }),
            abort_failure,
        },
    ]
}

/// Where the upload of part `reads.len()` fails, the session is created
/// once, the parts up to that one are sent and none after it, the session
/// is aborted once and never completed, and the result is the failure of
/// that upload-part call, whether or not the abort call succeeded.
pub proof fn lemma_failed_part_aborts<E, O>(
    target: TargetView,
    part_size: nat,
    upload_id: Seq<char>,
    reads: Seq<ReadView>,
    e_tags: Seq<Option<Seq<char>>>,
    cause: E,
    abort_failure: Option<E>,
)
    requires
        reads.len() == e_tags.len() + 1,
        reads.len() <= part_number_limit(),
        forall|i: int| 0 <= i < reads.len() ==> (#[trigger] reads[i]).1 > 0,
    ensures
        run::<E, O>(
            initial(target, part_size),
            failing_part_events(upload_id, reads, e_tags, cause, abort_failure),
        ) == (
            in_phase(initial::<E>(target, part_size), PhaseView::Done),
            failing_part_actions::<E, O>(
                target,
                part_size,
                upload_id,
                reads,
                cause,
                abort_failure,
            ),
        ),
{
    let start = initial::<E>(target, part_size);
    let opening = seq![
        EventView::<E, O>::Begin,
        EventView::SessionCreated { upload_id: Some(upload_id) },
    ];
    let sent = reads.drop_last();
    let parts = part_events::<E, O>(sent, e_tags);
    let read = EventView::<E, O>::ChunkRead { buffer: reads.last().0, size: reads.last().1 };
    let failed = EventView::<E, O>::Failed { cause };
    let aborted = match abort_failure {
        Some(failure) => EventView::<E, O>::Failed { cause: failure },
        None => EventView::Aborted,
    };
    lemma_session_opens::<E, O>(target, part_size, upload_id);
    assert forall|i: int| 0 <= i < sent.len() implies (#[trigger] sent[i]).1 > 0 by {
        assert(sent[i] == reads[i]);
    }
    lemma_parts_in_order::<E, O>(target, part_size, upload_id, sent, e_tags);
    lemma_run_concat(start, opening, parts);
    lemma_run_push(start, opening + parts, read);
    lemma_run_push(start, (opening + parts).push(read), failed);
    lemma_run_push(start, (opening + parts).push(read).push(failed), aborted);
    assert(reads.last().1 > 0);
    assert(failing_part_events::<E, O>(upload_id, reads, e_tags, cause, abort_failure) =~= (opening
        + parts).push(read).push(failed).push(aborted));
    let opened = seq![
        ActionView::<E, O>::CreateSession(create_session_of(target)),
        ActionView::ReadChunk { capacity: part_size },
    ];
    let uploaded = part_actions::<E, O>(target, part_size, upload_id, sent);
    assert(failing_part_actions::<E, O>(
        target,
        part_size,
        upload_id,
        reads,
        cause,
        abort_failure,
    ) =~= (opened + uploaded).push(
        ActionView::UploadPart(
            upload_part_of(
                target,
                upload_id,
                reads.len() as int,
                chunk_body(reads.last().0, reads.last().1),
            ),
        ),
    ).push(ActionView::AbortSession(abort_session_of(target, upload_id))).push(
        ActionView::Finish {
            result: Err(StoreError::RemoteCall { call: RemoteCall::UploadPart, cause }),
            abort_failure,
        },
    ));
}

/// In how many parts `length` bytes go up when each read fills its buffer
/// of `part_size` bytes as far as the source lasts.
pub open spec fn part_count(length: nat, part_size: nat) -> nat
    recommends
        part_size > 0,
{
    if length % part_size == 0 {
        length / part_size
    } else {
        length / part_size + 1
    }
}

/// The bytes of `data` that belong to the part at `index` (from 0).
pub open spec fn part_of(data: Seq<u8>, part_size: nat, index: int) -> Seq<u8> {
    let start = index * part_size;
    if start + part_size <= data.len() {
        data.subrange(start, start + part_size)
    } else {
        data.subrange(start, data.len() as int)
    }
}

/// The read at `index` (from 0) of a source that holds `data`, into a fresh
/// buffer of `part_size` zero bytes which the read fills as far as the
/// source lasts.
pub open spec fn full_read(data: Seq<u8>, part_size: nat, index: int) -> ReadView {
    let part = part_of(data, part_size, index);
    (part + Seq::new((part_size - part.len()) as nat, |i: int| 0u8), part.len())
}

/// The non-empty reads of a source that holds `data`, each into a buffer
/// of `part_size` bytes, where no read stops short.
pub open spec fn full_reads(data: Seq<u8>, part_size: nat) -> Seq<ReadView> {
    Seq::new(part_count(data.len(), part_size), |index: int| full_read(data, part_size, index))
}

/// Every part begins inside the data.
proof fn lemma_part_begins_inside(length: nat, part_size: nat, index: int)
    requires
        part_size > 0,
        0 <= index < part_count(length, part_size),
    ensures
        0 <= index * part_size < length,
{
    let whole = length as int / part_size as int;
    let rest = length as int % part_size as int;
    lemma_fundamental_div_mod(length as int, part_size as int);
    lemma_mod_bound(length as int, part_size as int);
    let most: int = if rest == 0 {
        whole - 1
    } else {
        whole
    };
    assert(0 <= index * part_size <= most * part_size) by (nonlinear_arith)
        requires
            0 <= index <= most,
            part_size > 0,
    ;
    assert(most * part_size < length) by (nonlinear_arith)
        requires
            length == part_size * whole + rest,
            part_size > 0,
            most == if rest == 0 {
                whole - 1
            } else {
                whole
            },
            0 <= rest,
    ;
}

/// What the full reads of a source are: none is empty, the part at `index`
/// holds the `part_size` bytes from `index * part_size` on (the last part,
/// what is left of them). Data of a whole number of part sizes goes up in
/// that many parts; data no longer than one part, in one part that holds
/// all of it; no data, in no part.
pub proof fn lemma_full_reads(data: Seq<u8>, part_size: nat)
    requires
        part_size > 0,
    ensures
        forall|index: int|
            0 <= index < full_reads(data, part_size).len() ==> {
                let read = #[trigger] full_reads(data, part_size)[index];
                &&& read.1 > 0
                &&& read.0.len() == part_size
                &&& chunk_body(read.0, read.1) == part_of(data, part_size, index)
            },
        data.len() % part_size == 0 ==> full_reads(data, part_size).len() == data.len()
            / part_size,
        data.len() % part_size == 0 ==> forall|index: int|
            0 <= index < full_reads(data, part_size).len() ==> (#[trigger] full_reads(
                data,
                part_size,
            )[index]).1 == part_size,
        0 < data.len() <= part_size ==> full_reads(data, part_size).len() == 1 && part_of(
            data,
            part_size,
            0,
        ) == data,
        data.len() == 0 ==> full_reads(data, part_size).len() == 0,
{
    let reads = full_reads(data, part_size);
    let length = data.len();
    lemma_fundamental_div_mod(length as int, part_size as int);
    lemma_mod_bound(length as int, part_size as int);
    assert forall|index: int| 0 <= index < reads.len() implies {
        let read = #[trigger] reads[index];
        &&& read.1 > 0
        &&& read.0.len() == part_size
        &&& chunk_body(read.0, read.1) == part_of(data, part_size, index)
        &&& (length % part_size == 0 ==> read.1 == part_size)
    } by {
        lemma_part_begins_inside(length, part_size, index);
        let part = part_of(data, part_size, index);
        let read = reads[index];
        assert(read == full_read(data, part_size, index));
        assert(chunk_body(read.0, read.1) =~= part);
        if length % part_size == 0 {
            let whole = length as int / part_size as int;
            assert(index * part_size + part_size <= length) by (nonlinear_arith)
                requires
                    0 <= index < whole,
                    length == part_size * whole,
                    part_size > 0,
            ;
        }
    }
    if 0 < length <= part_size {
        if length == part_size {
            lemma_mod_self_0(part_size as int);
            lemma_div_by_self(part_size as int);
        } else {
            lemma_small_mod(length, part_size);
            lemma_basic_div(length as int, part_size as int);
        }
        assert(part_of(data, part_size, 0) =~= data);
    }
    if length == 0 {
        lemma_small_mod(0, part_size);
        lemma_basic_div(0, part_size as int);
    }
}

/// An upload in which nothing fails and no read stops short sends `data`
/// in parts of `part_size` bytes, the last one holding what is left, then
/// completes the session from all of them.
///
/// Data of a whole number of part sizes goes up in that many parts, data
/// no longer than one part in one part that is all of it, and no data in
/// no part: the session is then completed from an empty list.
pub proof fn lemma_upload_in_full_reads<E, O>(
    target: TargetView,
    part_size: nat,
    data: Seq<u8>,
    upload_id: Seq<char>,
    e_tags: Seq<Option<Seq<char>>>,
    spare: Seq<u8>,
    output: O,
)
    requires
        part_size > 0,
        e_tags.len() == part_count(data.len(), part_size),
        e_tags.len() <= part_number_limit(),
    ensures
        run::<E, O>(
            initial(target, part_size),
            upload_events(upload_id, full_reads(data, part_size), e_tags, spare, output),
        ) == (
            in_phase(initial::<E>(target, part_size), PhaseView::Done),
            upload_actions::<E, O>(
                target,
                part_size,
                upload_id,
                full_reads(data, part_size),
                e_tags,
                output,
            ),
        ),
        data.len() % part_size == 0 ==> e_tags.len() == data.len() / part_size,
        0 < data.len() <= part_size ==> e_tags.len() == 1 && chunk_body(
            full_reads(data, part_size)[0].0,
            full_reads(data, part_size)[0].1,
        ) == data,
        data.len() == 0 ==> e_tags.len() == 0 && recorded_parts(e_tags) == Seq::<
            PartView,
        >::empty(),
{
    lemma_full_reads(data, part_size);
    lemma_upload_completes::<E, O>(
        target,
        part_size,
        upload_id,
        full_reads(data, part_size),
        e_tags,
        spare,
        output,
    );
    if data.len() == 0 {
        assert(recorded_parts(e_tags) =~= Seq::<PartView>::empty());
    }
}

/// The upload-part calls among [`part_actions`]: the one for the read at
/// `index` (from 0) carries what that read delivered, under part number
/// `index + 1`, and is followed by the request for another read.
pub proof fn lemma_part_actions_at<E, O>(
    target: TargetView,
    part_size: nat,
    upload_id: Seq<char>,
    reads: Seq<ReadView>,
)
    ensures
        part_actions::<E, O>(target, part_size, upload_id, reads).len() == 2 * reads.len(),
        forall|index: int|
            0 <= index < reads.len() ==> {
                let actions = part_actions::<E, O>(target, part_size, upload_id, reads);
                &&& actions[2 * index] == ActionView::<E, O>::UploadPart(
                    upload_part_of(
                        target,
                        upload_id,
                        index + 1,
                        chunk_body((#[trigger] reads[index]).0, reads[index].1),
                    ),
                )
                &&& actions[2 * index + 1] == ActionView::<E, O>::ReadChunk { capacity: part_size }
            },
    decreases reads.len(),
{
    if reads.len() > 0 {
        let fewer = reads.drop_last();
        lemma_part_actions_at::<E, O>(target, part_size, upload_id, fewer);
        let actions = part_actions::<E, O>(target, part_size, upload_id, reads);
        let before = part_actions::<E, O>(target, part_size, upload_id, fewer);
        assert forall|index: int| 0 <= index < reads.len() implies {
            &&& actions[2 * index] == ActionView::<E, O>::UploadPart(
                upload_part_of(
                    target,
                    upload_id,
                    index + 1,
                    chunk_body((#[trigger] reads[index]).0, reads[index].1),
                ),
            )
            &&& actions[2 * index + 1] == ActionView::<E, O>::ReadChunk { capacity: part_size }
        } by {
            if index < fewer.len() {
                assert(fewer[index] == reads[index]);
                assert(actions[2 * index] == before[2 * index]);
                assert(actions[2 * index + 1] == before[2 * index + 1]);
            }
        }
    }
}

/// How often each kind of action occurs.
pub struct Tally {
    pub creates: nat,
    pub reads: nat,
    pub uploads: nat,
    pub completes: nat,
    pub aborts: nat,
    pub finishes: nat,
}

/// `tally` with `action` counted in.
pub open spec fn counted<E, O>(tally: Tally, action: ActionView<E, O>) -> Tally {
    match action {
        ActionView::CreateSession(_) => Tally { creates: tally.creates + 1, ..tally },
        ActionView::ReadChunk { .. } => Tally { reads: tally.reads + 1, ..tally },
        ActionView::UploadPart(_) => Tally { uploads: tally.uploads + 1, ..tally },
        ActionView::CompleteSession(_) => Tally { completes: tally.completes + 1, ..tally },
        ActionView::AbortSession(_) => Tally { aborts: tally.aborts + 1, ..tally },
        ActionView::Finish { .. } => Tally { finishes: tally.finishes + 1, ..tally },
    }
}

/// How often each kind of action occurs among `actions`.
pub open spec fn tally<E, O>(actions: Seq<ActionView<E, O>>) -> Tally
    decreases actions.len(),
{
    if actions.len() == 0 {
        Tally { creates: 0, reads: 0, uploads: 0, completes: 0, aborts: 0, finishes: 0 }
    } else {
        counted(tally(actions.drop_last()), actions.last())
    }
}

/// Every upload-part call among `actions` carries the number of its place
/// among them, from 1: the numbers rise by one from call to call.
pub open spec fn uploads_numbered<E, O>(actions: Seq<ActionView<E, O>>) -> bool {
    forall|at: int|
        0 <= at < actions.len() ==> match #[trigger] actions[at] {
            ActionView::UploadPart(request) => request.part_number == tally(
                actions.take(at),
            ).uploads + 1,
            _ => true,
        }
}

/// Every completion call among `actions` names all the parts that were
/// uploaded before it, numbered from 1 in upload order.
pub open spec fn completions_name_all<E, O>(actions: Seq<ActionView<E, O>>) -> bool {
    forall|at: int|
        0 <= at < actions.len() ==> match #[trigger] actions[at] {
            ActionView::CompleteSession(request) => {
                &&& request.parts.len() == tally(actions.take(at)).uploads
                &&& parts_numbered(request.parts)
            },
            _ => true,
        }
}

/// The part at each place bears the number of that place, from 1.
pub open spec fn parts_numbered(parts: Seq<PartView>) -> bool {
    forall|at: int| 0 <= at < parts.len() ==> (#[trigger] parts[at]).part_number == at + 1
}

/// What the actions so far have to do with the phase the upload is in.
spec fn consistent<E, O>(machine: MachineView<E>, actions: Seq<ActionView<E, O>>) -> bool {
    let count = tally(actions);
    &&& uploads_numbered(actions)
    &&& completions_name_all(actions)
    &&& count.creates <= 1
    &&& count.completes <= 1
    &&& count.aborts <= 1
    &&& count.finishes <= 1
    &&& count.aborts == 1 ==> count.reads >= 1
    &&& count.completes == 1 ==> count.reads >= 1
    &&& count.reads >= 1 ==> count.creates == 1
    &&& match machine.phase {
        PhaseView::Ready => actions.len() == 0,
        PhaseView::Creating => {
            &&& count.creates == 1
            &&& count.reads == 0
            &&& count.uploads == 0
            &&& count.finishes == 0
        },
        PhaseView::Open { open: OpenView::Reading { session } } => {
            &&& count.reads == session.parts.len() + 1
            &&& count.uploads == session.parts.len()
            &&& count.completes == 0
            &&& count.aborts == 0
            &&& count.finishes == 0
            &&& parts_numbered(session.parts)
        },
        PhaseView::Open { open: OpenView::Uploading { session } } => {
            &&& count.reads == session.parts.len() + 1
            &&& count.uploads == session.parts.len() + 1
            &&& count.completes == 0
            &&& count.aborts == 0
            &&& count.finishes == 0
            &&& parts_numbered(session.parts)
        },
        PhaseView::Open { open: OpenView::Completing { .. } } => {
            &&& count.reads >= 1
            &&& count.completes == 1
            &&& count.aborts == 0
            &&& count.finishes == 0
        },
        PhaseView::Aborting { .. } => {
            &&& count.aborts == 1
            &&& count.finishes == 0
        },
        PhaseView::Done => {
            &&& count.creates == 1
            &&& count.finishes == 1
            &&& actions.len() > 0
            &&& match actions.last() {
                ActionView::Finish { result: Ok(_), abort_failure } => {
                    &&& count.completes == 1
                    &&& count.aborts == 0
                    &&& abort_failure is None
                },
                ActionView::Finish { result: Err(_), abort_failure } => {
                    &&& count.aborts == 1 <==> count.reads >= 1
                    &&& abort_failure is Some ==> count.aborts == 1
                },
                _ => false,
            }
        },
    }
}

/// Counting one more action.
proof fn lemma_tally_push<E, O>(actions: Seq<ActionView<E, O>>, action: ActionView<E, O>)
    ensures
        tally(actions.push(action)) == counted(tally(actions), action),
        forall|at: int|
            0 <= at <= actions.len() ==> #[trigger] actions.push(action).take(at) == actions.take(
                at,
            ),
        actions.take(actions.len() as int) == actions,
{
    assert(actions.push(action).drop_last() =~= actions);
    assert forall|at: int| 0 <= at <= actions.len() implies #[trigger] actions.push(action).take(
        at,
    ) == actions.take(at) by {
        assert(actions.push(action).take(at) =~= actions.take(at));
    }
    assert(actions.take(actions.len() as int) =~= actions);
}

/// A step keeps the actions consistent with the phase.
proof fn lemma_step_consistent<E, O>(
    machine: MachineView<E>,
    actions: Seq<ActionView<E, O>>,
    event: EventView<E, O>,
)
    requires
        consistent(machine, actions),
    ensures
        ({
            let next = step(machine, event);
            match next.1 {
                Some(action) => consistent(next.0, actions.push(action)),
                None => consistent(next.0, actions),
            }
        }),
{
    let next = step(machine, event);
    match next.1 {
        Some(action) => {
            let longer = actions.push(action);
            lemma_tally_push(actions, action);
            assert forall|at: int| 0 <= at < longer.len() implies match #[trigger] longer[at] {
                ActionView::UploadPart(request) => request.part_number == tally(
                    longer.take(at),
                ).uploads + 1,
                _ => true,
            } by {
                if at < actions.len() {
                    assert(longer[at] == actions[at]);
                }
            }
            assert forall|at: int| 0 <= at < longer.len() implies match #[trigger] longer[at] {
                ActionView::CompleteSession(request) => {
                    &&& request.parts.len() == tally(longer.take(at)).uploads
                    &&& parts_numbered(request.parts)
                },
                _ => true,
            } by {
                if at < actions.len() {
                    assert(longer[at] == actions[at]);
                }
            }
        },
        None => {},
    }
}

/// What holds of the actions of an upload whatever happens, that is, after
/// any events in any order.
///
/// - At most one session is created, and a result is handed out at most
///   once, as the last action; the upload is then done and stays so.
/// - A session is completed at most once and aborted at most once. It is
///   aborted only if it exists (the first read was asked for).
/// - A result that is a success follows a completion call and no abort
///   call. A result that is a failure follows an abort call exactly where
///   a session exists: no session is left unresolved, and none is aborted
///   after it was completed successfully.
/// - The upload-part calls carry the part numbers 1, 2, 3, ... in order,
///   and a completion call names all parts uploaded before it, so numbered.
pub proof fn lemma_session_resolved_once<E, O>(
    target: TargetView,
    part_size: nat,
    events: Seq<EventView<E, O>>,
)
    ensures
        ({
            let end = run(initial::<E>(target, part_size), events);
            let count = tally(end.1);
            &&& count.creates <= 1
            &&& count.completes <= 1
            &&& count.aborts <= 1
            &&& count.finishes <= 1
            &&& count.aborts == 1 ==> count.reads >= 1
            &&& count.finishes == 1 <==> end.0.phase is Done
            &&& end.0.phase is Open ==> count.aborts == 0
            &&& count.finishes == 1 ==> match end.1.last() {
                ActionView::Finish { result: Ok(_), abort_failure } => {
                    &&& count.completes == 1
                    &&& count.aborts == 0
                    &&& abort_failure is None
                },
                ActionView::Finish { result: Err(_), abort_failure } => {
                    &&& count.aborts == 1 <==> count.reads >= 1
                    &&& abort_failure is Some ==> count.aborts == 1
                },
                _ => false,
            }
            &&& uploads_numbered(end.1)
            &&& completions_name_all(end.1)
        }),
{
    lemma_run_consistent(target, part_size, events);
}

/// The actions of every run are consistent with the phase it ends in.
proof fn lemma_run_consistent<E, O>(
    target: TargetView,
    part_size: nat,
    events: Seq<EventView<E, O>>,
)
    ensures
        consistent(
            run(initial::<E>(target, part_size), events).0,
            run(initial::<E>(target, part_size), events).1,
        ),
    decreases events.len(),
{
    if events.len() > 0 {
        lemma_run_consistent(target, part_size, events.drop_last());
        let before = run(initial::<E>(target, part_size), events.drop_last());
        lemma_step_consistent(before.0, before.1, events.last());
    }
}

} // verus!
