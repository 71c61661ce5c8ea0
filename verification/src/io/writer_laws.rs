//! Laws of the file writer.

use vstd::prelude::*;

use crate::error::{Error, Result};
use crate::io::file_writer::{
    write_goes_on, write_starts, GoosefsFileWriter, WriteAction, WriteOp, WritePhase,
};
use crate::io::writer_blocks::{accepts, emits, taken, unsent, FillAction, FillOp, FillPhase};
use crate::io::writer_close::{
    close_block_goes_on, close_block_starts, CloseBlockAction, CloseBlockOp,
};
use crate::io::writer_end::{
    cancel_starts, close_goes_on, close_starts, given_up_on_drop, CancelAction, CancelOp,
    CloseAction, CloseOp, Remains,
};
use crate::proto::{CompleteFileOptions, FileLocation};

verus! {

/// A writer that was closed or cancelled takes no bytes, and refusing them does
/// not change it.
pub proof fn law_ended_writer_takes_no_bytes(
    w0: GoosefsFileWriter,
    w1: GoosefsFileWriter,
    len: usize,
    op: WriteOp,
    action: WriteAction,
)
    requires
        w0.ended(),
        write_starts(w0, w1, len, op, action),
    ensures
        w1 == w0,
        action matches WriteAction::Done(Err(_)),
{
}

/// The bytes of a write are counted once, when the write succeeds, whatever
/// streams they went to; a write that fails counts nothing.
pub proof fn law_bytes_are_counted_once(
    op0: WriteOp,
    w0: GoosefsFileWriter,
    outcome: Result<()>,
    op1: WriteOp,
    w1: GoosefsFileWriter,
    action: WriteAction,
)
    requires
        w0.wf(),
        op0.wf(w0),
        !(op0.phase is Ended),
        write_goes_on(op0, w0, outcome, op1, w1, action),
    ensures
        action == WriteAction::Done(Ok(())) ==> w1.total_bytes_written == w0.total_bytes_written
            + op0.len,
        action != WriteAction::Done(Ok(())) ==> w1.total_bytes_written == w0.total_bytes_written,
{
}

/// A write that falls back to the storage sends all of its bytes there, also
/// those that the cache had taken.
pub proof fn law_fall_back_sends_every_byte(
    op0: WriteOp,
    w0: GoosefsFileWriter,
    outcome: Result<()>,
    op1: WriteOp,
    w1: GoosefsFileWriter,
    action: WriteAction,
    error: Error,
)
    requires
        w0.wf(),
        op0.wf(w0),
        op0.phase == WritePhase::TearDown(error, false),
        write_goes_on(op0, w0, outcome, op1, w1, action),
    ensures
        action is SendUfs || action is OpenUfs,
        op1.len == op0.len,
        !w1.flags.should_cache,
        w1.flags.ufs_write_enabled,
        w1.strategy.create_ufs_file_options is Some,
        // Whatever went to the cache alone before would be missing.
        w1.strategy.ufs_stream || !w1.flags.block_opened,
{
}

/// Bytes that a block has accepted are sent in order and without loss: what was
/// not sent before is the chunk that is sent now, followed by what is not sent
/// afterwards.
pub proof fn law_accepted_bytes_are_sent_in_order(
    w0: GoosefsFileWriter,
    data: Seq<u8>,
    from: int,
    accepted: usize,
    op: FillOp,
    w1: GoosefsFileWriter,
    action: FillAction,
    chunk: Vec<u8>,
    next: usize,
)
    requires
        emits(w0, data, from, accepted, op, w1, action),
        action == FillAction::WriteChunk(chunk),
        op.phase == (FillPhase::Emit { from: next }),
        w0.policy.chunk_size > 0,
    ensures
        chunk@.len() == w0.policy.chunk_size,
        unsent(w0, data, from, accepted as int) == chunk@ + unsent(
            w1,
            data,
            next as int,
            accepted as int,
        ),
{
    let stream = unsent(w0, data, from, accepted as int);
    let size = w0.policy.chunk_size as int;
    assert(stream.take(size) + stream.skip(size) =~= stream);
}

/// A moment of the filling of blocks: what is asked for, the writer then, and the
/// writer once that has been done with success.
pub struct FillMoment {
    /// The operation.
    pub op: FillOp,
    /// What it asks for.
    pub asked: FillAction,
    /// The writer when it asks.
    pub before: GoosefsFileWriter,
    /// The writer when that is done.
    pub after: GoosefsFileWriter,
}

/// The bytes that the current block has accepted and not sent.
pub open spec fn pending(w: GoosefsFileWriter) -> Seq<u8> {
    match w.current_block {
        Some(b) => b.pending_chunk@,
        None => Seq::empty(),
    }
}

/// What was asked for was done: a chunk that is sent leaves the block's bytes as they
/// are, and a block is open, with no byte in it, or closed.
pub open spec fn performed(m: FillMoment) -> bool {
    &&& m.after.wf()
    &&& m.after.policy == m.before.policy
    &&& match m.asked {
        FillAction::WriteChunk(_) => {
            &&& m.after.current_block is Some
            &&& pending(m.after) == pending(m.before)
            &&& m.after.current_block->0.bytes_written == m.before.current_block->0.bytes_written
            &&& m.after.current_block->0.block_size == m.before.current_block->0.block_size
        },
        FillAction::OpenBlock => m.after.current_block is Some && pending(m.after).len() == 0,
        FillAction::CloseBlock => m.after.current_block is None,
        FillAction::Done(_) => m.after == m.before,
    }
}

/// The bytes that reach the replicas at a moment: the chunk that is sent, or what is
/// pending in a block that is closed.
pub open spec fn sent_at(m: FillMoment) -> Seq<u8> {
    match m.asked {
        FillAction::WriteChunk(chunk) => chunk@,
        FillAction::OpenBlock | FillAction::CloseBlock => pending(m.before),
        FillAction::Done(_) => Seq::empty(),
    }
}

/// The bytes that reach the replicas, one moment after the other.
pub open spec fn sent_in(run: Seq<FillMoment>) -> Seq<u8>
    decreases run.len(),
{
    if run.len() == 0 {
        Seq::empty()
    } else {
        sent_in(run.drop_last()) + sent_at(run.last())
    }
}

/// The operation goes on from one moment to the next.
pub open spec fn fill_follows(data: Seq<u8>, m0: FillMoment, m1: FillMoment) -> bool {
    match m0.op.phase {
        FillPhase::Accept => accepts(
            m0.after,
            data,
            m0.op.accepted,
            m1.op,
            m1.before,
            m1.asked,
        ),
        FillPhase::Emit { from } => emits(
            m0.after,
            data,
            from as int,
            m0.op.accepted,
            m1.op,
            m1.before,
            m1.asked,
        ),
        FillPhase::Ended => false,
    }
}

/// The moments of the filling of blocks with `data`, from its start on, in which all
/// that was asked for succeeded.
pub open spec fn fill_run(w: GoosefsFileWriter, data: Seq<u8>, run: Seq<FillMoment>) -> bool {
    &&& run.len() > 0
    &&& accepts(w, data, 0, run[0].op, run[0].before, run[0].asked)
    &&& forall|i: int| 0 <= i < run.len() ==> performed(#[trigger] run[i])
    &&& forall|i: int|
        0 < i < run.len() ==> fill_follows(data, run[i - 1], #[trigger] run[i])
}

/// The accepted bytes that have not been sent when a moment asks.
pub open spec fn unsent_at(data: Seq<u8>, m: FillMoment) -> Seq<u8> {
    match (m.asked, m.op.phase) {
        (FillAction::WriteChunk(chunk), FillPhase::Emit { from }) => chunk@ + unsent(
            m.before,
            data,
            from as int,
            m.op.accepted as int,
        ),
        _ => pending(m.before),
    }
}

/// Whether the current block is full, unless all bytes are accepted.
spec fn full_or_done(w: GoosefsFileWriter, data: Seq<u8>, accepted: int) -> bool {
    w.current_block matches Some(b) && (b.bytes_written == b.block_size || accepted == data.len())
}

/// What holds at a moment of a run.
spec fn in_step(m: FillMoment, data: Seq<u8>) -> bool {
    &&& m.before.policy.chunk_size > 0
    &&& m.op.accepted <= data.len()
    &&& match m.asked {
        FillAction::WriteChunk(_) => m.op.phase matches FillPhase::Emit { from } && from
            <= m.op.accepted && full_or_done(m.before, data, m.op.accepted as int),
        FillAction::Done(outcome) => m.op.phase is Ended && outcome is Ok && m.op.accepted
            == data.len(),
        _ => m.op.phase is Accept,
    }
}

proof fn lemma_emitted(
    w: GoosefsFileWriter,
    data: Seq<u8>,
    from: int,
    accepted: usize,
    m: FillMoment,
)
    requires
        w.policy.chunk_size > 0,
        full_or_done(w, data, accepted as int),
        0 <= from <= accepted <= data.len(),
        emits(w, data, from, accepted, m.op, m.before, m.asked),
    ensures
        in_step(m, data),
        m.op.accepted == accepted,
        unsent_at(data, m) == unsent(w, data, from, accepted as int),
{
    let stream = unsent(w, data, from, accepted as int);
    let size = w.policy.chunk_size as int;
    if stream.len() >= size {
        assert(stream.take(size) + stream.skip(size) =~= stream);
    }
}

proof fn lemma_accepted(w: GoosefsFileWriter, data: Seq<u8>, accepted: usize, m: FillMoment)
    requires
        w.wf(),
        w.policy.chunk_size > 0,
        accepted <= data.len() <= usize::MAX,
        accepts(w, data, accepted, m.op, m.before, m.asked),
    ensures
        in_step(m, data),
        accepted <= m.op.accepted,
        unsent_at(data, m) == pending(w) + data.subrange(accepted as int, m.op.accepted as int),
{
    if accepted == data.len() || w.current_block is None || w.current_block->0.bytes_written
        == w.current_block->0.block_size {
        assert(pending(w) + data.subrange(accepted as int, accepted as int) =~= pending(w));
    } else {
        let n = taken(w.current_block->0, data.len() - accepted);
        let next = crate::io::writer_blocks::with_accepted(w, n);
        lemma_emitted(next, data, accepted as int, (accepted + n) as usize, m);
    }
}

proof fn lemma_fill_step(data: Seq<u8>, m0: FillMoment, m1: FillMoment)
    requires
        data.len() <= usize::MAX,
        in_step(m0, data),
        performed(m0),
        fill_follows(data, m0, m1),
    ensures
        in_step(m1, data),
        m0.op.accepted <= m1.op.accepted,
        sent_at(m0) + unsent_at(data, m1) == unsent_at(data, m0) + data.subrange(
            m0.op.accepted as int,
            m1.op.accepted as int,
        ),
{
    match m0.op.phase {
        FillPhase::Accept => {
            lemma_accepted(m0.after, data, m0.op.accepted, m1);
            let more = data.subrange(m0.op.accepted as int, m1.op.accepted as int);
            assert(pending(m0.after) + more =~= more);
        },
        FillPhase::Emit { from } => {
            lemma_emitted(m0.after, data, from as int, m0.op.accepted, m1);
            let none = data.subrange(m0.op.accepted as int, m0.op.accepted as int);
            assert(unsent_at(data, m0) + none =~= unsent_at(data, m0));
        },
        FillPhase::Ended => {},
    }
}

proof fn lemma_earlier_run(w: GoosefsFileWriter, data: Seq<u8>, run: Seq<FillMoment>)
    requires
        fill_run(w, data, run),
        run.len() > 1,
    ensures
        fill_run(w, data, run.drop_last()),
        performed(run.drop_last().last()),
        fill_follows(data, run.drop_last().last(), run.last()),
{
    let earlier = run.drop_last();
    assert(performed(run[run.len() - 2]));
    assert(fill_follows(data, run[run.len() - 2], run[run.len() - 1]));
    assert forall|i: int| 0 <= i < earlier.len() implies performed(#[trigger] earlier[i]) by {
        assert(performed(run[i]));
    }
    assert forall|i: int| 0 < i < earlier.len() implies fill_follows(
        data,
        earlier[i - 1],
        #[trigger] earlier[i],
    ) by {
        assert(fill_follows(data, run[i - 1], run[i]));
    }
}

proof fn lemma_regrouped(
    sent: Seq<u8>,
    now: Seq<u8>,
    unsent0: Seq<u8>,
    unsent1: Seq<u8>,
    start: Seq<u8>,
    data: Seq<u8>,
    from: int,
    to: int,
)
    requires
        0 <= from <= to <= data.len(),
        sent + unsent0 == start + data.take(from),
        now + unsent1 == unsent0 + data.subrange(from, to),
    ensures
        sent + now + unsent1 == start + data.take(to),
{
    let more = data.subrange(from, to);
    assert(sent + now + unsent1 =~= sent + (now + unsent1));
    assert(sent + (unsent0 + more) =~= sent + unsent0 + more);
    assert(start + data.take(from) + more =~= start + data.take(to));
}

proof fn lemma_fill_run(w: GoosefsFileWriter, data: Seq<u8>, run: Seq<FillMoment>)
    requires
        w.wf(),
        w.policy.chunk_size > 0,
        data.len() <= usize::MAX,
        fill_run(w, data, run),
    ensures
        in_step(run.last(), data),
        sent_in(run.drop_last()) + unsent_at(data, run.last()) == pending(w) + data.take(
            run.last().op.accepted as int,
        ),
    decreases run.len(),
{
    let m = run.last();
    let earlier = run.drop_last();
    if run.len() == 1 {
        lemma_accepted(w, data, 0, m);
        assert(data.subrange(0, m.op.accepted as int) =~= data.take(m.op.accepted as int));
        assert(sent_in(earlier) + unsent_at(data, m) =~= unsent_at(data, m));
    } else {
        let m0 = earlier.last();
        lemma_earlier_run(w, data, run);
        lemma_fill_run(w, data, earlier);
        lemma_fill_step(data, m0, m);
        lemma_regrouped(
            sent_in(earlier.drop_last()),
            sent_at(m0),
            unsent_at(data, m0),
            unsent_at(data, m),
            pending(w),
            data,
            m0.op.accepted as int,
            m.op.accepted as int,
        );
    }
}

/// A write of which every part succeeds sends its bytes to the replicas in order,
/// each of them once, whatever blocks they fall into: what was sent, followed by what
/// is still pending, is what was pending before, followed by the bytes of the write.
pub proof fn law_written_bytes_are_sent_in_order(
    w: GoosefsFileWriter,
    data: Seq<u8>,
    run: Seq<FillMoment>,
)
    requires
        w.wf(),
        w.policy.chunk_size > 0,
        data.len() <= usize::MAX,
        fill_run(w, data, run),
        run.last().asked is Done,
    ensures
        sent_in(run) + pending(run.last().after) == pending(w) + data,
{
    lemma_fill_run(w, data, run);
    assert(performed(run[run.len() - 1]));
    assert(data.take(data.len() as int) =~= data);
    let before = sent_in(run.drop_last());
    assert(sent_in(run) =~= before);
}

/// A write fills a block no further than its size.
pub proof fn law_blocks_are_not_overfilled(
    w0: GoosefsFileWriter,
    data: Seq<u8>,
    accepted: usize,
    op: FillOp,
    w1: GoosefsFileWriter,
    action: FillAction,
)
    requires
        w0.wf(),
        accepted <= data.len(),
        data.len() <= usize::MAX,
        accepts(w0, data, accepted, op, w1, action),
    ensures
        w1.current_block matches Some(b) ==> b.bytes_written <= b.block_size,
        accepted <= op.accepted <= data.len(),
        w0.current_block is Some && w1.current_block is Some
            ==> w1.current_block->0.bytes_written - w0.current_block->0.bytes_written == op.accepted
            - accepted,
{
}

/// Closing a block that has bytes sends those that are pending before it is
/// flushed, so that all of its bytes are with the replicas.
pub proof fn law_pending_bytes_are_sent_before_closing(
    w0: GoosefsFileWriter,
    w1: GoosefsFileWriter,
    commit_location: bool,
    op: CloseBlockOp,
    action: CloseBlockAction,
)
    requires
        close_block_starts(w0, w1, commit_location, op, action),
        w0.current_block is Some,
        w0.current_block->0.bytes_written > 0,
    ensures
        match action {
            CloseBlockAction::WriteTail(tail) => tail == w0.current_block->0.pending_chunk,
            CloseBlockAction::Flush => w0.current_block->0.pending_chunk@.len() == 0,
            _ => false,
        },
{
}

/// Closing a block notes it at most once, and always if it succeeds on a block
/// whose streams were closed.
pub proof fn law_blocks_are_noted_once(
    op0: CloseBlockOp,
    w0: GoosefsFileWriter,
    outcome: Result<()>,
    op1: CloseBlockOp,
    w1: GoosefsFileWriter,
    action: CloseBlockAction,
)
    requires
        close_block_goes_on(op0, w0, outcome, op1, w1, action),
    ensures
        w1.committed_block_ids@ == w0.committed_block_ids@ || w1.committed_block_ids@
            == w0.committed_block_ids@.push(op0.block_id),
        w1.committed_block_ids@ != w0.committed_block_ids@ ==> op1.phase is Ended,
        (op0.phase is Streams || op0.phase is Commit) && (action matches CloseBlockAction::Done(
            Ok(_),
        )) ==> w1.committed_block_ids@ == w0.committed_block_ids@.push(op0.block_id),
{
}

/// Closing a writer a second time does nothing and succeeds, and so does
/// closing one that was cancelled, which stays cancelled.
pub proof fn law_close_is_idempotent(
    w0: GoosefsFileWriter,
    w1: GoosefsFileWriter,
    op: CloseOp,
    action: CloseAction,
)
    requires
        close_starts(w0, w1, op, action),
    ensures
        w1.flags.closed,
        w0.ended() ==> action == CloseAction::Done(Ok(())),
        w0.flags.closed ==> w1 == w0,
        w1.flags.cancelled == w0.flags.cancelled,
        w1.flags.completed == w0.flags.completed,
{
}

/// Cancelling a writer ends it, and cancelling it a second time, or after it was
/// closed, does nothing.
pub proof fn law_cancel_is_idempotent(
    w0: GoosefsFileWriter,
    w1: GoosefsFileWriter,
    op: CancelOp,
    action: CancelAction,
)
    requires
        cancel_starts(w0, w1, op, action),
    ensures
        w1.ended(),
        w0.ended() ==> w1 == w0 && action is Done,
        w1.flags.completed == w0.flags.completed,
{
}

/// A writer that goes out of use is cleaned up at most once, and never after it was
/// closed or cancelled.
pub proof fn law_dropped_writer_is_cleaned_up_once(
    w0: GoosefsFileWriter,
    w1: GoosefsFileWriter,
    w2: GoosefsFileWriter,
    first: Option<Remains>,
    second: Option<Remains>,
)
    requires
        given_up_on_drop(w0, w1, first),
        given_up_on_drop(w1, w2, second),
    ensures
        first is Some <==> !w0.ended(),
        second is None,
        w2 == w1,
{
}

/// What is cached of the path is dropped before closing reports success.
pub proof fn law_success_comes_after_invalidation(
    op0: CloseOp,
    w0: GoosefsFileWriter,
    outcome: Result<Option<FileLocation>>,
    op1: CloseOp,
    w1: GoosefsFileWriter,
    action: CloseAction,
)
    requires
        !(op0.phase is Ended),
        close_goes_on(op0, w0, outcome, op1, w1, action),
    ensures
        action == CloseAction::Done(Ok(())) ==> op0.phase is Invalidate,
        op1.phase is Invalidate <==> action is Invalidate,
{
}

/// A file is completed exactly when closing its writer ends with success.
pub proof fn law_completed_means_closed_with_success(
    op0: CloseOp,
    w0: GoosefsFileWriter,
    outcome: Result<Option<FileLocation>>,
    op1: CloseOp,
    w1: GoosefsFileWriter,
    action: CloseAction,
)
    requires
        !(op0.phase is Ended),
        !w0.flags.completed,
        close_goes_on(op0, w0, outcome, op1, w1, action),
    ensures
        w1.flags.completed <==> action == CloseAction::Done(Ok(())),
{
}

/// The stream to the storage and the current block are dealt with before the
/// master completes the file, and the length that it is told is the number of
/// bytes that were accepted.
pub proof fn law_completed_length_is_what_was_written(
    op0: CloseOp,
    w0: GoosefsFileWriter,
    outcome: Result<Option<FileLocation>>,
    op1: CloseOp,
    w1: GoosefsFileWriter,
    action: CloseAction,
    options: CompleteFileOptions,
)
    requires
        close_goes_on(op0, w0, outcome, op1, w1, action),
        action == CloseAction::Complete(options),
    ensures
        op0.phase is CloseBlock,
        outcome is Ok,
        options.ufs_length == Some(w0.total_bytes_written as i64),
        w0.strategy.need_async_persist && w0.flags.ufs_stream_completed ==> options.force_persisted
            == Some(true),
        !w0.strategy.need_async_persist ==> options.locations@.len() == 0,
{
}

} // verus!
