//! The blocks of a file that is being written: filling, opening and closing
//! them.

use vstd::prelude::*;
use vstd::slice::slice_subrange;

use crate::error::{Error, ErrorView, Result};
use crate::io::active_block::ActiveBlockWriter;
use crate::io::chunking::next_chunk;
use crate::io::file_writer::{GoosefsFileWriter, WriterFlags};
use crate::io::replica_write::{
    max_of, planned_replicas, replica_write_plan, required_replicas, ReplicaWritePlan,
    UNSATISFIABLE_DURABLE_MIN,
};
use crate::io::write_strategy::compute_block_id;

verus! {

/// The message of a chunk size of zero.
pub const EMPTY_CHUNKS: &'static str = "chunk_size must be > 0";

/// Where the filling of blocks stands.
#[derive(Debug, Clone, Copy, PartialEq, Eq, Structural)]
pub enum FillPhase {
    /// The next bytes are to be accepted into a block.
    Accept,
    /// Accepted bytes are to be sent: those from `from` up to what is accepted.
    Emit {
        /// The first byte that is neither sent nor pending.
        from: usize,
    },
    /// The filling has ended.
    Ended,
}

/// What the filling of blocks asks for.
#[derive(Debug)]
pub enum FillAction {
    /// Open the next block.
    OpenBlock,
    /// Send the bytes to the replicas of the current block.
    WriteChunk(Vec<u8>),
    /// Close the current block, and report where it is.
    CloseBlock,
    /// Return the result.
    Done(Result<()>),
}

/// The filling of blocks with the bytes of one write.
#[derive(Debug)]
pub struct FillOp {
    /// Number of bytes that were accepted into blocks.
    pub accepted: usize,
    /// Where the filling stands.
    pub phase: FillPhase,
}

/// Equality of the writers but for the pending bytes of the block.
pub open spec fn same_but_pending(w0: GoosefsFileWriter, w1: GoosefsFileWriter) -> bool {
    &&& w0.current_block is Some
    &&& w1.current_block is Some
    &&& w1 == (GoosefsFileWriter {
        current_block: Some(
            ActiveBlockWriter {
                pending_chunk: w1.current_block->0.pending_chunk,
                ..w0.current_block->0
            },
        ),
        ..w0
    })
}

/// The bytes that are accepted but not sent, when those from `from` on are not
/// pending yet.
pub open spec fn unsent(w: GoosefsFileWriter, data: Seq<u8>, from: int, accepted: int) -> Seq<u8> {
    w.current_block->0.pending_chunk@ + data.subrange(from, accepted)
}

/// A chunk of the accepted bytes is sent. If they do not fill one they become
/// pending; then the block is closed if it is full, and the filling ends if it
/// is not, because then no byte is left.
pub open spec fn emits(
    w0: GoosefsFileWriter,
    data: Seq<u8>,
    from: int,
    accepted: usize,
    op: FillOp,
    w1: GoosefsFileWriter,
    action: FillAction,
) -> bool {
    let stream = unsent(w0, data, from, accepted as int);
    let size = w0.policy.chunk_size as int;
    let block = w0.current_block->0;
    &&& op.accepted == accepted
    &&& same_but_pending(w0, w1)
    &&& if size == 0 {
        &&& w1 == w0
        &&& op.phase is Ended
        &&& action matches FillAction::Done(Err(e)) && e@ == (ErrorView::InvalidArgument {
            message: EMPTY_CHUNKS@,
        })
    } else if stream.len() >= size {
        &&& op.phase matches FillPhase::Emit { from: next } && from < next <= accepted && unsent(
            w1,
            data,
            next as int,
            accepted as int,
        ) == stream.skip(size)
        &&& action matches FillAction::WriteChunk(chunk) && chunk@ == stream.take(size)
    } else {
        &&& w1.current_block->0.pending_chunk@ == stream
        &&& if block.bytes_written == block.block_size {
            op.phase is Accept && action is CloseBlock
        } else {
            op.phase is Ended && action == FillAction::Done(Ok(()))
        }
    }
}

/// The number of bytes that the block takes of those that are left.
pub open spec fn taken(block: ActiveBlockWriter, left: int) -> int {
    let room = block.block_size - block.bytes_written;
    if room < left {
        room
    } else {
        left
    }
}

/// The writer after its block has accepted `n` more bytes.
pub open spec fn with_accepted(w: GoosefsFileWriter, n: int) -> GoosefsFileWriter {
    GoosefsFileWriter {
        current_block: Some(
            ActiveBlockWriter {
                bytes_written: (w.current_block->0.bytes_written + n) as u64,
                ..w.current_block->0
            },
        ),
        ..w
    }
}

/// The next bytes are accepted into the current block, which is opened before
/// if there is none with room.
pub open spec fn accepts(
    w0: GoosefsFileWriter,
    data: Seq<u8>,
    accepted: usize,
    op: FillOp,
    w1: GoosefsFileWriter,
    action: FillAction,
) -> bool {
    if accepted == data.len() {
        &&& w1 == w0
        &&& op.accepted == accepted
        &&& op.phase is Ended
        &&& action == FillAction::Done(Ok(()))
    } else if w0.current_block is None || w0.current_block->0.bytes_written
        == w0.current_block->0.block_size {
        &&& w1 == w0
        &&& op.accepted == accepted
        &&& op.phase is Accept
        &&& action is OpenBlock
    } else {
        let n = taken(w0.current_block->0, data.len() - accepted);
        emits(
            with_accepted(w0, n),
            data,
            accepted as int,
            (accepted + n) as usize,
            op,
            w1,
            action,
        )
    }
}

impl FillOp {
    /// Whether the filling can be in progress with these bytes: when bytes are
    /// to be sent there is a block, and it is full unless all are accepted.
    pub open spec fn wf(self, w: GoosefsFileWriter, data: Seq<u8>) -> bool {
        &&& self.accepted <= data.len()
        &&& self.phase matches FillPhase::Emit { from } ==> {
            &&& from <= self.accepted
            &&& w.current_block matches Some(b) && (b.bytes_written == b.block_size
                || self.accepted == data.len())
        }
    }

    fn emit(w: &mut GoosefsFileWriter, data: &[u8], from: usize, accepted: usize) -> (r: (
        FillOp,
        FillAction,
    ))
        requires
            old(w).wf(),
            (FillOp { accepted, phase: FillPhase::Emit { from } }).wf(*old(w), data@),
        ensures
            final(w).wf(),
            emits(*old(w), data@, from as int, accepted, r.0, *final(w), r.1),
            r.0.wf(*final(w), data@),
    {
        let chunk_size: usize = w.policy.chunk_size as usize;
        if chunk_size == 0 {
            return (
                FillOp { accepted, phase: FillPhase::Ended },
                FillAction::Done(Err(Error::InvalidArgument { message: EMPTY_CHUNKS.to_string() })),
            );
        }
        match w.current_block.take() {
            None => (FillOp { accepted, phase: FillPhase::Accept }, FillAction::OpenBlock),
            Some(block) => {
                let full = block.bytes_written == block.block_size;
                let mut pending = block.pending_chunk;
                let window = slice_subrange(data, 0, accepted);
                let ghost before = pending@;
                let (chunk, next) = next_chunk(&mut pending, window, from, chunk_size);
                w.current_block = Some(ActiveBlockWriter { pending_chunk: pending, ..block });
                proof {
                    assert(window@.skip(from as int) =~= data@.subrange(
                        from as int,
                        accepted as int,
                    ));
                    assert(window@.skip(next as int) =~= data@.subrange(
                        next as int,
                        accepted as int,
                    ));
                    let stream = unsent(*old(w), data@, from as int, accepted as int);
                    assert(stream =~= before + window@.skip(from as int));
                    if chunk is Some {
                        assert(unsent(*w, data@, next as int, accepted as int) =~= stream.skip(
                            chunk_size as int,
                        ));
                    }
                }
                match chunk {
                    Some(c) => (
                        FillOp { accepted, phase: FillPhase::Emit { from: next } },
                        FillAction::WriteChunk(c),
                    ),
                    None => if full {
                        (FillOp { accepted, phase: FillPhase::Accept }, FillAction::CloseBlock)
                    } else {
                        (FillOp { accepted, phase: FillPhase::Ended }, FillAction::Done(Ok(())))
                    },
                }
            },
        }
    }

    fn accept(w: &mut GoosefsFileWriter, data: &[u8], accepted: usize) -> (r: (FillOp, FillAction))
        requires
            old(w).wf(),
            accepted <= data@.len(),
        ensures
            final(w).wf(),
            accepts(*old(w), data@, accepted, r.0, *final(w), r.1),
            r.0.wf(*final(w), data@),
    {
        if accepted == data.len() {
            return (FillOp { accepted, phase: FillPhase::Ended }, FillAction::Done(Ok(())));
        }
        match w.current_block.take() {
            None => (FillOp { accepted, phase: FillPhase::Accept }, FillAction::OpenBlock),
            Some(block) => {
                let room: u64 = block.remaining();
                if room == 0 {
                    w.current_block = Some(block);
                    return (FillOp { accepted, phase: FillPhase::Accept }, FillAction::OpenBlock);
                }
                let left: usize = data.len() - accepted;
                let n: usize = if room < left as u64 {
                    room as usize
                } else {
                    left
                };
                let bytes_written: u64 = block.bytes_written + n as u64;
                w.current_block = Some(ActiveBlockWriter { bytes_written, ..block });
                proof {
                    assert(*w == with_accepted(
                        *old(w),
                        taken(old(w).current_block->0, data@.len() - accepted),
                    ));
                }
                FillOp::emit(w, data, accepted, accepted + n)
            },
        }
    }

    /// Starts to fill blocks with `data`.
    pub fn start(w: &mut GoosefsFileWriter, data: &[u8]) -> (r: (FillOp, FillAction))
        requires
            old(w).wf(),
        ensures
            final(w).wf(),
            accepts(*old(w), data@, 0, r.0, *final(w), r.1),
            r.0.wf(*final(w), data@),
    {
        FillOp::accept(w, data, 0)
    }

    /// Takes in the outcome of the last action. A failure ends the filling.
    pub fn step(self, w: &mut GoosefsFileWriter, data: &[u8], outcome: Result<()>) -> (r: (
        FillOp,
        FillAction,
    ))
        requires
            old(w).wf(),
            self.wf(*old(w), data@),
        ensures
            final(w).wf(),
            r.0.wf(*final(w), data@),
            match (self.phase, outcome) {
                (FillPhase::Accept, Ok(_)) => accepts(
                    *old(w),
                    data@,
                    self.accepted,
                    r.0,
                    *final(w),
                    r.1,
                ),
                (FillPhase::Emit { from }, Ok(_)) => emits(
                    *old(w),
                    data@,
                    from as int,
                    self.accepted,
                    r.0,
                    *final(w),
                    r.1,
                ),
                (_, o) => *final(w) == *old(w) && r.0.phase is Ended && r.1 == FillAction::Done(o),
            },
    {
        match (self.phase, outcome) {
            (FillPhase::Accept, Ok(_)) => FillOp::accept(w, data, self.accepted),
            (FillPhase::Emit { from }, Ok(_)) => FillOp::emit(w, data, from, self.accepted),
            (_, o) => (
                FillOp { accepted: self.accepted, phase: FillPhase::Ended },
                FillAction::Done(o),
            ),
        }
    }
}

/// Where the opening of a block stands.
#[derive(Debug, Clone, Copy, PartialEq, Eq, Structural)]
pub enum OpenBlockPhase {
    /// The block before is closed.
    ClosePrevious,
    /// The block is opened on the workers that the hash ring picks.
    Picked,
    /// The block is opened on any worker.
    AnyWorker,
    /// The opening has ended.
    Ended,
}

/// What the opening of a block asks for.
#[derive(Debug)]
pub enum OpenBlockAction {
    /// Close the current block, and report where it is.
    ClosePrevious,
    /// Open the replicas of a block.
    OpenReplicas {
        /// Identifier of the block.
        block_id: i64,
        /// Size of the block.
        block_size: u64,
        /// How many replicas.
        plan: ReplicaWritePlan,
        /// Whether any worker is tried, instead of those that the hash ring
        /// picks.
        use_all_workers: bool,
    },
    /// Return the result.
    Done(Result<()>),
}

/// The opening of the next block.
#[derive(Debug)]
pub struct OpenBlockOp {
    /// Where the opening stands.
    pub phase: OpenBlockPhase,
}

/// Whether `id` names the next block of the file.
pub open spec fn names_next_block(w: GoosefsFileWriter, id: i64) -> bool {
    let file_id: i64 = match w.file_info.file_id {
        Some(n) => n,
        None => 0,
    };
    &&& id >> 24 == file_id >> 24
    &&& (id as u64) & 0xff_ffff == (w.committed_block_ids@.len() as u64) & 0xff_ffff
}

/// Whether the settings ask for more durable replicas than are opened.
pub open spec fn unsatisfiable(w: GoosefsFileWriter) -> bool {
    let p = w.policy;
    let a = w.strategy.need_async_persist;
    required_replicas(
        a,
        p.file_replication_number,
        p.file_replication_durable,
        p.file_replication_durable_min,
    ) > planned_replicas(a, p.file_replication_number, p.file_replication_durable)
}

/// Whether `plan` is the replica plan of the writer's blocks.
pub open spec fn is_plan(w: GoosefsFileWriter, plan: ReplicaWritePlan) -> bool {
    let p = w.policy;
    let a = w.strategy.need_async_persist;
    let initial = planned_replicas(a, p.file_replication_number, p.file_replication_durable);
    &&& plan.initial_replicas == initial
    &&& plan.min_needed_replicas == required_replicas(
        a,
        p.file_replication_number,
        p.file_replication_durable,
        p.file_replication_durable_min,
    )
    &&& plan.max_retry_node == max_of(initial, p.file_write_max_node_retry as int)
}

/// The replicas of the next block are opened, unless the settings ask for more
/// durable replicas than there can be.
pub open spec fn opens_replicas(
    w: GoosefsFileWriter,
    use_all: bool,
    op: OpenBlockOp,
    action: OpenBlockAction,
) -> bool {
    if unsatisfiable(w) {
        &&& op.phase is Ended
        &&& action matches OpenBlockAction::Done(Err(e)) && e@ == (ErrorView::InvalidArgument {
            message: UNSATISFIABLE_DURABLE_MIN@,
        })
    } else {
        &&& op.phase == (if use_all {
            OpenBlockPhase::AnyWorker
        } else {
            OpenBlockPhase::Picked
        })
        &&& action matches OpenBlockAction::OpenReplicas {
            block_id,
            block_size,
            plan,
            use_all_workers,
        } && names_next_block(w, block_id) && block_size == w.block_size_spec() && is_plan(w, plan)
            && use_all_workers == use_all
    }
}

/// The writer with an open block.
pub open spec fn with_open_block(w: GoosefsFileWriter, block: ActiveBlockWriter) ->
    GoosefsFileWriter {
    GoosefsFileWriter {
        current_block: Some(block),
        flags: WriterFlags { block_opened: true, ..w.flags },
        ..w
    }
}

impl OpenBlockOp {
    fn ended(outcome: Result<()>) -> (r: (OpenBlockOp, OpenBlockAction))
        ensures
            r.0.phase is Ended,
            r.1 == OpenBlockAction::Done(outcome),
    {
        (OpenBlockOp { phase: OpenBlockPhase::Ended }, OpenBlockAction::Done(outcome))
    }

    fn open(w: &GoosefsFileWriter, use_all_workers: bool) -> (r: (OpenBlockOp, OpenBlockAction))
        ensures
            opens_replicas(*w, use_all_workers, r.0, r.1),
    {
        let file_id: i64 = match w.file_info.file_id {
            Some(n) => n,
            None => 0,
        };
        let index: usize = w.committed_block_ids.len();
        let block_id: i64 = compute_block_id(file_id, index as u64);
        match replica_write_plan(
            w.strategy.need_async_persist,
            w.policy.file_replication_number,
            w.policy.file_replication_durable,
            w.policy.file_replication_durable_min,
            w.policy.file_write_max_node_retry,
        ) {
            Err(e) => OpenBlockOp::ended(Err(e)),
            Ok(plan) => {
                let phase = if use_all_workers {
                    OpenBlockPhase::AnyWorker
                } else {
                    OpenBlockPhase::Picked
                };
                (
                    OpenBlockOp { phase },
                    OpenBlockAction::OpenReplicas {
                        block_id,
                        block_size: w.block_size(),
                        plan,
                        use_all_workers,
                    },
                )
            },
        }
    }

    /// Starts to open the next block. The current one is closed before.
    pub fn start(w: &GoosefsFileWriter) -> (r: (OpenBlockOp, OpenBlockAction))
        ensures
            if w.current_block is Some {
                r.0.phase is ClosePrevious && r.1 is ClosePrevious
            } else {
                opens_replicas(*w, false, r.0, r.1)
            },
    {
        if w.current_block.is_some() {
            (
                OpenBlockOp { phase: OpenBlockPhase::ClosePrevious },
                OpenBlockAction::ClosePrevious,
            )
        } else {
            OpenBlockOp::open(w, false)
        }
    }

    /// Takes in the outcome of the last action. Where replicas were opened, it
    /// carries the block. A block that could not be opened on the picked
    /// workers is tried once more on all of them.
    pub fn step(
        self,
        w: &mut GoosefsFileWriter,
        outcome: Result<Option<ActiveBlockWriter>>,
    ) -> (r: (OpenBlockOp, OpenBlockAction))
        requires
            old(w).wf(),
            old(w).flags.should_cache,
            outcome matches Ok(Some(b)) ==> old(w).fits(b),
            self.phase is Picked || self.phase is AnyWorker ==> (outcome is Ok ==> outcome->Ok_0
                is Some),
        ensures
            final(w).wf(),
            match (self.phase, outcome) {
                (OpenBlockPhase::ClosePrevious, Ok(_)) => {
                    *final(w) == *old(w) && opens_replicas(*old(w), false, r.0, r.1)
                },
                (OpenBlockPhase::Picked, Err(_)) => {
                    *final(w) == *old(w) && opens_replicas(*old(w), true, r.0, r.1)
                },
                (OpenBlockPhase::Picked, Ok(b)) | (OpenBlockPhase::AnyWorker, Ok(b)) => {
                    &&& *final(w) == with_open_block(*old(w), b->0)
                    &&& r.0.phase is Ended
                    &&& r.1 == OpenBlockAction::Done(Ok(()))
                },
                (_, Err(e)) => {
                    &&& *final(w) == *old(w)
                    &&& r.0.phase is Ended
                    &&& r.1 == OpenBlockAction::Done(Err(e))
                },
                (OpenBlockPhase::Ended, Ok(_)) => {
                    &&& *final(w) == *old(w)
                    &&& r.0.phase is Ended
                    &&& r.1 == OpenBlockAction::Done(Ok(()))
                },
            },
    {
        match (self.phase, outcome) {
            (OpenBlockPhase::ClosePrevious, Ok(_)) => OpenBlockOp::open(w, false),
            (OpenBlockPhase::Picked, Err(_)) => OpenBlockOp::open(w, true),
            (OpenBlockPhase::Ended, Ok(_)) => OpenBlockOp::ended(Ok(())),
            (_, Ok(block)) => {
                w.current_block = block;
                w.flags.block_opened = true;
                OpenBlockOp::ended(Ok(()))
            },
            (_, Err(e)) => OpenBlockOp::ended(Err(e)),
        }
    }
}

} // verus!
