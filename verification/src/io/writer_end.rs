//! The end of a write: closing, cancelling and abandoning a writer.

use vstd::prelude::*;

use crate::error::{Error, Result};
use crate::fs::options::DeleteOptions;
use crate::io::active_block::ActiveBlockWriter;
use crate::io::file_writer::{GoosefsFileWriter, WriterFlags};
use crate::io::write_strategy::{
    complete_file_locations, persist_options, resolve_persist_options, uuid_halves,
    uuid_to_fs_op_pid,
};
use crate::proto::{CompleteFileOptions, FileLocation, LoadMetadataPType};

verus! {

/// What a writer leaves behind that has to be cleaned up.
#[derive(Debug)]
pub struct Remains {
    /// Whether the stream to the storage is open.
    pub ufs_stream_open: bool,
    /// The block that is being written.
    pub block: Option<ActiveBlockWriter>,
    /// Identifiers of the blocks that were committed.
    pub committed_block_ids: Vec<i64>,
}

/// What the clean-up asks for.
#[derive(Debug)]
pub enum CleanupAction {
    /// Cancel the stream to the storage.
    CancelUfs,
    /// Cancel the replicas of the block.
    CancelBlock(ActiveBlockWriter),
    /// Have the master remove the blocks.
    RemoveBlocks(Vec<i64>),
    /// Have the master delete the file.
    DeleteFile(DeleteOptions),
    /// The clean-up is done.
    Done,
}

/// Where the clean-up stands.
#[derive(Debug, Clone, Copy, PartialEq, Eq, Structural)]
pub enum CleanupPhase {
    /// The stream to the storage is cancelled.
    Ufs,
    /// The replicas of the block are cancelled.
    Block,
    /// The blocks are removed.
    Remove,
    /// The file is deleted.
    Delete,
    /// The clean-up has ended.
    Ended,
}

/// The clean-up after a write that failed or was given up.
///
/// The open streams are cancelled, and the committed blocks are removed. The
/// file itself is deleted only if that fails, so that a retry finds its entry.
#[derive(Debug)]
pub struct CleanupOp {
    /// What is still to be cleaned up.
    pub rest: Remains,
    /// Where the clean-up stands.
    pub phase: CleanupPhase,
}

/// The clean-up goes on with the committed blocks, or ends if there is none.
pub open spec fn cleans_blocks(
    ids: Seq<i64>,
    op: CleanupOp,
    action: CleanupAction,
) -> bool {
    if ids.len() > 0 {
        op.phase is Remove && (action matches CleanupAction::RemoveBlocks(v) && v@ == ids)
    } else {
        op.phase is Ended && action is Done
    }
}

/// The clean-up goes on with the open block, or with the committed ones.
pub open spec fn cleans_block(
    block: Option<ActiveBlockWriter>,
    ids: Seq<i64>,
    op: CleanupOp,
    action: CleanupAction,
) -> bool {
    match block {
        Some(b) => {
            &&& op.phase is Block
            &&& op.rest.committed_block_ids@ == ids
            &&& action == CleanupAction::CancelBlock(b)
        },
        None => cleans_blocks(ids, op, action),
    }
}

impl CleanupOp {
    fn to_blocks(ids: Vec<i64>) -> (r: (CleanupOp, CleanupAction))
        ensures
            cleans_blocks(ids@, r.0, r.1),
    {
        let rest = Remains {
            ufs_stream_open: false,
            block: None,
            committed_block_ids: Vec::new(),
        };
        if ids.len() > 0 {
            (CleanupOp { rest, phase: CleanupPhase::Remove }, CleanupAction::RemoveBlocks(ids))
        } else {
            (CleanupOp { rest, phase: CleanupPhase::Ended }, CleanupAction::Done)
        }
    }

    fn to_block(block: Option<ActiveBlockWriter>, ids: Vec<i64>) -> (r: (CleanupOp, CleanupAction))
        ensures
            cleans_block(block, ids@, r.0, r.1),
    {
        match block {
            Some(b) => (
                CleanupOp {
                    rest: Remains { ufs_stream_open: false, block: None, committed_block_ids: ids },
                    phase: CleanupPhase::Block,
                },
                CleanupAction::CancelBlock(b),
            ),
            None => CleanupOp::to_blocks(ids),
        }
    }

    /// Starts to clean up.
    pub fn start(remains: Remains) -> (r: (CleanupOp, CleanupAction))
        ensures
            if remains.ufs_stream_open {
                r.0.phase is Ufs && r.0.rest == remains && r.1 is CancelUfs
            } else {
                cleans_block(remains.block, remains.committed_block_ids@, r.0, r.1)
            },
    {
        if remains.ufs_stream_open {
            (CleanupOp { rest: remains, phase: CleanupPhase::Ufs }, CleanupAction::CancelUfs)
        } else {
            CleanupOp::to_block(remains.block, remains.committed_block_ids)
        }
    }

    /// Takes in the outcome of the last action. Only a failure to remove the
    /// blocks makes a difference.
    pub fn step(self, outcome: Result<()>) -> (r: (CleanupOp, CleanupAction))
        ensures
            match self.phase {
                CleanupPhase::Ufs => cleans_block(
                    self.rest.block,
                    self.rest.committed_block_ids@,
                    r.0,
                    r.1,
                ),
                CleanupPhase::Block => cleans_blocks(
                    self.rest.committed_block_ids@,
                    r.0,
                    r.1,
                ),
                CleanupPhase::Remove => if outcome is Err {
                    r.0.phase is Delete && r.1 == CleanupAction::DeleteFile(
                        DeleteOptions { recursive: false, unchecked: true, goosefs_only: false },
                    )
                } else {
                    r.0.phase is Ended && r.1 is Done
                },
                _ => r.0.phase is Ended && r.1 is Done,
            },
    {
        match self.phase {
            CleanupPhase::Ufs => CleanupOp::to_block(
                self.rest.block,
                self.rest.committed_block_ids,
            ),
            CleanupPhase::Block => CleanupOp::to_blocks(self.rest.committed_block_ids),
            CleanupPhase::Remove => if outcome.is_err() {
                (
                    CleanupOp { rest: self.rest, phase: CleanupPhase::Delete },
                    CleanupAction::DeleteFile(DeleteOptions::for_cancel()),
                )
            } else {
                (CleanupOp { rest: self.rest, phase: CleanupPhase::Ended }, CleanupAction::Done)
            },
            _ => (CleanupOp { rest: self.rest, phase: CleanupPhase::Ended }, CleanupAction::Done),
        }
    }
}

/// The writer without open streams.
pub open spec fn without_streams(w: GoosefsFileWriter) -> GoosefsFileWriter {
    GoosefsFileWriter {
        flags: WriterFlags { ufs_stream_open: false, ..w.flags },
        ufs_worker_addr: None,
        current_block: None,
        ..w
    }
}

/// The writer goes out of use, and `r` is what has to be cleaned up.
pub open spec fn given_up_on_drop(
    w0: GoosefsFileWriter,
    w1: GoosefsFileWriter,
    r: Option<Remains>,
) -> bool {
    match r {
        None => w0.ended() && w1 == w0,
        Some(remains) => {
            &&& !w0.ended()
            &&& remains.ufs_stream_open == w0.flags.ufs_stream_open
            &&& remains.block == w0.current_block
            &&& remains.committed_block_ids == w0.committed_block_ids
            &&& w1.committed_block_ids@.len() == 0
            &&& w1 == (GoosefsFileWriter {
                flags: WriterFlags { cancelled: true, ufs_stream_open: false, ..w0.flags },
                current_block: None,
                committed_block_ids: w1.committed_block_ids,
                ..w0
            })
        },
    }
}

impl GoosefsFileWriter {
    /// Takes out what has to be cleaned up. The committed blocks stay noted.
    pub fn take_remains(&mut self) -> (r: Remains)
        requires
            old(self).wf(),
        ensures
            final(self).wf(),
            *final(self) == without_streams(*old(self)),
            r.ufs_stream_open == old(self).flags.ufs_stream_open,
            r.block == old(self).current_block,
            r.committed_block_ids@ == old(self).committed_block_ids@,
    {
        let ufs_stream_open = self.flags.ufs_stream_open;
        let block = self.current_block.take();
        self.flags.ufs_stream_open = false;
        self.ufs_worker_addr = None;
        Remains {
            ufs_stream_open,
            block,
            committed_block_ids: self.committed_block_ids.clone(),
        }
    }

    /// Gives up a writer that goes out of use. If it was neither closed nor
    /// cancelled it counts as cancelled from now on, and what has to be cleaned
    /// up is handed out; otherwise nothing happens.
    pub fn perform_drop_cleanup(&mut self) -> (r: Option<Remains>)
        requires
            old(self).wf(),
        ensures
            final(self).wf(),
            given_up_on_drop(*old(self), *final(self), r),
    {
        if self.flags.closed || self.flags.cancelled {
            return None;
        }
        let ufs_stream_open = self.flags.ufs_stream_open;
        let block = self.current_block.take();
        self.flags.cancelled = true;
        self.flags.ufs_stream_open = false;
        let mut ids: Vec<i64> = Vec::new();
        std::mem::swap(&mut ids, &mut self.committed_block_ids);
        Some(Remains { ufs_stream_open, block, committed_block_ids: ids })
    }
}

/// What a cancellation asks for.
#[derive(Debug)]
pub enum CancelAction {
    /// Clean up.
    Cleanup(Remains),
    /// Drop what is cached of the path.
    Invalidate,
    /// The cancellation is done; it never fails.
    Done,
}

/// Where a cancellation stands.
#[derive(Debug, Clone, Copy, PartialEq, Eq, Structural)]
pub enum CancelPhase {
    /// The write is cleaned up.
    Cleanup,
    /// What is cached of the path is dropped.
    Invalidate,
    /// The cancellation has ended.
    Ended,
}

/// The cancellation of a write.
#[derive(Debug)]
pub struct CancelOp {
    /// Where the cancellation stands.
    pub phase: CancelPhase,
}

/// The start of a cancellation.
pub open spec fn cancel_starts(
    w0: GoosefsFileWriter,
    w1: GoosefsFileWriter,
    op: CancelOp,
    action: CancelAction,
) -> bool {
    if w0.ended() {
        w1 == w0 && op.phase is Ended && action is Done
    } else {
        &&& w1 == without_streams(
            GoosefsFileWriter { flags: WriterFlags { cancelled: true, ..w0.flags }, ..w0 },
        )
        &&& op.phase is Cleanup
        &&& action matches CancelAction::Cleanup(remains) && remains.ufs_stream_open
            == w0.flags.ufs_stream_open && remains.block == w0.current_block
            && remains.committed_block_ids@ == w0.committed_block_ids@
    }
}

impl CancelOp {
    /// Starts to cancel. Nothing happens after the writer was closed or
    /// cancelled.
    pub fn start(w: &mut GoosefsFileWriter) -> (r: (CancelOp, CancelAction))
        requires
            old(w).wf(),
        ensures
            final(w).wf(),
            cancel_starts(*old(w), *final(w), r.0, r.1),
    {
        if w.flags.closed || w.flags.cancelled {
            return (CancelOp { phase: CancelPhase::Ended }, CancelAction::Done);
        }
        w.flags.cancelled = true;
        let remains = w.take_remains();
        (CancelOp { phase: CancelPhase::Cleanup }, CancelAction::Cleanup(remains))
    }

    /// Goes on after the last action.
    pub fn step(self) -> (r: (CancelOp, CancelAction))
        ensures
            if self.phase is Cleanup {
                r.0.phase is Invalidate && r.1 is Invalidate
            } else {
                r.0.phase is Ended && r.1 is Done
            },
    {
        match self.phase {
            CancelPhase::Cleanup => (
                CancelOp { phase: CancelPhase::Invalidate },
                CancelAction::Invalidate,
            ),
            _ => (CancelOp { phase: CancelPhase::Ended }, CancelAction::Done),
        }
    }
}

/// What the recovery of a file asks for.
#[derive(Debug)]
pub enum RecoverAction {
    /// Have the master delete its entry of the file.
    DeleteEntry(DeleteOptions),
    /// Have the master load the file from the storage.
    Reload {
        /// When metadata is loaded.
        load_type: LoadMetadataPType,
        /// Age up to which metadata counts as fresh.
        sync_interval_ms: i64,
    },
    /// Drop what is cached of the path.
    Invalidate,
    /// Return the result.
    Done(Result<()>),
}

/// Where the recovery of a file stands.
#[derive(Debug)]
pub enum RecoverPhase {
    /// The entry is deleted, because of an error.
    Delete(Error),
    /// The file is loaded from the storage, because of an error.
    Reload(Error),
    /// What is cached of the path is dropped.
    Invalidate,
    /// The recovery has ended.
    Ended,
}

/// The recovery of a file that is in the storage but could not be completed.
///
/// The master's entry is deleted, and the master reads the file from the
/// storage anew. If both succeed the write counts as successful; otherwise the
/// error of the completion stands.
#[derive(Debug)]
pub struct RecoverOp {
    /// Where the recovery stands.
    pub phase: RecoverPhase,
}

/// Whether the file is in the storage, so that it can be recovered from there.
pub open spec fn recoverable(w: GoosefsFileWriter) -> bool {
    (w.strategy.ufs_stream || w.strategy.need_async_persist) && w.flags.ufs_stream_completed
}

impl RecoverOp {
    fn ended(outcome: Result<()>) -> (r: (RecoverOp, RecoverAction))
        ensures
            r.0.phase is Ended,
            r.1 == RecoverAction::Done(outcome),
    {
        (RecoverOp { phase: RecoverPhase::Ended }, RecoverAction::Done(outcome))
    }

    /// Starts to recover from a failed completion.
    pub fn start(w: &GoosefsFileWriter, err: Error) -> (r: (RecoverOp, RecoverAction))
        ensures
            if recoverable(*w) {
                r.0.phase == RecoverPhase::Delete(err) && r.1 == RecoverAction::DeleteEntry(
                    DeleteOptions { recursive: false, unchecked: true, goosefs_only: true },
                )
            } else {
                r.0.phase is Ended && r.1 == RecoverAction::Done(Err(err))
            },
    {
        let persistable = w.strategy.ufs_stream || w.strategy.need_async_persist;
        if !persistable || !w.flags.ufs_stream_completed {
            return RecoverOp::ended(Err(err));
        }
        (
            RecoverOp { phase: RecoverPhase::Delete(err) },
            RecoverAction::DeleteEntry(DeleteOptions::goosefs_only_unchecked()),
        )
    }

    /// Takes in the outcome of the last action.
    pub fn step(self, outcome: Result<()>) -> (r: (RecoverOp, RecoverAction))
        ensures
            match (self.phase, outcome) {
                (RecoverPhase::Delete(e), Ok(_)) => {
                    &&& r.0.phase == RecoverPhase::Reload(e)
                    &&& r.1 == (RecoverAction::Reload {
                        load_type: LoadMetadataPType::Always,
                        sync_interval_ms: 0,
                    })
                },
                (RecoverPhase::Delete(e), Err(_)) | (RecoverPhase::Reload(e), Err(_)) => {
                    r.0.phase is Ended && r.1 == RecoverAction::Done(Err(e))
                },
                (RecoverPhase::Reload(_), Ok(_)) => r.0.phase is Invalidate && r.1 is Invalidate,
                (RecoverPhase::Invalidate, _) => {
                    r.0.phase is Ended && r.1 == RecoverAction::Done(Ok(()))
                },
                (RecoverPhase::Ended, o) => r.0.phase is Ended && r.1 == RecoverAction::Done(o),
            },
    {
        match self.phase {
            RecoverPhase::Delete(e) => match outcome {
                Ok(_) => (
                    RecoverOp { phase: RecoverPhase::Reload(e) },
                    RecoverAction::Reload {
                        load_type: LoadMetadataPType::Always,
                        sync_interval_ms: 0,
                    },
                ),
                Err(_) => RecoverOp::ended(Err(e)),
            },
            RecoverPhase::Reload(e) => match outcome {
                Ok(_) => (
                    RecoverOp { phase: RecoverPhase::Invalidate },
                    RecoverAction::Invalidate,
                ),
                Err(_) => RecoverOp::ended(Err(e)),
            },
            RecoverPhase::Invalidate => RecoverOp::ended(Ok(())),
            RecoverPhase::Ended => RecoverOp::ended(outcome),
        }
    }
}

/// What closing a writer asks for.
#[derive(Debug)]
pub enum CloseAction {
    /// Flush the stream to the storage.
    FlushUfs,
    /// Cancel the stream to the storage.
    CancelUfs,
    /// Close the stream to the storage.
    CloseUfs,
    /// Close the current block without reporting where it is.
    CloseBlock,
    /// Have the master complete the file.
    Complete(CompleteFileOptions),
    /// Recover from the failed completion.
    Recover(Error),
    /// Clean up.
    Cleanup(Remains),
    /// Drop what is cached of the path.
    Invalidate,
    /// Return the result.
    Done(Result<()>),
}

/// Where the closing of a writer stands.
#[derive(Debug)]
pub enum ClosePhase {
    /// The stream to the storage is flushed.
    FlushUfs,
    /// The stream to the storage is cancelled because of an error.
    CancelUfs(Error),
    /// The stream to the storage is closed.
    CloseUfs,
    /// The current block is closed.
    CloseBlock,
    /// The master completes the file.
    Complete,
    /// The file is recovered.
    Recover,
    /// The write is cleaned up because of an error.
    Cleanup(Error),
    /// What is cached of the path is dropped.
    Invalidate,
    /// The closing has ended.
    Ended,
}

/// The closing of a writer.
///
/// The stream to the storage is closed first, then the current block, and then
/// the master completes the file.
#[derive(Debug)]
pub struct CloseOp {
    /// Where the closing stands.
    pub phase: ClosePhase,
}

/// What the master is told when it completes the file.
pub open spec fn completes(
    w: GoosefsFileWriter,
    last: Option<FileLocation>,
    options: CompleteFileOptions,
) -> bool {
    let persist = persist_options(
        w.strategy.need_async_persist,
        w.flags.ufs_stream_completed,
        w.policy.file_persistence_initial_wait_time_ms,
    );
    &&& options.ufs_length == Some(w.total_bytes_written as i64)
    &&& options.operation_id matches Some(id) && id.most_significant_bits == Some(
        uuid_halves(w.operation_id).0 as i64,
    ) && id.least_significant_bits == Some(uuid_halves(w.operation_id).1 as i64)
    &&& options.locations@ == (if w.strategy.need_async_persist && last is Some {
        seq![last->0]
    } else {
        Seq::empty()
    })
    &&& options.force_persisted == persist.0
    &&& options.async_persist_options == persist.1
}

/// The writer is cleaned up, and then `e` is returned.
pub open spec fn gives_up(
    w0: GoosefsFileWriter,
    w1: GoosefsFileWriter,
    e: Error,
    op: CloseOp,
    action: CloseAction,
) -> bool {
    &&& w1 == without_streams(w0)
    &&& op.phase == ClosePhase::Cleanup(e)
    &&& action matches CloseAction::Cleanup(remains) && remains.ufs_stream_open
        == w0.flags.ufs_stream_open && remains.block == w0.current_block
        && remains.committed_block_ids@ == w0.committed_block_ids@
}

/// The start of the closing of a writer.
pub open spec fn close_starts(
    w0: GoosefsFileWriter,
    w1: GoosefsFileWriter,
    op: CloseOp,
    action: CloseAction,
) -> bool {
    let closed = GoosefsFileWriter { flags: WriterFlags { closed: true, ..w0.flags }, ..w0 };
    if w0.flags.closed {
        w1 == w0 && op.phase is Ended && action == CloseAction::Done(Ok(()))
    } else if w0.flags.cancelled {
        w1 == closed && op.phase is Ended && action == CloseAction::Done(Ok(()))
    } else if w0.flags.ufs_stream_open {
        &&& w1 == (GoosefsFileWriter {
            flags: WriterFlags { ufs_stream_open: false, ..closed.flags },
            ..closed
        })
        &&& op.phase is FlushUfs
        &&& action is FlushUfs
    } else {
        w1 == closed && op.phase is CloseBlock && action is CloseBlock
    }
}

/// A step of the closing of a writer.
pub open spec fn close_goes_on(
    op0: CloseOp,
    w0: GoosefsFileWriter,
    outcome: Result<Option<FileLocation>>,
    op1: CloseOp,
    w1: GoosefsFileWriter,
    action: CloseAction,
) -> bool {
    match (op0.phase, outcome) {
        (ClosePhase::FlushUfs, Ok(_)) => w1 == w0 && op1.phase is CloseUfs && action is CloseUfs,
        (ClosePhase::FlushUfs, Err(e)) => {
            w1 == w0 && op1.phase == ClosePhase::CancelUfs(e) && action is CancelUfs
        },
        (ClosePhase::CancelUfs(e), _) => gives_up(w0, w1, e, op1, action),
        (ClosePhase::CloseUfs, Ok(_)) => {
            &&& w1 == (GoosefsFileWriter {
                flags: WriterFlags { ufs_stream_completed: true, ..w0.flags },
                ufs_worker_addr: None,
                ..w0
            })
            &&& op1.phase is CloseBlock
            &&& action is CloseBlock
        },
        (ClosePhase::CloseUfs, Err(e)) | (ClosePhase::CloseBlock, Err(e)) => gives_up(
            w0,
            w1,
            e,
            op1,
            action,
        ),
        (ClosePhase::CloseBlock, Ok(last)) => {
            &&& w1 == w0
            &&& op1.phase is Complete
            &&& action matches CloseAction::Complete(options) && completes(w0, last, options)
        },
        (ClosePhase::Complete, Err(e)) => {
            w1 == w0 && op1.phase is Recover && action == CloseAction::Recover(e)
        },
        (ClosePhase::Complete, Ok(_)) | (ClosePhase::Recover, Ok(_)) => {
            w1 == w0 && op1.phase is Invalidate && action is Invalidate
        },
        (ClosePhase::Recover, Err(e)) | (ClosePhase::Cleanup(e), _) => {
            w1 == w0 && op1.phase is Ended && action == CloseAction::Done(Err(e))
        },
        (ClosePhase::Invalidate, _) => {
            &&& w1 == (GoosefsFileWriter {
                flags: WriterFlags { completed: true, ..w0.flags },
                ..w0
            })
            &&& op1.phase is Ended
            &&& action == CloseAction::Done(Ok(()))
        },
        (ClosePhase::Ended, Ok(_)) => {
            w1 == w0 && op1.phase is Ended && action == CloseAction::Done(Ok(()))
        },
        (ClosePhase::Ended, Err(e)) => {
            w1 == w0 && op1.phase is Ended && action == CloseAction::Done(Err(e))
        },
    }
}

impl CloseOp {
    /// Whether the operation can be in progress: the writer is closed but was
    /// not cancelled.
    pub open spec fn wf(self, w: GoosefsFileWriter) -> bool {
        self.phase is Ended || (w.flags.closed && !w.flags.cancelled)
    }

    fn ended(outcome: Result<()>) -> (r: (CloseOp, CloseAction))
        ensures
            r.0.phase is Ended,
            r.1 == CloseAction::Done(outcome),
    {
        (CloseOp { phase: ClosePhase::Ended }, CloseAction::Done(outcome))
    }

    fn give_up(w: &mut GoosefsFileWriter, e: Error) -> (r: (CloseOp, CloseAction))
        requires
            old(w).wf(),
        ensures
            final(w).wf(),
            gives_up(*old(w), *final(w), e, r.0, r.1),
    {
        let remains = w.take_remains();
        (CloseOp { phase: ClosePhase::Cleanup(e) }, CloseAction::Cleanup(remains))
    }

    fn complete(w: &GoosefsFileWriter, last: Option<FileLocation>) -> (r: (CloseOp, CloseAction))
        ensures
            r.0.phase is Complete,
            r.1 matches CloseAction::Complete(options) && completes(*w, last, options),
    {
        let locations = complete_file_locations(w.strategy.need_async_persist, last);
        let (force_persisted, async_persist_options) = resolve_persist_options(
            w.strategy.need_async_persist,
            w.flags.ufs_stream_completed,
            w.policy.file_persistence_initial_wait_time_ms,
        );
        let options = CompleteFileOptions {
            ufs_length: Some(w.total_bytes_written as i64),
            operation_id: Some(uuid_to_fs_op_pid(&w.operation_id)),
            locations,
            async_persist_options,
            force_persisted,
        };
        (CloseOp { phase: ClosePhase::Complete }, CloseAction::Complete(options))
    }

    /// Starts to close a writer. A writer that was closed before, or cancelled,
    /// is left alone.
    pub fn start(w: &mut GoosefsFileWriter) -> (r: (CloseOp, CloseAction))
        requires
            old(w).wf(),
        ensures
            final(w).wf(),
            final(w).flags.closed,
            r.0.wf(*final(w)),
            close_starts(*old(w), *final(w), r.0, r.1),
    {
        if w.flags.closed {
            return CloseOp::ended(Ok(()));
        }
        w.flags.closed = true;
        if w.flags.cancelled {
            return CloseOp::ended(Ok(()));
        }
        if w.flags.ufs_stream_open {
            w.flags.ufs_stream_open = false;
            return (CloseOp { phase: ClosePhase::FlushUfs }, CloseAction::FlushUfs);
        }
        (CloseOp { phase: ClosePhase::CloseBlock }, CloseAction::CloseBlock)
    }

    /// Takes in the outcome of the last action. That of closing the block
    /// carries where the block is.
    pub fn step(self, w: &mut GoosefsFileWriter, outcome: Result<Option<FileLocation>>) -> (r: (
        CloseOp,
        CloseAction,
    ))
        requires
            old(w).wf(),
            self.wf(*old(w)),
        ensures
            final(w).wf(),
            r.0.wf(*final(w)),
            close_goes_on(self, *old(w), outcome, r.0, *final(w), r.1),
    {
        match self.phase {
            ClosePhase::FlushUfs => match outcome {
                Ok(_) => (CloseOp { phase: ClosePhase::CloseUfs }, CloseAction::CloseUfs),
                Err(e) => (CloseOp { phase: ClosePhase::CancelUfs(e) }, CloseAction::CancelUfs),
            },
            ClosePhase::CancelUfs(e) => CloseOp::give_up(w, e),
            ClosePhase::CloseUfs => match outcome {
                Ok(_) => {
                    w.flags.ufs_stream_completed = true;
                    w.ufs_worker_addr = None;
                    (CloseOp { phase: ClosePhase::CloseBlock }, CloseAction::CloseBlock)
                },
                Err(e) => CloseOp::give_up(w, e),
            },
            ClosePhase::CloseBlock => match outcome {
                Ok(last) => CloseOp::complete(w, last),
                Err(e) => CloseOp::give_up(w, e),
            },
            ClosePhase::Complete => match outcome {
                Ok(_) => (CloseOp { phase: ClosePhase::Invalidate }, CloseAction::Invalidate),
                Err(e) => (CloseOp { phase: ClosePhase::Recover }, CloseAction::Recover(e)),
            },
            ClosePhase::Recover => match outcome {
                Ok(_) => (CloseOp { phase: ClosePhase::Invalidate }, CloseAction::Invalidate),
                Err(e) => CloseOp::ended(Err(e)),
            },
            ClosePhase::Cleanup(e) => CloseOp::ended(Err(e)),
            ClosePhase::Invalidate => {
                w.flags.completed = true;
                CloseOp::ended(Ok(()))
            },
            ClosePhase::Ended => match outcome {
                Ok(_) => CloseOp::ended(Ok(())),
                Err(e) => CloseOp::ended(Err(e)),
            },
        }
    }
}

} // verus!
