//! Closing a block.

use vstd::prelude::*;

use crate::error::{Error, Result};
use crate::io::active_block::{worker_ids, ActiveBlockWriter};
use crate::io::file_writer::{without_block, GoosefsFileWriter};
use crate::proto::FileLocation;

verus! {

/// Where the closing of a block stands.
#[derive(Debug)]
pub enum CloseBlockPhase {
    /// The pending bytes are sent to the replicas.
    Tail,
    /// The replicas are flushed.
    Flush,
    /// The streams of the replicas are closed.
    Streams,
    /// The master is told where the block is.
    Commit,
    /// The streams of the replicas are cancelled, because of an error or
    /// because the block is empty.
    Cancel(Option<Error>),
    /// The closing has ended.
    Ended,
}

/// What the closing of a block asks for.
#[derive(Debug)]
pub enum CloseBlockAction {
    /// Send the bytes to the replicas of the block.
    WriteTail(Vec<u8>),
    /// Flush the replicas of the block.
    Flush,
    /// Close the streams of the replicas, of which the first failure counts.
    CloseStreams,
    /// Tell the master where the block is.
    CommitLocation {
        /// Identifier of the block.
        block_id: i64,
        /// Where it is.
        location: FileLocation,
    },
    /// Cancel the streams of the replicas.
    Cancel,
    /// Return the result: where the block is, if it has bytes and replicas.
    Done(Result<Option<FileLocation>>),
}

/// The closing of a block.
#[derive(Debug)]
pub struct CloseBlockOp {
    /// The block.
    pub block: Option<ActiveBlockWriter>,
    /// Identifier of the block.
    pub block_id: i64,
    /// Offset of the block in the file.
    pub block_offset: i64,
    /// Whether the master is told where the block is.
    pub commit_location: bool,
    /// Where the block is, once it was flushed.
    pub location: Option<FileLocation>,
    /// Where the closing stands.
    pub phase: CloseBlockPhase,
}

/// The writer after it has noted one more block.
pub open spec fn with_committed(w0: GoosefsFileWriter, w1: GoosefsFileWriter, id: i64) -> bool {
    &&& w1.committed_block_ids@ == w0.committed_block_ids@.push(id)
    &&& w1 == (GoosefsFileWriter { committed_block_ids: w1.committed_block_ids, ..w0 })
}

/// Whether `location` says where the block is.
pub open spec fn locates(
    location: Option<FileLocation>,
    block: ActiveBlockWriter,
    block_offset: i64,
) -> bool {
    match location {
        Some(loc) => {
            &&& block.replicas@.len() > 0
            &&& loc.block_id == Some(block.block_id)
            &&& loc.offset == Some(block_offset)
            &&& loc.length == Some(block.bytes_written as i64)
            &&& loc.worker_id@ == worker_ids(block.replicas@)
        },
        None => block.replicas@.len() == 0,
    }
}

/// The offset of the block at the given place: its size times the place.
pub open spec fn offset_of_block(place: nat, block_size: u64) -> i64 {
    i64::wrapping_mul(place as i64, block_size as i64)
}

/// Equality of the operations but for the phase and the location.
pub open spec fn same_closing(a: CloseBlockOp, b: CloseBlockOp) -> bool {
    &&& a.block == b.block
    &&& a.block_id == b.block_id
    &&& a.block_offset == b.block_offset
    &&& a.commit_location == b.commit_location
}

/// The start of the closing of the current block.
pub open spec fn close_block_starts(
    w0: GoosefsFileWriter,
    w1: GoosefsFileWriter,
    commit_location: bool,
    op: CloseBlockOp,
    action: CloseBlockAction,
) -> bool {
    &&& w1 == without_block(w0)
    &&& op.location is None
    &&& op.commit_location == commit_location
    &&& match w0.current_block {
        None => op.phase is Ended && action == CloseBlockAction::Done(Ok(None)),
        Some(block) => {
            &&& op.block_id == block.block_id
            &&& op.block_offset == offset_of_block(w0.committed_block_ids@.len(), block.block_size)
            &&& op.block matches Some(b) && b.same_but_pending(block)
                && b.pending_chunk@.len() == 0
            &&& if block.bytes_written == 0 {
                op.phase == CloseBlockPhase::Cancel(None) && action is Cancel
            } else if block.pending_chunk@.len() > 0 {
                op.phase is Tail && action == CloseBlockAction::WriteTail(block.pending_chunk)
            } else {
                op.phase is Flush && action is Flush
            }
        },
    }
}

/// A step of the closing of a block.
pub open spec fn close_block_goes_on(
    op0: CloseBlockOp,
    w0: GoosefsFileWriter,
    outcome: Result<()>,
    op1: CloseBlockOp,
    w1: GoosefsFileWriter,
    action: CloseBlockAction,
) -> bool {
    match (op0.phase, outcome) {
        (CloseBlockPhase::Tail, Ok(_)) => {
            &&& w1 == w0
            &&& same_closing(op0, op1)
            &&& op1.phase is Flush
            &&& action is Flush
        },
        (CloseBlockPhase::Tail, Err(e)) | (CloseBlockPhase::Flush, Err(e)) => {
            &&& w1 == w0
            &&& same_closing(op0, op1)
            &&& op1.phase == CloseBlockPhase::Cancel(Some(e))
            &&& action is Cancel
        },
        (CloseBlockPhase::Flush, Ok(_)) => {
            &&& w1 == w0
            &&& same_closing(op0, op1)
            &&& op0.block matches Some(b) && locates(op1.location, b, op0.block_offset)
            &&& op1.phase is Streams
            &&& action is CloseStreams
        },
        // The block may be there or not: it is noted for a later clean-up.
        (CloseBlockPhase::Streams, Err(e)) => {
            &&& with_committed(w0, w1, op0.block_id)
            &&& op1.phase is Ended
            &&& action == CloseBlockAction::Done(Err(e))
        },
        (CloseBlockPhase::Streams, Ok(_)) => if op0.commit_location && w0.strategy.need_async_persist
            && op0.location is Some {
            &&& w1 == w0
            &&& same_closing(op0, op1)
            &&& op1.location == op0.location
            &&& op1.phase is Commit
            &&& action matches CloseBlockAction::CommitLocation { block_id, location } && block_id
                == op0.block_id && location.same(op0.location->0)
        } else {
            &&& with_committed(w0, w1, op0.block_id)
            &&& op1.phase is Ended
            &&& action == CloseBlockAction::Done(Ok(op0.location))
        },
        (CloseBlockPhase::Commit, Ok(_)) => {
            &&& with_committed(w0, w1, op0.block_id)
            &&& op1.phase is Ended
            &&& action == CloseBlockAction::Done(Ok(op0.location))
        },
        (CloseBlockPhase::Commit, Err(e)) => {
            &&& w1 == w0
            &&& op1.phase is Ended
            &&& action == CloseBlockAction::Done(Err(e))
        },
        (CloseBlockPhase::Cancel(Some(e)), _) => {
            &&& w1 == w0
            &&& op1.phase is Ended
            &&& action == CloseBlockAction::Done(Err(e))
        },
        (CloseBlockPhase::Cancel(None), _) => {
            &&& w1 == w0
            &&& op1.phase is Ended
            &&& action == CloseBlockAction::Done(Ok(None))
        },
        (CloseBlockPhase::Ended, Ok(_)) => {
            &&& w1 == w0
            &&& op1.phase is Ended
            &&& action == CloseBlockAction::Done(Ok(op0.location))
        },
        (CloseBlockPhase::Ended, Err(e)) => {
            &&& w1 == w0
            &&& op1.phase is Ended
            &&& action == CloseBlockAction::Done(Err(e))
        },
    }
}

impl CloseBlockOp {
    /// Whether the operation holds the block that it flushes.
    pub open spec fn wf(self) -> bool {
        self.phase is Tail || self.phase is Flush ==> self.block is Some
    }

    /// Starts to close the current block, which leaves the writer.
    pub fn start(w: &mut GoosefsFileWriter, commit_location: bool) -> (r: (
        CloseBlockOp,
        CloseBlockAction,
    ))
        requires
            old(w).wf(),
        ensures
            final(w).wf(),
            r.0.wf(),
            close_block_starts(*old(w), *final(w), commit_location, r.0, r.1),
    {
        let place: usize = w.committed_block_ids.len();
        match w.current_block.take() {
            None => (
                CloseBlockOp {
                    block: None,
                    block_id: 0,
                    block_offset: 0,
                    commit_location,
                    location: None,
                    phase: CloseBlockPhase::Ended,
                },
                CloseBlockAction::Done(Ok(None)),
            ),
            Some(block) => {
                let block_offset: i64 = (place as i64).wrapping_mul(block.block_size as i64);
                let block_id: i64 = block.block_id;
                let empty = block.bytes_written == 0;
                let tail = block.pending_chunk;
                let block = ActiveBlockWriter { pending_chunk: Vec::new(), ..block };
                let op = CloseBlockOp {
                    block: Some(block),
                    block_id,
                    block_offset,
                    commit_location,
                    location: None,
                    phase: CloseBlockPhase::Flush,
                };
                if empty {
                    (
                        CloseBlockOp { phase: CloseBlockPhase::Cancel(None), ..op },
                        CloseBlockAction::Cancel,
                    )
                } else if tail.len() > 0 {
                    (
                        CloseBlockOp { phase: CloseBlockPhase::Tail, ..op },
                        CloseBlockAction::WriteTail(tail),
                    )
                } else {
                    (op, CloseBlockAction::Flush)
                }
            },
        }
    }

    /// Takes in the outcome of the last action.
    pub fn step(self, w: &mut GoosefsFileWriter, outcome: Result<()>) -> (r: (
        CloseBlockOp,
        CloseBlockAction,
    ))
        requires
            old(w).wf(),
            self.wf(),
        ensures
            final(w).wf(),
            r.0.wf(),
            close_block_goes_on(self, *old(w), outcome, r.0, *final(w), r.1),
    {
        let CloseBlockOp { block, block_id, block_offset, commit_location, location, phase } = self;
        match phase {
            CloseBlockPhase::Tail => match outcome {
                Ok(_) => (
                    CloseBlockOp {
                        block,
                        block_id,
                        block_offset,
                        commit_location,
                        location,
                        phase: CloseBlockPhase::Flush,
                    },
                    CloseBlockAction::Flush,
                ),
                Err(e) => CloseBlockOp::cancel(block, block_id, block_offset, commit_location, e),
            },
            CloseBlockPhase::Flush => match outcome {
                Ok(_) => {
                    let location = match &block {
                        Some(b) => b.file_location(block_offset),
                        None => None,
                    };
                    (
                        CloseBlockOp {
                            block,
                            block_id,
                            block_offset,
                            commit_location,
                            location,
                            phase: CloseBlockPhase::Streams,
                        },
                        CloseBlockAction::CloseStreams,
                    )
                },
                Err(e) => CloseBlockOp::cancel(block, block_id, block_offset, commit_location, e),
            },
            CloseBlockPhase::Streams => CloseBlockOp::after_streams(
                CloseBlockOp {
                    block,
                    block_id,
                    block_offset,
                    commit_location,
                    location,
                    phase: CloseBlockPhase::Streams,
                },
                w,
                outcome,
            ),
            CloseBlockPhase::Commit => match outcome {
                Ok(_) => {
                    w.committed_block_ids.push(block_id);
                    CloseBlockOp::done(block_id, Ok(location))
                },
                Err(e) => CloseBlockOp::done(block_id, Err(e)),
            },
            CloseBlockPhase::Cancel(Some(e)) => CloseBlockOp::done(block_id, Err(e)),
            CloseBlockPhase::Cancel(None) => CloseBlockOp::done(block_id, Ok(None)),
            CloseBlockPhase::Ended => match outcome {
                Ok(_) => CloseBlockOp::done(block_id, Ok(location)),
                Err(e) => CloseBlockOp::done(block_id, Err(e)),
            },
        }
    }

    fn done(block_id: i64, outcome: Result<Option<FileLocation>>) -> (r: (
        CloseBlockOp,
        CloseBlockAction,
    ))
        ensures
            r.0.wf(),
            r.0.phase is Ended,
            r.1 == CloseBlockAction::Done(outcome),
    {
        (
            CloseBlockOp {
                block: None,
                block_id,
                block_offset: 0,
                commit_location: false,
                location: None,
                phase: CloseBlockPhase::Ended,
            },
            CloseBlockAction::Done(outcome),
        )
    }

    fn cancel(
        block: Option<ActiveBlockWriter>,
        block_id: i64,
        block_offset: i64,
        commit_location: bool,
        e: Error,
    ) -> (r: (CloseBlockOp, CloseBlockAction))
        ensures
            r.0.wf(),
            r.0.block == block,
            r.0.block_id == block_id,
            r.0.block_offset == block_offset,
            r.0.commit_location == commit_location,
            r.0.phase == CloseBlockPhase::Cancel(Some(e)),
            r.1 is Cancel,
    {
        (
            CloseBlockOp {
                block,
                block_id,
                block_offset,
                commit_location,
                location: None,
                phase: CloseBlockPhase::Cancel(Some(e)),
            },
            CloseBlockAction::Cancel,
        )
    }

    fn after_streams(self, w: &mut GoosefsFileWriter, outcome: Result<()>) -> (r: (
        CloseBlockOp,
        CloseBlockAction,
    ))
        requires
            old(w).wf(),
            self.phase is Streams,
        ensures
            final(w).wf(),
            r.0.wf(),
            close_block_goes_on(self, *old(w), outcome, r.0, *final(w), r.1),
    {
        if let Err(e) = outcome {
            w.committed_block_ids.push(self.block_id);
            return CloseBlockOp::done(self.block_id, Err(e));
        }
        if self.commit_location && w.strategy.need_async_persist {
            if let Some(loc) = &self.location {
                let action = CloseBlockAction::CommitLocation {
                    block_id: self.block_id,
                    location: loc.clone(),
                };
                return (CloseBlockOp { phase: CloseBlockPhase::Commit, ..self }, action);
            }
        }
        w.committed_block_ids.push(self.block_id);
        CloseBlockOp::done(self.block_id, Ok(self.location))
    }
}

} // verus!
