//! Opening a writer, its stream to the storage, and flushing it.

use vstd::prelude::*;
use vstd::string::*;

use crate::error::{Error, ErrorView, Result};
use crate::io::active_block::ActiveBlockWriter;
use crate::io::file_writer::{GoosefsFileWriter, WriterFlags, CANNOT_FLUSH};
use crate::io::write_strategy::{UFS_BLOCK_ID, UFS_STREAM_LENGTH};
use crate::proto::{CreateUfsFileOptions, WorkerInfo, WorkerNetAddress};
use crate::text::{parse_signed, pieces, signed_value, split, views};

verus! {

/// Where the opening of a writer stands.
#[derive(Debug)]
pub enum CreatePhase {
    /// What is cached of the path is dropped.
    Invalidate,
    /// The workers are asked for.
    Router,
    /// The stream to the storage is opened.
    OpenUfs,
    /// The opening has ended.
    Ended,
}

/// What the opening of a writer asks for.
#[derive(Debug)]
pub enum CreateAction {
    /// Drop what is cached of the path.
    Invalidate,
    /// Ask for the workers, and report how many there are to
    /// [`GoosefsFileWriter::router_ready`].
    InitRouter,
    /// Open the stream to the storage.
    OpenUfs,
    /// Return the result.
    Done(Result<()>),
}

/// The opening of a writer, after the master has created the file.
///
/// A file that is persisted at once gets its stream to the storage now, so that
/// the file comes to be there even if no byte is written. Where that fails the
/// writer counts as cancelled, and the file is left for a retry.
#[derive(Debug)]
pub struct CreateOp {
    /// Where the opening stands.
    pub phase: CreatePhase,
}

/// A step of the opening of a writer.
pub open spec fn create_goes_on(
    op0: CreateOp,
    w0: GoosefsFileWriter,
    outcome: Result<()>,
    op1: CreateOp,
    w1: GoosefsFileWriter,
    action: CreateAction,
) -> bool {
    match (op0.phase, outcome) {
        (CreatePhase::Invalidate, _) => if w0.strategy.ufs_stream {
            w1 == w0 && op1.phase is Router && action is InitRouter
        } else {
            w1 == w0 && op1.phase is Ended && action == CreateAction::Done(Ok(()))
        },
        (CreatePhase::Router, Ok(_)) => w1 == w0 && op1.phase is OpenUfs && action is OpenUfs,
        (CreatePhase::OpenUfs, Ok(_)) => w1 == w0 && op1.phase is Ended && action
            == CreateAction::Done(Ok(())),
        (CreatePhase::Ended, o) => w1 == w0 && op1.phase is Ended && action
            == CreateAction::Done(o),
        (_, Err(e)) => {
            &&& op1.phase is Ended
            &&& action == CreateAction::Done(Err(e))
            &&& w1 == (GoosefsFileWriter {
                flags: WriterFlags { cancelled: true, ..w0.flags },
                ..w0
            })
        },
    }
}

impl CreateOp {
    /// Starts to open a writer.
    pub fn start() -> (r: (CreateOp, CreateAction))
        ensures
            r.0.phase is Invalidate,
            r.1 is Invalidate,
    {
        (CreateOp { phase: CreatePhase::Invalidate }, CreateAction::Invalidate)
    }

    fn ended(outcome: Result<()>) -> (r: (CreateOp, CreateAction))
        ensures
            r.0.phase is Ended,
            r.1 == CreateAction::Done(outcome),
    {
        (CreateOp { phase: CreatePhase::Ended }, CreateAction::Done(outcome))
    }

    /// Takes in the outcome of the last action.
    pub fn step(self, w: &mut GoosefsFileWriter, outcome: Result<()>) -> (r: (
        CreateOp,
        CreateAction,
    ))
        requires
            old(w).wf(),
            !old(w).flags.closed,
        ensures
            final(w).wf(),
            create_goes_on(self, *old(w), outcome, r.0, *final(w), r.1),
    {
        match self.phase {
            CreatePhase::Invalidate => if w.strategy.ufs_stream {
                (CreateOp { phase: CreatePhase::Router }, CreateAction::InitRouter)
            } else {
                CreateOp::ended(Ok(()))
            },
            CreatePhase::Router => match outcome {
                Ok(_) => (CreateOp { phase: CreatePhase::OpenUfs }, CreateAction::OpenUfs),
                Err(e) => {
                    w.flags.cancelled = true;
                    CreateOp::ended(Err(e))
                },
            },
            CreatePhase::OpenUfs => match outcome {
                Ok(_) => CreateOp::ended(Ok(())),
                Err(e) => {
                    w.flags.cancelled = true;
                    CreateOp::ended(Err(e))
                },
            },
            CreatePhase::Ended => CreateOp::ended(outcome),
        }
    }
}

/// The message of a worker that cannot be reached.
pub const NO_UFS_ADDRESS: &'static str = "ufs-stream worker has no address";

/// Where the opening of the stream to the storage stands.
#[derive(Debug)]
pub enum OpenUfsPhase {
    /// The worker at the address is connected to.
    Acquire(WorkerNetAddress),
    /// The stream is opened on the worker at the address.
    OpenStream(WorkerNetAddress),
    /// The worker is counted as failed because of an error.
    Failed(Error),
    /// The opening has ended.
    Ended,
}

/// What the opening of the stream to the storage asks for.
#[derive(Debug)]
pub enum OpenUfsAction {
    /// Connect to the worker at the address.
    Acquire(WorkerNetAddress),
    /// Open the stream.
    OpenStream {
        /// Block identifier of the stream.
        block_id: i64,
        /// Length that the stream reserves.
        length: i64,
        /// How the file is created in the storage.
        options: Option<CreateUfsFileOptions>,
    },
    /// Count the worker at the address as failed, and drop its connection.
    MarkFailed(WorkerNetAddress),
    /// Return the result.
    Done(Result<()>),
}

/// The opening of the stream to the storage, on one worker.
#[derive(Debug)]
pub struct OpenUfsOp {
    /// Where the opening stands.
    pub phase: OpenUfsPhase,
}

/// A step of the opening of the stream to the storage.
pub open spec fn open_ufs_goes_on(
    op0: OpenUfsOp,
    w0: GoosefsFileWriter,
    endpoint: Seq<char>,
    outcome: Result<()>,
    op1: OpenUfsOp,
    w1: GoosefsFileWriter,
    action: OpenUfsAction,
) -> bool {
    match (op0.phase, outcome) {
        (OpenUfsPhase::Acquire(a), Ok(_)) => {
            &&& w1 == w0
            &&& op1.phase == OpenUfsPhase::OpenStream(a)
            &&& action == (OpenUfsAction::OpenStream {
                block_id: UFS_BLOCK_ID,
                length: UFS_STREAM_LENGTH,
                options: w0.strategy.create_ufs_file_options,
            })
        },
        (OpenUfsPhase::OpenStream(_), Ok(_)) => {
            &&& op1.phase is Ended
            &&& action == OpenUfsAction::Done(Ok(()))
            &&& w1.ufs_worker_addr matches Some(s) && s@ == endpoint
            &&& w1 == (GoosefsFileWriter {
                flags: WriterFlags { ufs_stream_open: true, ..w0.flags },
                ufs_worker_addr: w1.ufs_worker_addr,
                ..w0
            })
        },
        (OpenUfsPhase::Acquire(a), Err(e)) | (OpenUfsPhase::OpenStream(a), Err(e)) => {
            &&& w1 == w0
            &&& op1.phase == OpenUfsPhase::Failed(e)
            &&& action == OpenUfsAction::MarkFailed(a)
        },
        (OpenUfsPhase::Failed(e), _) => {
            &&& w1 == w0
            &&& op1.phase is Ended
            &&& action == OpenUfsAction::Done(Err(e))
        },
        (OpenUfsPhase::Ended, o) => {
            &&& w1 == w0
            &&& op1.phase is Ended
            &&& action == OpenUfsAction::Done(o)
        },
    }
}

impl OpenUfsOp {
    fn ended(outcome: Result<()>) -> (r: (OpenUfsOp, OpenUfsAction))
        ensures
            r.0.phase is Ended,
            r.1 == OpenUfsAction::Done(outcome),
    {
        (OpenUfsOp { phase: OpenUfsPhase::Ended }, OpenUfsAction::Done(outcome))
    }

    /// Starts to open the stream on the worker that was picked.
    pub fn start(picked: Result<WorkerInfo>) -> (r: (OpenUfsOp, OpenUfsAction))
        ensures
            match picked {
                Ok(worker) => match worker.address {
                    Some(a) => r.0.phase == OpenUfsPhase::Acquire(a) && r.1
                        == OpenUfsAction::Acquire(a),
                    None => r.0.phase is Ended && (r.1 matches OpenUfsAction::Done(Err(e)) && e@ == (
                    ErrorView::Internal { message: NO_UFS_ADDRESS@, source: None })),
                },
                Err(e) => r.0.phase is Ended && r.1 == OpenUfsAction::Done(Err(e)),
            },
    {
        match picked {
            Ok(worker) => match worker.address {
                Some(a) => (
                    OpenUfsOp { phase: OpenUfsPhase::Acquire(a.clone()) },
                    OpenUfsAction::Acquire(a),
                ),
                None => OpenUfsOp::ended(
                    Err(Error::Internal { message: NO_UFS_ADDRESS.to_string(), source: None }),
                ),
            },
            Err(e) => OpenUfsOp::ended(Err(e)),
        }
    }

    /// Takes in the outcome of the last action; `endpoint` is that of the
    /// worker.
    pub fn step(self, w: &mut GoosefsFileWriter, endpoint: &str, outcome: Result<()>) -> (r: (
        OpenUfsOp,
        OpenUfsAction,
    ))
        requires
            old(w).wf(),
        ensures
            final(w).wf(),
            open_ufs_goes_on(self, *old(w), endpoint@, outcome, r.0, *final(w), r.1),
    {
        match self.phase {
            OpenUfsPhase::Acquire(a) => match outcome {
                Ok(_) => {
                    let options = w.strategy.create_ufs_file_options.clone();
                    (
                        OpenUfsOp { phase: OpenUfsPhase::OpenStream(a) },
                        OpenUfsAction::OpenStream {
                            block_id: UFS_BLOCK_ID,
                            length: UFS_STREAM_LENGTH,
                            options,
                        },
                    )
                },
                Err(e) => (
                    OpenUfsOp { phase: OpenUfsPhase::Failed(e) },
                    OpenUfsAction::MarkFailed(a),
                ),
            },
            OpenUfsPhase::OpenStream(a) => match outcome {
                Ok(_) => {
                    w.ufs_opened(endpoint.to_owned());
                    OpenUfsOp::ended(Ok(()))
                },
                Err(e) => (
                    OpenUfsOp { phase: OpenUfsPhase::Failed(e) },
                    OpenUfsAction::MarkFailed(a),
                ),
            },
            OpenUfsPhase::Failed(e) => OpenUfsOp::ended(Err(e)),
            OpenUfsPhase::Ended => OpenUfsOp::ended(outcome),
        }
    }
}

/// The port in an endpoint: the number between its first and second colon.
pub open spec fn port_of(endpoint: Seq<char>) -> Option<i32> {
    let parts = pieces(endpoint, ':');
    if parts.len() > 1 {
        match signed_value(parts[1], i32::MAX as int) {
            Ok(n) => Some(n as i32),
            Err(_) => None,
        }
    } else {
        None
    }
}

/// The address of a worker with the given endpoint: the host is what stands
/// before the first colon, and a port that is no number is left out.
pub fn address_of_endpoint(endpoint: &str) -> (r: WorkerNetAddress)
    ensures
        r.host matches Some(h) && h@ == pieces(endpoint@, ':')[0],
        r.rpc_port == port_of(endpoint@),
{
    let mut parts = split(endpoint, ':');
    let ghost all = views(parts@);
    proof {
        assert(forall|i: int| 0 <= i < parts@.len() ==> all[i] == #[trigger] parts@[i]@);
    }
    let rpc_port: Option<i32> = if parts.len() > 1 {
        match parse_signed(parts[1].as_str(), i32::MAX as i64) {
            Ok(n) => Some(n as i32),
            Err(_) => None,
        }
    } else {
        None
    };
    let host = parts.swap_remove(0);
    WorkerNetAddress { host: Some(host), rpc_port }
}

/// Where a flush stands.
#[derive(Debug)]
pub enum FlushPhase {
    /// The stream to the storage is flushed.
    FlushUfs,
    /// The pending bytes are sent to the replicas.
    Tail,
    /// The replicas are flushed.
    FlushBlock,
    /// The flush has ended.
    Ended,
}

/// What a flush asks for.
#[derive(Debug)]
pub enum FlushAction {
    /// Flush the stream to the storage.
    FlushUfs,
    /// Send the bytes to the replicas of the current block.
    WriteTail(Vec<u8>),
    /// Flush the replicas of the current block.
    FlushBlock,
    /// Return the result.
    Done(Result<()>),
}

/// A flush in progress.
///
/// The stream to the storage is flushed if it is open. The replicas of the
/// current block are flushed only for a file that is persisted asynchronously,
/// and only if the settings ask for it.
#[derive(Debug)]
pub struct FlushOp {
    /// Where the flush stands.
    pub phase: FlushPhase,
}

/// Whether a flush reaches the replicas of the current block.
pub open spec fn flushes_block(w: GoosefsFileWriter) -> bool {
    &&& w.strategy.need_async_persist
    &&& w.policy.file_async_persist_flush_enabled
    &&& w.current_block matches Some(b) && b.bytes_written > 0
}

/// The flush goes on with the current block, or ends.
pub open spec fn turns_to_block(
    w0: GoosefsFileWriter,
    w1: GoosefsFileWriter,
    op: FlushOp,
    action: FlushAction,
) -> bool {
    if !flushes_block(w0) {
        w1 == w0 && op.phase is Ended && action == FlushAction::Done(Ok(()))
    } else if w0.current_block->0.pending_chunk@.len() == 0 {
        w1 == w0 && op.phase is FlushBlock && action is FlushBlock
    } else {
        &&& op.phase is Tail
        &&& action == FlushAction::WriteTail(w0.current_block->0.pending_chunk)
        &&& w1.current_block is Some
        &&& w1.current_block->0.pending_chunk@.len() == 0
        &&& w1 == (GoosefsFileWriter {
            current_block: Some(
                ActiveBlockWriter {
                    pending_chunk: w1.current_block->0.pending_chunk,
                    ..w0.current_block->0
                },
            ),
            ..w0
        })
    }
}

impl FlushOp {
    fn ended(outcome: Result<()>) -> (r: (FlushOp, FlushAction))
        ensures
            r.0.phase is Ended,
            r.1 == FlushAction::Done(outcome),
    {
        (FlushOp { phase: FlushPhase::Ended }, FlushAction::Done(outcome))
    }

    fn to_block(w: &mut GoosefsFileWriter) -> (r: (FlushOp, FlushAction))
        requires
            old(w).wf(),
        ensures
            final(w).wf(),
            turns_to_block(*old(w), *final(w), r.0, r.1),
    {
        if !w.strategy.need_async_persist || !w.policy.file_async_persist_flush_enabled {
            return FlushOp::ended(Ok(()));
        }
        match w.current_block.take() {
            None => FlushOp::ended(Ok(())),
            Some(block) => {
                if block.bytes_written == 0 {
                    w.current_block = Some(block);
                    return FlushOp::ended(Ok(()));
                }
                if block.pending_chunk.len() == 0 {
                    w.current_block = Some(block);
                    return (FlushOp { phase: FlushPhase::FlushBlock }, FlushAction::FlushBlock);
                }
                let tail = block.pending_chunk;
                w.current_block = Some(ActiveBlockWriter { pending_chunk: Vec::new(), ..block });
                (FlushOp { phase: FlushPhase::Tail }, FlushAction::WriteTail(tail))
            },
        }
    }

    /// Starts a flush.
    pub fn start(w: &mut GoosefsFileWriter) -> (r: (FlushOp, FlushAction))
        requires
            old(w).wf(),
        ensures
            final(w).wf(),
            if old(w).ended() {
                &&& *final(w) == *old(w)
                &&& r.0.phase is Ended
                &&& r.1 matches FlushAction::Done(Err(e)) && e@ == (ErrorView::BlockIoError {
                    message: CANNOT_FLUSH@,
                })
            } else if old(w).flags.ufs_stream_open {
                *final(w) == *old(w) && r.0.phase is FlushUfs && r.1 is FlushUfs
            } else {
                turns_to_block(*old(w), *final(w), r.0, r.1)
            },
    {
        if w.flags.cancelled || w.flags.closed {
            return FlushOp::ended(Err(Error::BlockIoError { message: CANNOT_FLUSH.to_string() }));
        }
        if w.flags.ufs_stream_open {
            return (FlushOp { phase: FlushPhase::FlushUfs }, FlushAction::FlushUfs);
        }
        FlushOp::to_block(w)
    }

    /// Takes in the outcome of the last action.
    pub fn step(self, w: &mut GoosefsFileWriter, outcome: Result<()>) -> (r: (FlushOp, FlushAction))
        requires
            old(w).wf(),
        ensures
            final(w).wf(),
            match (self.phase, outcome) {
                (FlushPhase::FlushUfs, Ok(_)) => turns_to_block(*old(w), *final(w), r.0, r.1),
                (FlushPhase::Tail, Ok(_)) => *final(w) == *old(w) && r.0.phase is FlushBlock
                    && r.1 is FlushBlock,
                (_, o) => *final(w) == *old(w) && r.0.phase is Ended && r.1 == FlushAction::Done(o),
            },
    {
        match (self.phase, outcome) {
            (FlushPhase::FlushUfs, Ok(_)) => FlushOp::to_block(w),
            (FlushPhase::Tail, Ok(_)) => (
                FlushOp { phase: FlushPhase::FlushBlock },
                FlushAction::FlushBlock,
            ),
            (_, o) => FlushOp::ended(o),
        }
    }
}

} // verus!
