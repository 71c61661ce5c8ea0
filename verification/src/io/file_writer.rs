//! The writer of a file: its state, and the course of a write and of a flush.
//!
//! An operation is a machine. Starting it gives the first action; each further
//! step takes in the outcome of the last action and gives the next one, up to
//! the one that ends the operation with its result. The actions are performed
//! outside of this library.

use vstd::prelude::*;
use vstd::string::*;

use crate::error::{Error, ErrorView, Result};
use crate::io::active_block::ActiveBlockWriter;
use crate::io::write_strategy::{
    cache_failure_is_fatal, cache_write_failure_is_fatal, credentials_rejected,
    draw_uuid, is_credentials_rejected, resolve_write_strategy, strategy_of, was_drawn,
    WritePolicy, WriteStrategy,
};
use crate::proto::FileInfo;

verus! {

/// Where a writer stands.
#[derive(Debug, Clone, Copy, PartialEq, Eq, Structural)]
pub struct WriterFlags {
    /// The write was cancelled, by the caller or by a failure.
    pub cancelled: bool,
    /// The writer was closed, with or without success.
    pub closed: bool,
    /// The file was completed: closing it succeeded.
    pub completed: bool,
    /// Bytes go to the cache.
    pub should_cache: bool,
    /// Bytes go to the storage.
    pub ufs_write_enabled: bool,
    /// A cache block has been opened.
    pub block_opened: bool,
    /// The stream to the storage is open.
    pub ufs_stream_open: bool,
    /// The stream to the storage was closed with success.
    pub ufs_stream_completed: bool,
    /// The workers are not known yet.
    pub router_needs_init: bool,
}

/// What a writer adds to the metrics.
#[derive(Debug, Clone, Copy, PartialEq, Eq, Structural)]
pub struct WriteTally {
    /// Bytes handed to the cache.
    pub local: i64,
    /// Bytes written to the storage.
    pub ufs: i64,
    /// Times that the writer fell back to the storage alone.
    pub degraded: i64,
}

/// The writer of a file, without its connections.
pub struct GoosefsFileWriter {
    /// Path of the file.
    pub path: String,
    /// What the master reported of the new file.
    pub file_info: FileInfo,
    /// The settings.
    pub policy: WritePolicy,
    /// The streams that the file is written to at first.
    pub strategy: WriteStrategy,
    /// Identifier by which the master knows a repeated completion.
    pub operation_id: uuid::Uuid,
    /// Bytes accepted so far.
    pub total_bytes_written: u64,
    /// Where the writer stands.
    pub flags: WriterFlags,
    /// What the writer adds to the metrics.
    pub tally: WriteTally,
    /// Identifiers of the blocks that were committed.
    pub committed_block_ids: Vec<i64>,
    /// The block that is being written.
    pub current_block: Option<ActiveBlockWriter>,
    /// Endpoint of the worker with the stream to the storage.
    pub ufs_worker_addr: Option<String>,
}

/// The message of a write after the end.
pub const CANNOT_WRITE: &'static str = "cannot write to a completed or cancelled file";

/// The message of a flush after the end.
pub const CANNOT_FLUSH: &'static str = "cannot flush a completed or cancelled file";

/// The message of a write without workers.
pub const NO_WORKERS: &'static str = "no workers available for writing";

impl GoosefsFileWriter {
    /// Whether the parts of the state agree.
    pub open spec fn wf(self) -> bool {
        let f = self.flags;
        let s = self.strategy;
        &&& self.policy.chunk_size <= usize::MAX
        &&& self.current_block matches Some(b) ==> self.fits(b)
        &&& f.completed ==> f.closed && !f.cancelled
        &&& f.should_cache ==> s.cache_stream
        &&& s.ufs_stream ==> f.ufs_write_enabled
        // A file that is no longer cached goes to the storage.
        &&& f.should_cache || f.ufs_write_enabled
        // The storage can always be reached.
        &&& s.ufs_stream || s.need_async_persist ==> s.create_ufs_file_options is Some
        &&& f.ufs_write_enabled ==> s.create_ufs_file_options is Some
        // A file that is persisted asynchronously leaves the cache only while
        // no byte is in it.
        &&& s.need_async_persist && f.ufs_write_enabled ==> !f.block_opened && !f.should_cache
        &&& s.need_async_persist ==> !s.ufs_stream && s.cache_stream
        &&& self.current_block is Some ==> f.block_opened
    }

    /// Whether a block obeys the chunk size.
    pub open spec fn fits(self, block: ActiveBlockWriter) -> bool {
        &&& block.wf()
        &&& block.pending_chunk@.len() < self.policy.chunk_size || block.pending_chunk@.len() == 0
    }

    /// Equality of what never changes.
    pub open spec fn same_file(self, other: Self) -> bool {
        &&& self.path == other.path
        &&& self.file_info == other.file_info
        &&& self.policy == other.policy
        &&& self.strategy == other.strategy
        &&& self.operation_id == other.operation_id
    }

    /// Whether the writer takes no more bytes.
    pub open spec fn ended(self) -> bool {
        self.flags.cancelled || self.flags.closed
    }

    /// The writer of a file that the master has just created.
    pub fn new(
        path: &str,
        file_info: FileInfo,
        policy: WritePolicy,
        write_type: Option<i32>,
    ) -> (r: Self)
        requires
            policy.chunk_size <= usize::MAX,
        ensures
            r.wf(),
            r.path@ == path@,
            r.file_info == file_info,
            r.policy == policy,
            r.strategy == strategy_of(write_type, file_info),
            was_drawn(r.operation_id),
            r.total_bytes_written == 0,
            r.flags == (WriterFlags {
                cancelled: false,
                closed: false,
                completed: false,
                should_cache: r.strategy.cache_stream,
                ufs_write_enabled: r.strategy.ufs_stream,
                block_opened: false,
                ufs_stream_open: false,
                ufs_stream_completed: false,
                router_needs_init: true,
            }),
            r.tally == (WriteTally { local: 0, ufs: 0, degraded: 0 }),
            r.committed_block_ids@.len() == 0,
            r.current_block is None,
            r.ufs_worker_addr is None,
    {
        let strategy = resolve_write_strategy(write_type, &file_info);
        let flags = WriterFlags {
            cancelled: false,
            closed: false,
            completed: false,
            should_cache: strategy.cache_stream,
            ufs_write_enabled: strategy.ufs_stream,
            block_opened: false,
            ufs_stream_open: false,
            ufs_stream_completed: false,
            router_needs_init: true,
        };
        GoosefsFileWriter {
            path: path.to_owned(),
            file_info,
            policy,
            strategy,
            operation_id: draw_uuid(),
            total_bytes_written: 0,
            flags,
            tally: WriteTally { local: 0, ufs: 0, degraded: 0 },
            committed_block_ids: Vec::new(),
            current_block: None,
            ufs_worker_addr: None,
        }
    }

    /// The bytes accepted so far.
    pub fn bytes_written(&self) -> (r: u64)
        ensures
            r == self.total_bytes_written,
    {
        self.total_bytes_written
    }

    /// The path of the file.
    pub fn path(&self) -> (r: &str)
        ensures
            r@ == self.path@,
    {
        self.path.as_str()
    }

    /// Tells whether the file has been completed: closing it succeeded.
    pub fn is_completed(&self) -> (r: bool)
        ensures
            r == self.flags.completed,
    {
        self.flags.completed
    }

    /// Tells whether the write has been cancelled.
    pub fn is_cancelled(&self) -> (r: bool)
        ensures
            r == self.flags.cancelled,
    {
        self.flags.cancelled
    }

    /// What the master reported of the new file.
    pub fn file_info(&self) -> (r: &FileInfo)
        ensures
            *r == self.file_info,
    {
        &self.file_info
    }

    /// The size of a block: the one that the master reported, else the one of
    /// the settings.
    pub open spec fn block_size_spec(self) -> u64 {
        match self.file_info.block_size_bytes {
            Some(n) => n as u64,
            None => self.policy.block_size as i64 as u64,
        }
    }

    /// The size of a block.
    pub fn block_size(&self) -> (r: u64)
        ensures
            r == self.block_size_spec(),
    {
        match self.file_info.block_size_bytes {
            Some(n) => n as u64,
            None => self.policy.block_size as i64 as u64,
        }
    }

    /// Takes in the number of workers that are known. Without any there is an
    /// error, and the workers are asked for again at the next write.
    pub fn router_ready(&mut self, workers: usize) -> (r: Result<()>)
        requires
            old(self).wf(),
        ensures
            final(self).wf(),
            match r {
                Ok(_) => workers > 0 && *final(self) == (GoosefsFileWriter {
                    flags: WriterFlags { router_needs_init: false, ..old(self).flags },
                    ..*old(self)
                }),
                Err(e) => workers == 0 && *final(self) == *old(self) && e@ == (
                ErrorView::NoWorkerAvailable { message: NO_WORKERS@ }),
            },
    {
        if workers == 0 {
            return Err(Error::NoWorkerAvailable { message: NO_WORKERS.to_string() });
        }
        self.flags.router_needs_init = false;
        Ok(())
    }

    /// Takes in that the stream to the storage is open on a worker.
    pub fn ufs_opened(&mut self, worker_addr: String)
        requires
            old(self).wf(),
        ensures
            final(self).wf(),
            *final(self) == (GoosefsFileWriter {
                flags: WriterFlags { ufs_stream_open: true, ..old(self).flags },
                ufs_worker_addr: Some(worker_addr),
                ..*old(self)
            }),
    {
        self.flags.ufs_stream_open = true;
        self.ufs_worker_addr = Some(worker_addr);
    }
}

/// Where a write stands.
#[derive(Debug)]
pub enum WritePhase {
    /// The workers are asked for.
    Router,
    /// The bytes are handed to the cache.
    Cache,
    /// The cache block is given up because of an error, which is fatal or not.
    TearDown(Error, bool),
    /// The stream to the storage is opened.
    OpenUfs,
    /// The bytes are sent to the storage.
    SendUfs,
    /// The stream to the storage is given up because of an error.
    TearDownUfs(Error),
    /// The write has ended.
    Ended,
}

/// What a write asks for.
#[derive(Debug)]
pub enum WriteAction {
    /// Ask for the workers, and report how many there are to
    /// [`GoosefsFileWriter::router_ready`].
    InitRouter,
    /// Hand the bytes to the cache.
    WriteCache,
    /// Cancel the replicas of the block, after counting their workers as failed
    /// if `blacklist` is set.
    TearDownBlock {
        /// The block.
        block: Option<ActiveBlockWriter>,
        /// Whether its workers count as failed.
        blacklist: bool,
    },
    /// Open the stream to the storage.
    OpenUfs,
    /// Send the bytes to the storage.
    SendUfs,
    /// Cancel the stream to the storage, and count its worker as failed.
    TearDownUfs {
        /// Endpoint of the worker.
        worker_addr: Option<String>,
    },
    /// Return the result.
    Done(Result<()>),
}

/// A write in progress.
#[derive(Debug)]
pub struct WriteOp {
    /// Number of bytes.
    pub len: usize,
    /// Where the write stands.
    pub phase: WritePhase,
}

/// The write goes on with the storage, or ends if the storage gets no bytes.
pub open spec fn turns_to_storage(
    w0: GoosefsFileWriter,
    w1: GoosefsFileWriter,
    len: usize,
    op: WriteOp,
    action: WriteAction,
) -> bool {
    &&& op.len == len
    &&& if !w0.flags.ufs_write_enabled {
        &&& op.phase is Ended
        &&& action == WriteAction::Done(Ok(()))
        &&& w1 == (GoosefsFileWriter {
            total_bytes_written: (w0.total_bytes_written + len) as u64,
            ..w0
        })
    } else if w0.flags.ufs_stream_open {
        &&& op.phase is SendUfs
        &&& action is SendUfs
        &&& w1 == w0
    } else {
        &&& op.phase is OpenUfs
        &&& action is OpenUfs
        &&& w1 == w0
    }
}

/// The write goes on with the cache, or with the storage if the cache gets no
/// bytes.
pub open spec fn turns_to_cache(
    w0: GoosefsFileWriter,
    w1: GoosefsFileWriter,
    len: usize,
    op: WriteOp,
    action: WriteAction,
) -> bool {
    if w0.flags.should_cache {
        &&& op.len == len
        &&& op.phase is Cache
        &&& action is WriteCache
        &&& w1 == (GoosefsFileWriter {
            tally: WriteTally {
                local: i64::wrapping_add(w0.tally.local, len as i64),
                ..w0.tally
            },
            ..w0
        })
    } else {
        turns_to_storage(w0, w1, len, op, action)
    }
}

/// The operation ends with `error`, and the writer is `w1`.
pub open spec fn write_fails(op: WriteOp, action: WriteAction, error: Error) -> bool {
    op.phase is Ended && action == WriteAction::Done(Err(error))
}

/// The start of a write.
pub open spec fn write_starts(
    w0: GoosefsFileWriter,
    w1: GoosefsFileWriter,
    len: usize,
    op: WriteOp,
    action: WriteAction,
) -> bool {
    if w0.ended() {
        &&& w1 == w0
        &&& op.phase is Ended
        &&& action matches WriteAction::Done(Err(e)) && e@ == (ErrorView::BlockIoError {
            message: CANNOT_WRITE@,
        })
    } else if len == 0 {
        w1 == w0 && op.phase is Ended && action == WriteAction::Done(Ok(()))
    } else if w0.flags.router_needs_init {
        w1 == w0 && op.len == len && op.phase is Router && action is InitRouter
    } else {
        turns_to_cache(w0, w1, len, op, action)
    }
}

/// The writer without its current block.
pub open spec fn without_block(w: GoosefsFileWriter) -> GoosefsFileWriter {
    GoosefsFileWriter { current_block: None, ..w }
}

/// The writer after it fell back to the storage alone.
pub open spec fn fallen_back(w: GoosefsFileWriter) -> GoosefsFileWriter {
    GoosefsFileWriter {
        flags: WriterFlags { should_cache: false, ufs_write_enabled: true, ..w.flags },
        tally: WriteTally { degraded: i64::wrapping_add(w.tally.degraded, 1), ..w.tally },
        ..w
    }
}

/// Whether a failed cache write fails the file of `w`.
pub open spec fn fatal_for(w: GoosefsFileWriter, error: Error) -> bool {
    cache_failure_is_fatal(
        error,
        w.strategy.ufs_stream,
        w.strategy.need_async_persist,
        w.flags.block_opened,
        w.policy.local_ufs_client_ignore_block_stream_unknown_status,
    )
}

/// A step of a write.
pub open spec fn write_goes_on(
    op0: WriteOp,
    w0: GoosefsFileWriter,
    outcome: Result<()>,
    op1: WriteOp,
    w1: GoosefsFileWriter,
    action: WriteAction,
) -> bool {
    match (op0.phase, outcome) {
        (WritePhase::Router, Ok(_)) => turns_to_cache(w0, w1, op0.len, op1, action),
        (WritePhase::Router, Err(e)) => w1 == w0 && write_fails(op1, action, e),
        (WritePhase::Cache, Ok(_)) => turns_to_storage(w0, w1, op0.len, op1, action),
        (WritePhase::Cache, Err(e)) => {
            &&& op1.len == op0.len
            &&& op1.phase == WritePhase::TearDown(e, fatal_for(w0, e))
            &&& action == (WriteAction::TearDownBlock {
                block: w0.current_block,
                blacklist: !credentials_rejected(e),
            })
            &&& w1 == without_block(w0)
        },
        (WritePhase::TearDown(e, fatal), _) => if fatal {
            &&& write_fails(op1, action, e)
            &&& w1 == (GoosefsFileWriter {
                flags: WriterFlags { cancelled: true, ..w0.flags },
                ..w0
            })
        } else {
            turns_to_storage(fallen_back(w0), w1, op0.len, op1, action)
        },
        (WritePhase::OpenUfs, Ok(_)) => {
            &&& w1 == w0
            &&& op1.len == op0.len
            &&& op1.phase is SendUfs
            &&& action is SendUfs
        },
        (WritePhase::OpenUfs, Err(e)) => w1 == w0 && write_fails(op1, action, e),
        (WritePhase::SendUfs, Ok(_)) => {
            &&& op1.phase is Ended
            &&& action == WriteAction::Done(Ok(()))
            &&& w1 == (GoosefsFileWriter {
                tally: WriteTally {
                    ufs: i64::wrapping_add(w0.tally.ufs, op0.len as i64),
                    ..w0.tally
                },
                total_bytes_written: (w0.total_bytes_written + op0.len) as u64,
                ..w0
            })
        },
        (WritePhase::SendUfs, Err(e)) => {
            &&& op1.phase == WritePhase::TearDownUfs(e)
            &&& action == (WriteAction::TearDownUfs { worker_addr: w0.ufs_worker_addr })
            &&& w1 == (GoosefsFileWriter {
                flags: WriterFlags { ufs_stream_open: false, ..w0.flags },
                ufs_worker_addr: None,
                ..w0
            })
        },
        (WritePhase::TearDownUfs(e), _) => w1 == w0 && write_fails(op1, action, e),
        (WritePhase::Ended, o) => w1 == w0 && op1.phase is Ended && action == WriteAction::Done(o),
    }
}

impl WriteOp {
    /// Whether the operation can be in progress on the writer: the writer has not
    /// ended, the bytes can be counted, and a fall-back was decided by the rules.
    pub open spec fn wf(self, w: GoosefsFileWriter) -> bool {
        &&& !w.ended()
        &&& w.total_bytes_written + self.len <= u64::MAX
        &&& self.phase matches WritePhase::TearDown(e, fatal) ==> fatal == fatal_for(w, e)
    }

    fn to_storage(w: &mut GoosefsFileWriter, len: usize) -> (r: (WriteOp, WriteAction))
        requires
            old(w).wf(),
            old(w).total_bytes_written + len <= u64::MAX,
        ensures
            final(w).wf(),
            turns_to_storage(*old(w), *final(w), len, r.0, r.1),
    {
        if !w.flags.ufs_write_enabled {
            w.total_bytes_written = w.total_bytes_written + len as u64;
            (WriteOp { len, phase: WritePhase::Ended }, WriteAction::Done(Ok(())))
        } else if w.flags.ufs_stream_open {
            (WriteOp { len, phase: WritePhase::SendUfs }, WriteAction::SendUfs)
        } else {
            (WriteOp { len, phase: WritePhase::OpenUfs }, WriteAction::OpenUfs)
        }
    }

    fn to_cache(w: &mut GoosefsFileWriter, len: usize) -> (r: (WriteOp, WriteAction))
        requires
            old(w).wf(),
            old(w).total_bytes_written + len <= u64::MAX,
        ensures
            final(w).wf(),
            turns_to_cache(*old(w), *final(w), len, r.0, r.1),
    {
        if w.flags.should_cache {
            w.tally.local = w.tally.local.wrapping_add(len as i64);
            (WriteOp { len, phase: WritePhase::Cache }, WriteAction::WriteCache)
        } else {
            WriteOp::to_storage(w, len)
        }
    }

    fn fail(e: Error) -> (r: (WriteOp, WriteAction))
        ensures
            write_fails(r.0, r.1, e),
    {
        (WriteOp { len: 0, phase: WritePhase::Ended }, WriteAction::Done(Err(e)))
    }

    /// Starts to write `len` bytes.
    pub fn start(w: &mut GoosefsFileWriter, len: usize) -> (r: (WriteOp, WriteAction))
        requires
            old(w).wf(),
            old(w).total_bytes_written + len <= u64::MAX,
        ensures
            final(w).wf(),
            write_starts(*old(w), *final(w), len, r.0, r.1),
            !(r.0.phase is Ended) ==> r.0.wf(*final(w)),
    {
        if w.flags.cancelled || w.flags.closed {
            return WriteOp::fail(Error::BlockIoError { message: CANNOT_WRITE.to_string() });
        }
        if len == 0 {
            return (WriteOp { len, phase: WritePhase::Ended }, WriteAction::Done(Ok(())));
        }
        if w.flags.router_needs_init {
            return (WriteOp { len, phase: WritePhase::Router }, WriteAction::InitRouter);
        }
        WriteOp::to_cache(w, len)
    }

    fn after_router(
        w: &mut GoosefsFileWriter,
        len: usize,
        outcome: Result<()>,
    ) -> (r: (WriteOp, WriteAction))
        requires
            old(w).wf(),
            (WriteOp { len, phase: WritePhase::Router }).wf(*old(w)),
        ensures
            final(w).wf(),
            write_goes_on(
                WriteOp { len, phase: WritePhase::Router },
                *old(w),
                outcome,
                r.0,
                *final(w),
                r.1,
            ),
            !(r.0.phase is Ended) ==> r.0.wf(*final(w)),
    {
        match outcome {
            Ok(_) => WriteOp::to_cache(w, len),
            Err(e) => WriteOp::fail(e),
        }
    }

    fn after_cache(
        w: &mut GoosefsFileWriter,
        len: usize,
        outcome: Result<()>,
    ) -> (r: (WriteOp, WriteAction))
        requires
            old(w).wf(),
            (WriteOp { len, phase: WritePhase::Cache }).wf(*old(w)),
        ensures
            final(w).wf(),
            write_goes_on(
                WriteOp { len, phase: WritePhase::Cache },
                *old(w),
                outcome,
                r.0,
                *final(w),
                r.1,
            ),
            !(r.0.phase is Ended) ==> r.0.wf(*final(w)),
    {
        match outcome {
            Ok(_) => WriteOp::to_storage(w, len),
            Err(e) => {
                let fatal = cache_write_failure_is_fatal(
                    &e,
                    &w.strategy,
                    w.flags.block_opened,
                    w.policy.local_ufs_client_ignore_block_stream_unknown_status,
                );
                let blacklist = !is_credentials_rejected(&e);
                let block = w.current_block.take();
                (
                    WriteOp { len, phase: WritePhase::TearDown(e, fatal) },
                    WriteAction::TearDownBlock { block, blacklist },
                )
            },
        }
    }

    fn after_tear_down(
        w: &mut GoosefsFileWriter,
        len: usize,
        e: Error,
        fatal: bool,
    ) -> (r: (WriteOp, WriteAction))
        requires
            old(w).wf(),
            (WriteOp { len, phase: WritePhase::TearDown(e, fatal) }).wf(*old(w)),
        ensures
            final(w).wf(),
            write_goes_on(
                WriteOp { len, phase: WritePhase::TearDown(e, fatal) },
                *old(w),
                Ok(()),
                r.0,
                *final(w),
                r.1,
            ),
            !(r.0.phase is Ended) ==> r.0.wf(*final(w)),
    {
        if fatal {
            w.flags.cancelled = true;
            WriteOp::fail(e)
        } else {
            w.tally.degraded = w.tally.degraded.wrapping_add(1);
            w.flags.should_cache = false;
            w.flags.ufs_write_enabled = true;
            WriteOp::to_storage(w, len)
        }
    }

    fn after_open(
        w: &mut GoosefsFileWriter,
        len: usize,
        outcome: Result<()>,
    ) -> (r: (WriteOp, WriteAction))
        requires
            old(w).wf(),
            (WriteOp { len, phase: WritePhase::OpenUfs }).wf(*old(w)),
        ensures
            final(w).wf(),
            write_goes_on(
                WriteOp { len, phase: WritePhase::OpenUfs },
                *old(w),
                outcome,
                r.0,
                *final(w),
                r.1,
            ),
            !(r.0.phase is Ended) ==> r.0.wf(*final(w)),
    {
        match outcome {
            Ok(_) => (WriteOp { len, phase: WritePhase::SendUfs }, WriteAction::SendUfs),
            Err(e) => WriteOp::fail(e),
        }
    }

    fn after_send(
        w: &mut GoosefsFileWriter,
        len: usize,
        outcome: Result<()>,
    ) -> (r: (WriteOp, WriteAction))
        requires
            old(w).wf(),
            (WriteOp { len, phase: WritePhase::SendUfs }).wf(*old(w)),
        ensures
            final(w).wf(),
            write_goes_on(
                WriteOp { len, phase: WritePhase::SendUfs },
                *old(w),
                outcome,
                r.0,
                *final(w),
                r.1,
            ),
            !(r.0.phase is Ended) ==> r.0.wf(*final(w)),
    {
        match outcome {
            Ok(_) => {
                w.tally.ufs = w.tally.ufs.wrapping_add(len as i64);
                w.total_bytes_written = w.total_bytes_written + len as u64;
                (WriteOp { len, phase: WritePhase::Ended }, WriteAction::Done(Ok(())))
            },
            Err(e) => {
                w.flags.ufs_stream_open = false;
                let worker_addr = w.ufs_worker_addr.take();
                (
                    WriteOp { len, phase: WritePhase::TearDownUfs(e) },
                    WriteAction::TearDownUfs { worker_addr },
                )
            },
        }
    }

    /// Takes in the outcome of the last action.
    pub fn step(self, w: &mut GoosefsFileWriter, outcome: Result<()>) -> (r: (WriteOp, WriteAction))
        requires
            old(w).wf(),
            self.wf(*old(w)),
        ensures
            final(w).wf(),
            write_goes_on(self, *old(w), outcome, r.0, *final(w), r.1),
            !(r.0.phase is Ended) ==> r.0.wf(*final(w)),
    {
        match self.phase {
            WritePhase::Router => WriteOp::after_router(w, self.len, outcome),
            WritePhase::Cache => WriteOp::after_cache(w, self.len, outcome),
            WritePhase::TearDown(e, fatal) => WriteOp::after_tear_down(w, self.len, e, fatal),
            WritePhase::OpenUfs => WriteOp::after_open(w, self.len, outcome),
            WritePhase::SendUfs => WriteOp::after_send(w, self.len, outcome),
            WritePhase::TearDownUfs(e) => WriteOp::fail(e),
            WritePhase::Ended => (
                WriteOp { len: self.len, phase: WritePhase::Ended },
                WriteAction::Done(outcome),
            ),
        }
    }
}

} // verus!
