//! Reading a file block by block.

use vstd::prelude::*;
use vstd::string::*;

use crate::buffer::held;
use crate::error::{Error, ErrorView, Result};
use crate::fs::options::{block_length, ufs_block_length};
use crate::fs::uri_status::i64_or_zero;
use crate::io::connect::{endpoint_of, worker_endpoint, NO_ADDRESS, NO_RETRY_ADDRESS};
use crate::proto::{FileInfo, OpenUfsBlockOptions, WorkerInfo, WorkerNetAddress};

verus! {

/// Block size of a file that reports none.
pub const DEFAULT_READ_BLOCK_SIZE: i64 = 67108864;

/// The part of a block that is read.
#[derive(Debug, Clone, Copy, PartialEq, Eq, Structural)]
pub struct BlockReadPlan {
    /// Place of the block in the file.
    pub block_index: u64,
    /// Identifier of the block.
    pub block_id: i64,
    /// Where in the block the part starts.
    pub offset_in_block: u64,
    /// Length of the part.
    pub length: u64,
}

/// The reader of a file, without its connections.
pub struct GoosefsFileReader {
    /// Path of the file.
    pub path: String,
    /// What the master reported of the file.
    pub file_info: FileInfo,
    /// Bytes of a chunk on the wire.
    pub chunk_size: u64,
    /// The parts of the blocks to read.
    pub plans: Vec<BlockReadPlan>,
    /// The part that is read next.
    pub current_plan_index: usize,
    /// Bytes read so far.
    pub total_bytes_read: u64,
    /// Where in the file the read starts.
    pub offset: u64,
    /// Length of the read.
    pub length: u64,
}

/// The identifier of the block of a plan: the one that the master reported for
/// its place, if it is usable, and else that of the plan.
pub open spec fn resolved_id(info: FileInfo, plan: BlockReadPlan) -> i64 {
    let i = plan.block_index as int;
    if i < info.file_block_infos@.len() && (info.file_block_infos@[i].id() matches Some(id) && id
        > 0) {
        info.file_block_infos@[i].id()->0
    } else {
        plan.block_id
    }
}

/// The first part from `from` on whose block has a usable identifier.
pub open spec fn first_readable(info: FileInfo, plans: Seq<BlockReadPlan>, from: int) -> int
    decreases plans.len() - from,
{
    if from >= plans.len() {
        plans.len() as int
    } else if resolved_id(info, plans[from]) > 0 {
        from
    } else {
        first_readable(info, plans, from + 1)
    }
}

impl GoosefsFileReader {
    /// Whether the next part is one of the parts, or behind them.
    pub open spec fn wf(self) -> bool {
        self.current_plan_index <= self.plans@.len()
    }

    /// A reader of the given parts.
    pub fn new(
        path: &str,
        file_info: FileInfo,
        chunk_size: u64,
        plans: Vec<BlockReadPlan>,
        offset: u64,
        length: u64,
    ) -> (r: Self)
        ensures
            r.wf(),
            r.path@ == path@,
            r.file_info == file_info,
            r.chunk_size == chunk_size,
            r.plans == plans,
            r.current_plan_index == 0,
            r.total_bytes_read == 0,
            r.offset == offset,
            r.length == length,
    {
        GoosefsFileReader {
            path: path.to_owned(),
            file_info,
            chunk_size,
            plans,
            current_plan_index: 0,
            total_bytes_read: 0,
            offset,
            length,
        }
    }

    /// The identifier of the block of a plan.
    pub fn resolve_block_id(&self, plan: &BlockReadPlan) -> (r: i64)
        ensures
            r == resolved_id(self.file_info, *plan),
    {
        if plan.block_index < self.file_info.file_block_infos.len() as u64 {
            let info = &self.file_info.file_block_infos[plan.block_index as usize];
            if let Some(id) = info.block_id() {
                if id > 0 {
                    return id;
                }
            }
        }
        plan.block_id
    }

    /// Whether `options` say where the worker finds the block of a plan in the
    /// storage. There are none if the file is not there.
    pub open spec fn locates_block(
        self,
        plan: BlockReadPlan,
        options: Option<OpenUfsBlockOptions>,
    ) -> bool {
        let size: i64 = match self.file_info.block_size_bytes {
            Some(n) => n,
            None => DEFAULT_READ_BLOCK_SIZE,
        };
        match options {
            None => self.file_info.ufs_path is None || self.file_info.ufs_path->0@.len() == 0,
            Some(o) => {
                &&& self.file_info.ufs_path matches Some(p) && p@.len() > 0
                &&& o.ufs_path == self.file_info.ufs_path
                &&& o.offset_in_file == Some(i64::wrapping_mul(plan.block_index as i64, size))
                &&& o.block_size == Some(
                    block_length(
                        i64_or_zero(self.file_info.length) as int,
                        size as int,
                        plan.block_index as int,
                    ) as i64,
                )
                &&& o.max_ufs_read_concurrency is None
                &&& o.mount_id == self.file_info.mount_id
                &&& o.no_cache == Some(self.file_info.cacheable == Some(false))
                &&& o.user is None
            },
        }
    }

    /// Where the worker finds the block of a plan in the storage, if the file
    /// is there.
    pub fn build_ufs_read_options(&self, plan: &BlockReadPlan) -> (r: Option<OpenUfsBlockOptions>)
        ensures
            self.locates_block(*plan, r),
    {
        let ufs_path = match &self.file_info.ufs_path {
            Some(p) => p,
            None => return None,
        };
        if ufs_path.as_str().unicode_len() == 0 {
            return None;
        }
        let size: i64 = match self.file_info.block_size_bytes {
            Some(n) => n,
            None => DEFAULT_READ_BLOCK_SIZE,
        };
        let file_length: i64 = match self.file_info.length {
            Some(n) => n,
            None => 0,
        };
        let cacheable = match self.file_info.cacheable {
            Some(b) => b,
            None => true,
        };
        Some(
            OpenUfsBlockOptions {
                ufs_path: Some(ufs_path.clone()),
                offset_in_file: Some((plan.block_index as i64).wrapping_mul(size)),
                block_size: Some(ufs_block_length(file_length, size, plan.block_index)),
                max_ufs_read_concurrency: None,
                mount_id: self.file_info.mount_id,
                no_cache: Some(!cacheable),
                user: None,
            },
        )
    }

    /// Skips the parts whose block has no usable identifier. The result is the
    /// identifier of the next block, or `None` if none is left.
    pub fn skip_unreadable(&mut self) -> (r: Option<i64>)
        requires
            old(self).wf(),
        ensures
            final(self).wf(),
            final(self).current_plan_index == first_readable(
                old(self).file_info,
                old(self).plans@,
                old(self).current_plan_index as int,
            ),
            *final(self) == (GoosefsFileReader {
                current_plan_index: first_readable(
                    old(self).file_info,
                    old(self).plans@,
                    old(self).current_plan_index as int,
                ) as usize,
                ..*old(self)
            }),
            match r {
                Some(id) => {
                    &&& final(self).current_plan_index < final(self).plans@.len()
                    &&& id == resolved_id(
                        final(self).file_info,
                        final(self).plans@[final(self).current_plan_index as int],
                    )
                    &&& id > 0
                },
                None => final(self).current_plan_index == final(self).plans@.len(),
            },
    {
        while self.current_plan_index < self.plans.len()
            invariant
                self.wf(),
                *self == (GoosefsFileReader {
                    current_plan_index: self.current_plan_index,
                    ..*old(self)
                }),
                first_readable(
                    self.file_info,
                    self.plans@,
                    old(self).current_plan_index as int,
                ) == first_readable(self.file_info, self.plans@, self.current_plan_index as int),
            decreases self.plans@.len() - self.current_plan_index,
        {
            let id: i64 = self.resolve_block_id(&self.plans[self.current_plan_index]);
            if id > 0 {
                return Some(id);
            }
            self.current_plan_index = self.current_plan_index + 1;
        }
        None
    }

    /// The path of the file.
    pub fn path(&self) -> (r: &str)
        ensures
            r@ == self.path@,
    {
        self.path.as_str()
    }

    /// What the master reported of the file.
    pub fn file_info(&self) -> (r: &FileInfo)
        ensures
            *r == self.file_info,
    {
        &self.file_info
    }

    /// The length of the file.
    pub fn file_length(&self) -> (r: u64)
        ensures
            r == i64_or_zero(self.file_info.length) as u64,
    {
        match self.file_info.length {
            Some(n) => n as u64,
            None => 0,
        }
    }

    /// The bytes read so far.
    pub fn bytes_read(&self) -> (r: u64)
        ensures
            r == self.total_bytes_read,
    {
        self.total_bytes_read
    }

    /// The number of parts.
    pub fn block_count(&self) -> (r: usize)
        ensures
            r == self.plans@.len(),
    {
        self.plans.len()
    }

    /// The part that is read next.
    pub fn current_block_index(&self) -> (r: usize)
        ensures
            r == self.current_plan_index,
    {
        self.current_plan_index
    }

    /// Tells whether all parts have been read.
    pub fn is_complete(&self) -> (r: bool)
        ensures
            r == (self.current_plan_index >= self.plans@.len()),
    {
        self.current_plan_index >= self.plans.len()
    }

    /// Where in the file the read starts.
    pub fn offset(&self) -> (r: u64)
        ensures
            r == self.offset,
    {
        self.offset
    }

    /// The length of the read.
    pub fn length(&self) -> (r: u64)
        ensures
            r == self.length,
    {
        self.length
    }
}

/// Where the read of a block stands.
#[derive(Debug)]
pub enum BlockPhase {
    /// A worker is selected.
    Select,
    /// The worker at the address is connected to.
    Connect(WorkerNetAddress),
    /// The worker is connected to anew, because it rejected the credentials.
    Reconnect,
    /// Another worker is selected, because of an error.
    SelectAgain(Error),
    /// That worker is connected to.
    ConnectAgain,
    /// The block is read.
    Read,
    /// The worker is connected to anew, because the connection was stale.
    Refresh,
    /// The block is read once more.
    ReadAgain,
    /// The read has ended.
    Ended,
}

/// What the read of a block asks for.
#[derive(Debug)]
pub enum BlockAction {
    /// Select a worker for the block.
    Select,
    /// Connect to the endpoint.
    Connect(String),
    /// Connect to the endpoint anew.
    Reconnect(String),
    /// Count the worker at the address as failed, and select another one.
    FailAndSelect(WorkerNetAddress),
    /// Read the part of the block.
    Read {
        /// Identifier of the block.
        block_id: i64,
        /// Where in the block the part starts.
        offset: i64,
        /// Length of the part.
        length: i64,
        /// Bytes of a chunk.
        chunk_size: i64,
        /// Where the worker finds the block in the storage.
        ufs_options: Option<OpenUfsBlockOptions>,
    },
    /// Connect to the endpoint anew, unless that happened since the connection
    /// in use was made.
    Refresh(String),
    /// Return the result: the bytes of the part, or `None` if no part is left.
    Done(Result<Option<bytes::Bytes>>),
}

/// The read of the next block.
///
/// A worker that rejects the credentials is connected to anew, and the read is
/// tried once more. A worker that cannot be reached counts as failed, and
/// another one is tried once.
#[derive(Debug)]
pub struct BlockReadOp {
    /// Identifier of the block.
    pub block_id: i64,
    /// Endpoint of the worker.
    pub endpoint: String,
    /// Where the read stands.
    pub phase: BlockPhase,
}

/// The read ends with an error.
pub open spec fn block_fails(op: BlockReadOp, action: BlockAction, e: Error) -> bool {
    op.phase is Ended && action == BlockAction::Done(Err(e))
}

/// The read ends with an internal error.
pub open spec fn block_lacks(op: BlockReadOp, action: BlockAction, text: Seq<char>) -> bool {
    &&& op.phase is Ended
    &&& action matches BlockAction::Done(Err(e)) && e@ == (ErrorView::Internal {
        message: text,
        source: None,
    })
}

/// The part of the block is asked for.
pub open spec fn reads_block(
    s: GoosefsFileReader,
    op0: BlockReadOp,
    op1: BlockReadOp,
    action: BlockAction,
) -> bool {
    let plan = s.plans@[s.current_plan_index as int];
    &&& op1.block_id == op0.block_id
    &&& op1.endpoint@ == op0.endpoint@
    &&& action matches BlockAction::Read { block_id, offset, length, chunk_size, ufs_options }
        && block_id == op0.block_id && offset == plan.offset_in_block as i64 && length
        == plan.length as i64 && chunk_size == s.chunk_size as i64
        && s.locates_block(plan, ufs_options)
}

/// The part has been read.
pub open spec fn takes_block(
    s0: GoosefsFileReader,
    data: bytes::Bytes,
    s1: GoosefsFileReader,
    op: BlockReadOp,
    action: BlockAction,
) -> bool {
    &&& s1 == (GoosefsFileReader {
        total_bytes_read: u64::wrapping_add(s0.total_bytes_read, held(data).len() as u64),
        current_plan_index: (s0.current_plan_index + 1) as usize,
        ..s0
    })
    &&& op.phase is Ended
    &&& action == BlockAction::Done(Ok(Some(data)))
}

impl BlockReadOp {
    /// Whether the read can be in progress: there is a part to read.
    pub open spec fn wf(self, s: GoosefsFileReader) -> bool {
        self.phase is Ended || s.current_plan_index < s.plans@.len()
    }

    fn ended(outcome: Result<Option<bytes::Bytes>>) -> (r: (BlockReadOp, BlockAction))
        ensures
            r.0.phase is Ended,
            r.1 == BlockAction::Done(outcome),
    {
        (
            BlockReadOp { block_id: -1, endpoint: String::new(), phase: BlockPhase::Ended },
            BlockAction::Done(outcome),
        )
    }

    fn lacks(text: &str) -> (r: (BlockReadOp, BlockAction))
        ensures
            block_lacks(r.0, r.1, text@),
    {
        BlockReadOp::ended(Err(Error::Internal { message: text.to_owned(), source: None }))
    }

    /// Starts to read the next block.
    pub fn start(s: &mut GoosefsFileReader) -> (r: (BlockReadOp, BlockAction))
        requires
            old(s).wf(),
        ensures
            final(s).wf(),
            r.0.wf(*final(s)),
            ({
                let next = first_readable(
                    old(s).file_info,
                    old(s).plans@,
                    old(s).current_plan_index as int,
                );
                &&& *final(s) == (GoosefsFileReader {
                    current_plan_index: next as usize,
                    ..*old(s)
                })
                &&& if next < old(s).plans@.len() {
                    &&& r.0.phase is Select
                    &&& r.0.block_id == resolved_id(old(s).file_info, old(s).plans@[next])
                    &&& r.1 is Select
                } else {
                    r.0.phase is Ended && r.1 == BlockAction::Done(Ok(None))
                }
            }),
    {
        proof {
            s.lemma_first_readable(s.current_plan_index as int);
        }
        match s.skip_unreadable() {
            None => BlockReadOp::ended(Ok(None)),
            Some(block_id) => (
                BlockReadOp { block_id, endpoint: String::new(), phase: BlockPhase::Select },
                BlockAction::Select,
            ),
        }
    }

    /// Takes in the worker that was selected.
    pub fn selected(self, outcome: Result<WorkerInfo>) -> (r: (BlockReadOp, BlockAction))
        requires
            self.phase is Select || self.phase is SelectAgain,
        ensures
            match (self.phase, outcome) {
                (_, Ok(worker)) => match worker.address {
                    Some(a) => {
                        &&& r.0.block_id == self.block_id
                        &&& r.0.endpoint@ == endpoint_of(a)
                        &&& r.0.phase == (if self.phase is Select {
                            BlockPhase::Connect(a)
                        } else {
                            BlockPhase::ConnectAgain
                        })
                        &&& r.1 matches BlockAction::Connect(s) && s@ == endpoint_of(a)
                    },
                    None => block_lacks(
                        r.0,
                        r.1,
                        if self.phase is Select {
                            NO_ADDRESS@
                        } else {
                            NO_RETRY_ADDRESS@
                        },
                    ),
                },
                (BlockPhase::SelectAgain(first), Err(_)) => block_fails(r.0, r.1, first),
                (_, Err(e)) => block_fails(r.0, r.1, e),
            },
    {
        let first = match &self.phase {
            BlockPhase::Select => true,
            _ => false,
        };
        match outcome {
            Err(e) => match self.phase {
                BlockPhase::SelectAgain(first_error) => BlockReadOp::ended(Err(first_error)),
                _ => BlockReadOp::ended(Err(e)),
            },
            Ok(worker) => match worker.address {
                None => if first {
                    BlockReadOp::lacks(NO_ADDRESS)
                } else {
                    BlockReadOp::lacks(NO_RETRY_ADDRESS)
                },
                Some(a) => {
                    let endpoint = worker_endpoint(&a);
                    let action = BlockAction::Connect(endpoint.clone());
                    let phase = if first {
                        BlockPhase::Connect(a)
                    } else {
                        BlockPhase::ConnectAgain
                    };
                    (BlockReadOp { block_id: self.block_id, endpoint, phase }, action)
                },
            },
        }
    }

    fn ask_for_range(self, s: &GoosefsFileReader, phase: BlockPhase) -> (r: (BlockReadOp, BlockAction))
        requires
            s.current_plan_index < s.plans@.len(),
        ensures
            r.0.phase == phase,
            reads_block(*s, self, r.0, r.1),
    {
        let plan = s.plans[s.current_plan_index];
        let action = BlockAction::Read {
            block_id: self.block_id,
            offset: plan.offset_in_block as i64,
            length: plan.length as i64,
            chunk_size: s.chunk_size as i64,
            ufs_options: s.build_ufs_read_options(&plan),
        };
        (BlockReadOp { phase, ..self }, action)
    }

    /// Takes in whether the connection was made.
    pub fn connected(self, s: &GoosefsFileReader, outcome: Result<()>) -> (r: (
        BlockReadOp,
        BlockAction,
    ))
        requires
            self.wf(*s),
            self.phase is Connect || self.phase is Reconnect || self.phase is ConnectAgain
                || self.phase is Refresh,
        ensures
            r.0.wf(*s),
            match (self.phase, outcome) {
                (BlockPhase::Refresh, Ok(_)) => r.0.phase is ReadAgain && reads_block(
                    *s,
                    self,
                    r.0,
                    r.1,
                ),
                (_, Ok(_)) => r.0.phase is Read && reads_block(*s, self, r.0, r.1),
                (BlockPhase::Connect(a), Err(e)) => if e is AuthenticationFailed {
                    &&& r.0.block_id == self.block_id
                    &&& r.0.endpoint@ == self.endpoint@
                    &&& r.0.phase is Reconnect
                    &&& r.1 matches BlockAction::Reconnect(t) && t@ == self.endpoint@
                } else {
                    &&& r.0.block_id == self.block_id
                    &&& r.0.phase == BlockPhase::SelectAgain(e)
                    &&& r.1 == BlockAction::FailAndSelect(a)
                },
                (_, Err(e)) => block_fails(r.0, r.1, e),
            },
    {
        match outcome {
            Ok(_) => match self.phase {
                BlockPhase::Refresh => self.ask_for_range(s, BlockPhase::ReadAgain),
                _ => self.ask_for_range(s, BlockPhase::Read),
            },
            Err(e) => match self.phase {
                BlockPhase::Connect(a) => if e.is_authentication_failed() {
                    let action = BlockAction::Reconnect(self.endpoint.clone());
                    (
                        BlockReadOp {
                            block_id: self.block_id,
                            endpoint: self.endpoint,
                            phase: BlockPhase::Reconnect,
                        },
                        action,
                    )
                } else {
                    (
                        BlockReadOp {
                            block_id: self.block_id,
                            endpoint: self.endpoint,
                            phase: BlockPhase::SelectAgain(e),
                        },
                        BlockAction::FailAndSelect(a),
                    )
                },
                _ => BlockReadOp::ended(Err(e)),
            },
        }
    }

    fn take(s: &mut GoosefsFileReader, data: bytes::Bytes) -> (r: (BlockReadOp, BlockAction))
        requires
            old(s).current_plan_index < old(s).plans@.len(),
        ensures
            final(s).wf(),
            takes_block(*old(s), data, *final(s), r.0, r.1),
    {
        let count: usize = s.plans.len();
        s.total_bytes_read = s.total_bytes_read.wrapping_add(data.len() as u64);
        if s.current_plan_index < count {
            s.current_plan_index = s.current_plan_index + 1;
        }
        BlockReadOp::ended(Ok(Some(data)))
    }

    /// Takes in what reading the block gave.
    pub fn read_done(self, s: &mut GoosefsFileReader, outcome: Result<bytes::Bytes>) -> (r: (
        BlockReadOp,
        BlockAction,
    ))
        requires
            old(s).wf(),
            self.wf(*old(s)),
            self.phase is Read || self.phase is ReadAgain,
        ensures
            final(s).wf(),
            r.0.wf(*final(s)),
            match (self.phase, outcome) {
                (_, Ok(data)) => takes_block(*old(s), data, *final(s), r.0, r.1),
                (BlockPhase::Read, Err(e)) => {
                    &&& *final(s) == *old(s)
                    &&& if e is AuthenticationFailed {
                        &&& r.0.block_id == self.block_id
                        &&& r.0.endpoint@ == self.endpoint@
                        &&& r.0.phase is Refresh
                        &&& r.1 matches BlockAction::Refresh(t) && t@ == self.endpoint@
                    } else {
                        block_fails(r.0, r.1, e)
                    }
                },
                (_, Err(e)) => *final(s) == *old(s) && block_fails(r.0, r.1, e),
            },
    {
        match outcome {
            Ok(data) => BlockReadOp::take(s, data),
            Err(e) => match self.phase {
                BlockPhase::Read => if e.is_authentication_failed() {
                    let action = BlockAction::Refresh(self.endpoint.clone());
                    (
                        BlockReadOp {
                            block_id: self.block_id,
                            endpoint: self.endpoint,
                            phase: BlockPhase::Refresh,
                        },
                        action,
                    )
                } else {
                    BlockReadOp::ended(Err(e))
                },
                _ => BlockReadOp::ended(Err(e)),
            },
        }
    }
}

impl GoosefsFileReader {
    proof fn lemma_first_readable(self, from: int)
        requires
            0 <= from <= self.plans@.len(),
        ensures
            from <= first_readable(self.file_info, self.plans@, from) <= self.plans@.len(),
        decreases self.plans@.len() - from,
    {
        if from < self.plans@.len() && resolved_id(self.file_info, self.plans@[from]) <= 0 {
            self.lemma_first_readable(from + 1);
        }
    }
}

/// The parts are read in order, and none is left out whose block has a usable
/// identifier: the next one is the first such part from here on.
pub proof fn law_no_readable_part_is_left_out(
    info: FileInfo,
    plans: Seq<BlockReadPlan>,
    from: int,
    i: int,
)
    requires
        0 <= from <= i < first_readable(info, plans, from),
        i < plans.len(),
    ensures
        resolved_id(info, plans[i]) <= 0,
    decreases plans.len() - from,
{
    if resolved_id(info, plans[from]) <= 0 && from < i {
        law_no_readable_part_is_left_out(info, plans, from + 1, i);
    }
}

} // verus!
