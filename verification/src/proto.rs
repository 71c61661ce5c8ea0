//! Plain forms of the protocol messages that the client reads and fills.

use vstd::hash_map::StringHashMap;
use vstd::prelude::*;

verus! {

/// Write type of a file, as the protocol numbers it.
#[derive(Debug, Clone, Copy, PartialEq, Eq, Structural, Hash)]
pub enum WritePType {
    /// Number 0: not given.
    UnspecifiedWriteType,
    /// Number 1: cache only.
    MustCache,
    /// Number 2: cache if there is room.
    TryCache,
    /// Number 3: cache and storage.
    CacheThrough,
    /// Number 4: storage only.
    Through,
    /// Number 5: cache now, storage later.
    AsyncThrough,
    /// Number 6: neither.
    NoneWriteType,
}

impl WritePType {
    /// The number of the write type.
    pub open spec fn number(self) -> i32 {
        match self {
            WritePType::UnspecifiedWriteType => 0,
            WritePType::MustCache => 1,
            WritePType::TryCache => 2,
            WritePType::CacheThrough => 3,
            WritePType::Through => 4,
            WritePType::AsyncThrough => 5,
            WritePType::NoneWriteType => 6,
        }
    }

    /// The number of the write type.
    pub fn as_i32(self) -> (r: i32)
        ensures
            r == self.number(),
    {
        match self {
            WritePType::UnspecifiedWriteType => 0,
            WritePType::MustCache => 1,
            WritePType::TryCache => 2,
            WritePType::CacheThrough => 3,
            WritePType::Through => 4,
            WritePType::AsyncThrough => 5,
            WritePType::NoneWriteType => 6,
        }
    }

    /// The write type with number `n`.
    pub fn from_i32(n: i32) -> (r: Option<WritePType>)
        ensures
            r matches Some(t) ==> t.number() == n,
            r is None <==> !(0 <= n <= 6),
    {
        match n {
            0 => Some(WritePType::UnspecifiedWriteType),
            1 => Some(WritePType::MustCache),
            2 => Some(WritePType::TryCache),
            3 => Some(WritePType::CacheThrough),
            4 => Some(WritePType::Through),
            5 => Some(WritePType::AsyncThrough),
            6 => Some(WritePType::NoneWriteType),
            _ => None,
        }
    }
}

/// Network address of a worker.
#[derive(Debug)]
pub struct WorkerNetAddress {
    /// Host name.
    pub host: Option<String>,
    /// Port of the RPC service.
    pub rpc_port: Option<i32>,
}

impl Clone for WorkerNetAddress {
    fn clone(&self) -> (r: Self)
        ensures
            r == *self,
    {
        WorkerNetAddress {
            host: self.host.clone(),
            rpc_port: self.rpc_port,
        }
    }
}

impl Default for WorkerNetAddress {
    fn default() -> (r: Self)
        ensures
            r == (WorkerNetAddress { host: None, rpc_port: None }),
    {
        WorkerNetAddress { host: None, rpc_port: None }
    }
}

/// What the master reports of a worker.
#[derive(Debug)]
pub struct WorkerInfo {
    /// Identifier of the worker.
    pub id: Option<i64>,
    /// Address of the worker.
    pub address: Option<WorkerNetAddress>,
    /// Capacity in bytes.
    pub capacity_bytes: Option<i64>,
    /// Bytes that wait for persistence.
    pub persist_used_bytes: Option<i64>,
    /// Whether the worker takes no writes.
    pub forbid_write: Option<bool>,
}

impl Clone for WorkerInfo {
    fn clone(&self) -> (r: Self)
        ensures
            r == *self,
    {
        WorkerInfo {
            id: self.id,
            address: self.address.clone(),
            capacity_bytes: self.capacity_bytes,
            persist_used_bytes: self.persist_used_bytes,
            forbid_write: self.forbid_write,
        }
    }
}

impl Default for WorkerInfo {
    fn default() -> (r: Self)
        ensures
            r == (WorkerInfo {
                id: None,
                address: None,
                capacity_bytes: None,
                persist_used_bytes: None,
                forbid_write: None,
            }),
    {
        WorkerInfo {
            id: None,
            address: None,
            capacity_bytes: None,
            persist_used_bytes: None,
            forbid_write: None,
        }
    }
}

/// Identity and size of a block.
#[derive(Debug, Clone, Copy, PartialEq, Eq)]
pub struct BlockInfo {
    /// Identifier of the block.
    pub block_id: Option<i64>,
    /// Length in bytes.
    pub length: Option<i64>,
    /// Largest number of replicas.
    pub max_replicas: Option<i32>,
}

/// A block of a file, with its place in the file.
#[derive(Debug, Clone)]
pub struct FileBlockInfo {
    /// The block.
    pub block_info: Option<BlockInfo>,
    /// Offset of the block in the file.
    pub offset: Option<i64>,
    /// Workers near the block's bytes in the storage.
    pub ufs_locations: Vec<WorkerNetAddress>,
    /// Hosts near the block's bytes in the storage.
    pub ufs_string_locations: Vec<String>,
}

impl FileBlockInfo {
    /// The identifier of the block, if it is given.
    pub open spec fn id(self) -> Option<i64> {
        match self.block_info {
            Some(b) => b.block_id,
            None => None,
        }
    }

    /// The identifier of the block, if it is given.
    pub fn block_id(&self) -> (r: Option<i64>)
        ensures
            r == self.id(),
    {
        match &self.block_info {
            Some(b) => b.block_id,
            None => None,
        }
    }
}

/// What the master reports of a file or directory.
pub struct FileInfo {
    /// Inode identifier.
    pub file_id: Option<i64>,
    /// Last component of the path.
    pub name: Option<String>,
    /// Full path.
    pub path: Option<String>,
    /// Path in the storage.
    pub ufs_path: Option<String>,
    /// Length in bytes.
    pub length: Option<i64>,
    /// Block size in bytes.
    pub block_size_bytes: Option<i64>,
    /// Creation time, in milliseconds of the Unix epoch.
    pub creation_time_ms: Option<i64>,
    /// Whether the writer has completed the file.
    pub completed: Option<bool>,
    /// Whether this is a directory.
    pub folder: Option<bool>,
    /// Whether the data may be cached.
    pub cacheable: Option<bool>,
    /// Whether all data is in the storage.
    pub persisted: Option<bool>,
    /// Identifiers of the blocks, in order.
    pub block_ids: Vec<i64>,
    /// Time of the last change.
    pub last_modification_time_ms: Option<i64>,
    /// Time of the last access.
    pub last_access_time_ms: Option<i64>,
    /// Whether this is a mount point.
    pub mount_point: Option<bool>,
    /// Owner.
    pub owner: Option<String>,
    /// Group.
    pub group: Option<String>,
    /// Permission bits.
    pub mode: Option<i32>,
    /// State of persistence.
    pub persistence_state: Option<String>,
    /// Identifier of the mount.
    pub mount_id: Option<i64>,
    /// Share of the data in the cache.
    pub in_goose_fs_percentage: Option<i32>,
    /// Share of the data in memory.
    pub in_memory_percentage: Option<i32>,
    /// Fingerprint in the storage.
    pub ufs_fingerprint: Option<String>,
    /// The blocks.
    pub file_block_infos: Vec<FileBlockInfo>,
    /// Extended attributes.
    pub xattr: StringHashMap<Vec<u8>>,
    /// Target of a symbolic link.
    pub symlink: Option<String>,
}

impl Default for FileInfo {
    fn default() -> (r: Self)
        ensures
            r.file_id is None,
            r.name is None,
            r.path is None,
            r.ufs_path is None,
            r.length is None,
            r.block_size_bytes is None,
            r.creation_time_ms is None,
            r.completed is None,
            r.folder is None,
            r.cacheable is None,
            r.persisted is None,
            r.block_ids@.len() == 0,
            r.last_modification_time_ms is None,
            r.last_access_time_ms is None,
            r.mount_point is None,
            r.owner is None,
            r.group is None,
            r.mode is None,
            r.persistence_state is None,
            r.mount_id is None,
            r.in_goose_fs_percentage is None,
            r.in_memory_percentage is None,
            r.ufs_fingerprint is None,
            r.file_block_infos@.len() == 0,
            r.xattr@ == Map::<Seq<char>, Vec<u8>>::empty(),
            r.symlink is None,
    {
        FileInfo {
            file_id: None,
            name: None,
            path: None,
            ufs_path: None,
            length: None,
            block_size_bytes: None,
            creation_time_ms: None,
            completed: None,
            folder: None,
            cacheable: None,
            persisted: None,
            block_ids: Vec::new(),
            last_modification_time_ms: None,
            last_access_time_ms: None,
            mount_point: None,
            owner: None,
            group: None,
            mode: None,
            persistence_state: None,
            mount_id: None,
            in_goose_fs_percentage: None,
            in_memory_percentage: None,
            ufs_fingerprint: None,
            file_block_infos: Vec::new(),
            xattr: StringHashMap::new(),
            symlink: None,
        }
    }
}

/// How to find a block in the storage.
#[derive(Debug)]
pub struct OpenUfsBlockOptions {
    /// Path in the storage.
    pub ufs_path: Option<String>,
    /// Offset of the block in the file.
    pub offset_in_file: Option<i64>,
    /// Size of the block.
    pub block_size: Option<i64>,
    /// Largest number of concurrent reads of the storage.
    pub max_ufs_read_concurrency: Option<i32>,
    /// Identifier of the mount.
    pub mount_id: Option<i64>,
    /// Whether the worker shall not cache the block.
    pub no_cache: Option<bool>,
    /// User on whose behalf the block is read.
    pub user: Option<String>,
}

impl Clone for OpenUfsBlockOptions {
    fn clone(&self) -> (r: Self)
        ensures
            r == *self,
    {
        OpenUfsBlockOptions {
            ufs_path: self.ufs_path.clone(),
            offset_in_file: self.offset_in_file,
            block_size: self.block_size,
            max_ufs_read_concurrency: self.max_ufs_read_concurrency,
            mount_id: self.mount_id,
            no_cache: self.no_cache,
            user: self.user.clone(),
        }
    }
}

/// How to create a file in the storage.
#[derive(Debug)]
pub struct CreateUfsFileOptions {
    /// Path in the storage.
    pub ufs_path: Option<String>,
    /// Owner.
    pub owner: Option<String>,
    /// Group.
    pub group: Option<String>,
    /// Permission bits.
    pub mode: Option<i32>,
    /// Identifier of the mount.
    pub mount_id: Option<i64>,
}

impl Clone for CreateUfsFileOptions {
    fn clone(&self) -> (r: Self)
        ensures
            r == *self,
    {
        CreateUfsFileOptions {
            ufs_path: self.ufs_path.clone(),
            owner: self.owner.clone(),
            group: self.group.clone(),
            mode: self.mode,
            mount_id: self.mount_id,
        }
    }
}

/// Where the replicas of a block are.
#[derive(Debug, PartialEq, Eq)]
pub struct FileLocation {
    /// Identifier of the block.
    pub block_id: Option<i64>,
    /// Offset of the block in the file.
    pub offset: Option<i64>,
    /// Length of the block.
    pub length: Option<i64>,
    /// Workers that hold the block.
    pub worker_id: Vec<i64>,
}

impl FileLocation {
    /// Equality of the contents.
    pub open spec fn same(self, other: Self) -> bool {
        &&& self.block_id == other.block_id
        &&& self.offset == other.offset
        &&& self.length == other.length
        &&& self.worker_id@ == other.worker_id@
    }
}

impl Clone for FileLocation {
    fn clone(&self) -> (r: Self)
        ensures
            r.same(*self),
    {
        FileLocation {
            block_id: self.block_id,
            offset: self.offset,
            length: self.length,
            worker_id: self.worker_id.clone(),
        }
    }
}

/// When the master shall persist a file.
#[derive(Debug, Clone, Copy, PartialEq, Eq, Structural)]
pub struct ScheduleAsyncPersistencePOptions {
    /// Time to wait, in milliseconds.
    pub persistence_wait_time: Option<i64>,
}

/// Identifier of an operation, by which the master knows a retry.
#[derive(Debug, Clone, Copy, PartialEq, Eq, Structural)]
pub struct FsOpPId {
    /// The upper half.
    pub most_significant_bits: Option<i64>,
    /// The lower half.
    pub least_significant_bits: Option<i64>,
}

/// How to complete a file.
#[derive(Debug)]
pub struct CompleteFileOptions {
    /// Length of the file.
    pub ufs_length: Option<i64>,
    /// Identifier of the operation.
    pub operation_id: Option<FsOpPId>,
    /// Where the last block is.
    pub locations: Vec<FileLocation>,
    /// When the master shall persist the file.
    pub async_persist_options: Option<ScheduleAsyncPersistencePOptions>,
    /// Whether the file already is in the storage.
    pub force_persisted: Option<bool>,
}

/// When the master loads the metadata of a path from the storage.
#[derive(Debug, Clone, Copy, PartialEq, Eq, Structural)]
pub enum LoadMetadataPType {
    /// Never.
    Never,
    /// Once.
    Once,
    /// Always.
    Always,
}

/// Permission bits of a new file: owner, group and others.
#[derive(Debug, Clone, Copy, PartialEq, Eq, Structural)]
pub struct PMode {
    /// Bits of the owner.
    pub owner_bits: i32,
    /// Bits of the group.
    pub group_bits: i32,
    /// Bits of the others.
    pub other_bits: i32,
}

/// How to create a file.
#[derive(Debug, Clone, Copy, PartialEq, Eq, Structural)]
pub struct CreateFilePOptions {
    /// Block size in bytes.
    pub block_size_bytes: Option<i64>,
    /// Whether to create missing directories.
    pub recursive: Option<bool>,
    /// Permission bits.
    pub mode: Option<PMode>,
    /// Number of the write type.
    pub write_type: Option<i32>,
    /// Replication factor; the master's default if unset.
    pub replication_max: Option<i32>,
}

impl Default for CreateFilePOptions {
    fn default() -> (r: Self)
        ensures
            r == (CreateFilePOptions {
                block_size_bytes: None,
                recursive: None,
                mode: None,
                write_type: None,
                replication_max: None,
            }),
    {
        CreateFilePOptions {
            block_size_bytes: None,
            recursive: None,
            mode: None,
            write_type: None,
            replication_max: None,
        }
    }
}

/// A piece of a block's data.
#[derive(Debug, Clone)]
pub struct Chunk {
    /// The bytes.
    pub data: Option<Vec<u8>>,
}

/// A frame of a read stream.
#[derive(Debug, Clone)]
pub struct ReadResponse {
    /// The data of the frame.
    pub chunk: Option<Chunk>,
}

/// Type of a metric, as the protocol numbers it.
#[derive(Debug, Clone, Copy, PartialEq, Eq, Structural)]
pub enum MetricType {
    /// Number 0: a value at a point in time.
    Gauge,
    /// Number 1: a sum.
    Counter,
}

impl MetricType {
    /// The number of the type.
    pub open spec fn number(self) -> i32 {
        match self {
            MetricType::Gauge => 0,
            MetricType::Counter => 1,
        }
    }

    /// The number of the type.
    pub fn as_i32(self) -> (r: i32)
        ensures
            r == self.number(),
    {
        match self {
            MetricType::Gauge => 0,
            MetricType::Counter => 1,
        }
    }
}

/// A metric as it is reported.
#[derive(Debug, Clone)]
pub struct Metric {
    /// Kind of process that reports.
    pub instance: Option<String>,
    /// Process that reports.
    pub source: Option<String>,
    /// Name without the kind of process.
    pub name: Option<String>,
    /// Value.
    pub value: Option<i64>,
    /// Number of the type.
    pub metric_type: i32,
}

/// The characters of an optional string.
pub open spec fn text_view(o: Option<String>) -> Option<Seq<char>> {
    match o {
        Some(s) => Some(s@),
        None => None,
    }
}

/// What a metric says.
pub struct MetricView {
    /// Kind of process that reports.
    pub instance: Option<Seq<char>>,
    /// Process that reports.
    pub source: Option<Seq<char>>,
    /// Name without the kind of process.
    pub name: Option<Seq<char>>,
    /// Value.
    pub value: Option<i64>,
    /// Number of the type.
    pub metric_type: i32,
}

impl View for Metric {
    type V = MetricView;

    open spec fn view(&self) -> MetricView {
        MetricView {
            instance: text_view(self.instance),
            source: text_view(self.source),
            name: text_view(self.name),
            value: self.value,
            metric_type: self.metric_type,
        }
    }
}

/// What each metric of a list says.
pub open spec fn metric_views(metrics: Seq<Metric>) -> Seq<MetricView> {
    metrics.map_values(|m: Metric| m@)
}

/// The metrics of one client.
#[derive(Debug, Clone)]
pub struct ClientMetrics {
    /// The client.
    pub source: Option<String>,
    /// Its metrics.
    pub metrics: Vec<Metric>,
}

} // verus!
