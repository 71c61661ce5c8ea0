//! Options of file-system operations.

use vstd::prelude::*;

use crate::config::kinds::WriteType;
use crate::fs::write_type::WriteTypeXAttr;
use crate::proto::LoadMetadataPType;

verus! {

/// Whether a read fills the cache.
#[derive(Debug, Clone, Copy, PartialEq, Eq, Structural)]
pub enum ReadType {
    /// The data is not cached.
    NoCache,
    /// The data is cached on the nearest worker.
    Cache,
}

impl Default for ReadType {
    fn default() -> (r: Self)
        ensures
            r == ReadType::Cache,
    {
        ReadType::Cache
    }
}

impl ReadType {
    /// The number of the type in the protocol.
    pub fn to_proto(self) -> (r: i32)
        ensures
            r == (match self {
                ReadType::NoCache => 1i32,
                ReadType::Cache => 2i32,
            }),
    {
        match self {
            ReadType::NoCache => 1,
            ReadType::Cache => 2,
        }
    }
}

/// How an open stream reads.
#[derive(Debug, Clone, Copy, PartialEq, Eq, Structural)]
pub struct InStreamOptions {
    /// Whether the read fills the cache.
    pub read_type: ReadType,
    /// Whether this is a short read at a position, for which the worker does
    /// not prefetch.
    pub position_short: bool,
    /// Largest number of concurrent reads of the storage.
    pub max_ufs_read_concurrency: i32,
    /// Number of chunks to prefetch.
    pub prefetch_window: i32,
}

impl InStreamOptions {
    /// The default options.
    pub open spec fn standard() -> Self {
        InStreamOptions {
            read_type: ReadType::Cache,
            position_short: false,
            max_ufs_read_concurrency: 8,
            prefetch_window: 1,
        }
    }

    /// Options of a read that does not fill the cache.
    pub fn no_cache() -> (r: Self)
        ensures
            r == (InStreamOptions { read_type: ReadType::NoCache, ..InStreamOptions::standard() }),
    {
        InStreamOptions {
            read_type: ReadType::NoCache,
            position_short: false,
            max_ufs_read_concurrency: 8,
            prefetch_window: 1,
        }
    }

    /// The same options, for a read at a position.
    pub fn positioned(self) -> (r: Self)
        ensures
            r == (InStreamOptions { position_short: true, ..self }),
    {
        InStreamOptions { position_short: true, ..self }
    }
}

impl Default for InStreamOptions {
    fn default() -> (r: Self)
        ensures
            r == InStreamOptions::standard(),
    {
        InStreamOptions {
            read_type: ReadType::Cache,
            position_short: false,
            max_ufs_read_concurrency: 8,
            prefetch_window: 1,
        }
    }
}

/// The bytes that a file of `file_length` bytes has in the block at place
/// `block_index`: the size of a block, less at the end of the file, and none
/// behind it.
pub open spec fn block_length(file_length: int, block_size: int, block_index: int) -> int {
    let left = file_length - block_index * block_size;
    if block_size <= 0 || left <= 0 {
        0
    } else if left < block_size {
        left
    } else {
        block_size
    }
}

/// The bytes that a file has in the block at place `block_index`.
pub fn ufs_block_length(file_length: i64, block_size_bytes: i64, block_index: u64) -> (r: i64)
    ensures
        r == block_length(file_length as int, block_size_bytes as int, block_index as int),
{
    if block_size_bytes <= 0 {
        return 0;
    }
    let size: i128 = block_size_bytes as i128;
    proof {
        assert(block_index * size <= 0xffff_ffff_ffff_ffff * 0x7fff_ffff_ffff_ffff)
            by (nonlinear_arith)
            requires
                0 <= block_index <= 0xffff_ffff_ffff_ffff,
                0 <= size <= 0x7fff_ffff_ffff_ffff,
        ;
        assert(0 <= block_index * size) by (nonlinear_arith)
            requires
                0 <= block_index,
                0 <= size,
        ;
    }
    let left: i128 = file_length as i128 - block_index as i128 * size;
    if left <= 0 {
        0
    } else if left < size {
        left as i64
    } else {
        block_size_bytes
    }
}

/// The blocks of a file together hold its bytes: the blocks before a place hold
/// what the file has up to there.
pub proof fn law_blocks_cover_the_file(file_length: nat, block_size: nat, blocks: nat)
    requires
        block_size > 0,
    ensures
        total_length(file_length as int, block_size as int, blocks) == (if blocks * block_size
            < file_length {
            blocks * block_size
        } else {
            file_length
        }),
    decreases blocks,
{
    if blocks > 0 {
        let before = (blocks - 1) as nat;
        law_blocks_cover_the_file(file_length, block_size, before);
        assert(blocks * block_size == before * block_size + block_size) by (nonlinear_arith)
            requires
                blocks == before + 1,
        ;
    } else {
        assert(blocks * block_size == 0) by (nonlinear_arith)
            requires
                blocks == 0,
        ;
    }
}

/// The bytes in the first `blocks` blocks of a file.
pub open spec fn total_length(file_length: int, block_size: int, blocks: nat) -> int
    decreases blocks,
{
    if blocks == 0 {
        0
    } else {
        total_length(file_length, block_size, (blocks - 1) as nat) + block_length(
            file_length,
            block_size,
            blocks - 1,
        )
    }
}

/// How to open a file for reading.
#[derive(Debug, Clone, Copy, PartialEq, Eq, Structural)]
pub struct OpenFileOptions {
    /// How the stream reads.
    pub in_stream_options: InStreamOptions,
}

impl Default for OpenFileOptions {
    fn default() -> (r: Self)
        ensures
            r.in_stream_options == InStreamOptions::standard(),
    {
        OpenFileOptions { in_stream_options: InStreamOptions::default() }
    }
}

impl OpenFileOptions {
    /// The default options.
    pub fn new() -> (r: Self)
        ensures
            r.in_stream_options == InStreamOptions::standard(),
    {
        OpenFileOptions { in_stream_options: InStreamOptions::default() }
    }

    /// Options of a read that does not fill the cache.
    pub fn no_cache() -> (r: Self)
        ensures
            r.in_stream_options == (InStreamOptions {
                read_type: ReadType::NoCache,
                ..InStreamOptions::standard()
            }),
    {
        OpenFileOptions { in_stream_options: InStreamOptions::no_cache() }
    }
}

/// How to create a file.
#[derive(Debug, Clone, Copy, PartialEq, Eq, Structural)]
pub struct CreateFileOptions {
    /// The write type, or that it is taken from the directory.
    pub write_type: WriteTypeXAttr,
    /// Block size in bytes, if it is not the default one.
    pub block_size_bytes: Option<i64>,
    /// Replication factor, if it is not the default one.
    pub replication_max: Option<i32>,
    /// Whether to create missing directories.
    pub recursive: bool,
}

impl Default for CreateFileOptions {
    fn default() -> (r: Self)
        ensures
            r == (CreateFileOptions {
                write_type: WriteTypeXAttr::Inherit,
                block_size_bytes: None,
                replication_max: None,
                recursive: false,
            }),
    {
        CreateFileOptions {
            write_type: WriteTypeXAttr::Inherit,
            block_size_bytes: None,
            replication_max: None,
            recursive: false,
        }
    }
}

impl CreateFileOptions {
    /// Options with a given write type.
    pub fn with_write_type(wt: WriteType) -> (r: Self)
        ensures
            r == (CreateFileOptions {
                write_type: WriteTypeXAttr::Explicit(wt),
                block_size_bytes: None,
                replication_max: None,
                recursive: false,
            }),
    {
        CreateFileOptions {
            write_type: WriteTypeXAttr::Explicit(wt),
            block_size_bytes: None,
            replication_max: None,
            recursive: false,
        }
    }
}

/// How to delete a file or directory.
#[derive(Debug, Clone, Copy, PartialEq, Eq, Structural)]
pub struct DeleteOptions {
    /// Whether to delete what is in a directory.
    pub recursive: bool,
    /// Whether to skip the checks that guard persisted trees, directories that
    /// are not empty, and files that are not complete.
    pub unchecked: bool,
    /// Whether to leave the storage alone.
    pub goosefs_only: bool,
}

impl Default for DeleteOptions {
    fn default() -> (r: Self)
        ensures
            r == (DeleteOptions { recursive: false, unchecked: true, goosefs_only: false }),
    {
        DeleteOptions { recursive: false, unchecked: true, goosefs_only: false }
    }
}

impl DeleteOptions {
    /// Options of a recursive delete.
    pub fn recursive() -> (r: Self)
        ensures
            r == (DeleteOptions { recursive: true, unchecked: true, goosefs_only: false }),
    {
        DeleteOptions { recursive: true, unchecked: true, goosefs_only: false }
    }

    /// Options for a file whose write was cancelled. The file is incomplete, so
    /// the checks are skipped.
    pub fn for_cancel() -> (r: Self)
        ensures
            r == (DeleteOptions { recursive: false, unchecked: true, goosefs_only: false }),
    {
        DeleteOptions { recursive: false, unchecked: true, goosefs_only: false }
    }

    /// Options for a file that is in the storage but could not be completed:
    /// its entry is removed and the file in the storage is kept.
    pub fn goosefs_only_unchecked() -> (r: Self)
        ensures
            r == (DeleteOptions { recursive: false, unchecked: true, goosefs_only: true }),
    {
        DeleteOptions { recursive: false, unchecked: true, goosefs_only: true }
    }
}

/// How to get the status of a path.
#[derive(Debug, Clone, Copy, PartialEq, Eq, Structural)]
pub struct GetStatusOptions {
    /// Age in milliseconds up to which metadata counts as fresh; `Some(0)`
    /// skips the metadata cache, `None` is the configured age.
    pub sync_interval_ms: Option<i64>,
    /// When the master loads metadata; `None` is the configured choice.
    pub load_metadata_type: Option<LoadMetadataPType>,
}

impl Default for GetStatusOptions {
    fn default() -> (r: Self)
        ensures
            r == (GetStatusOptions { sync_interval_ms: None, load_metadata_type: None }),
    {
        GetStatusOptions { sync_interval_ms: None, load_metadata_type: None }
    }
}

impl GetStatusOptions {
    /// Options that skip the metadata cache.
    pub fn always_sync() -> (r: Self)
        ensures
            r == (GetStatusOptions { sync_interval_ms: Some(0), load_metadata_type: None }),
    {
        GetStatusOptions { sync_interval_ms: Some(0), load_metadata_type: None }
    }
}

/// How to list a directory.
#[derive(Debug, Clone, Copy, PartialEq, Eq, Structural)]
pub struct ListStatusOptions {
    /// Whether to list what is below. Such listings never use the cache.
    pub recursive: bool,
    /// Age in milliseconds up to which metadata counts as fresh; `None` is the
    /// configured age.
    pub sync_interval_ms: Option<i64>,
    /// When the master loads metadata; `None` is the configured choice.
    pub load_metadata_type: Option<LoadMetadataPType>,
    /// Whether to skip the listing cache.
    pub load_metadata_only: bool,
}

impl ListStatusOptions {
    /// The default options.
    pub open spec fn standard() -> Self {
        ListStatusOptions {
            recursive: false,
            sync_interval_ms: None,
            load_metadata_type: None,
            load_metadata_only: false,
        }
    }

    /// Options of a listing of one level.
    pub fn new() -> (r: Self)
        ensures
            r == ListStatusOptions::standard(),
    {
        ListStatusOptions {
            recursive: false,
            sync_interval_ms: None,
            load_metadata_type: None,
            load_metadata_only: false,
        }
    }

    /// Options of a recursive listing.
    pub fn recursive() -> (r: Self)
        ensures
            r == (ListStatusOptions { recursive: true, ..ListStatusOptions::standard() }),
    {
        ListStatusOptions { recursive: true, ..ListStatusOptions::new() }
    }
}

impl Default for ListStatusOptions {
    fn default() -> (r: Self)
        ensures
            r == ListStatusOptions::standard(),
    {
        ListStatusOptions::new()
    }
}

} // verus!
