//! The status of a path.

use std::collections::HashMap;

use vstd::hash_map::StringHashMap;
use vstd::prelude::*;

use crate::proto::{FileBlockInfo, FileInfo};

verus! {

broadcast use vstd::std_specs::hash::group_hash_axioms;

/// What is known of a path. Fields that the master left out have the default
/// value of their type.
pub struct URIStatus {
    /// Inode identifier.
    pub file_id: i64,
    /// Last component of the path.
    pub name: String,
    /// Full path.
    pub path: String,
    /// Path in the storage, empty for a file that is only in the cache.
    pub ufs_path: String,
    /// Length in bytes.
    pub length: i64,
    /// Block size in bytes.
    pub block_size_bytes: i64,
    /// Identifiers of the blocks, in order.
    pub block_ids: Vec<i64>,
    /// Creation time, in milliseconds of the Unix epoch.
    pub creation_time_ms: i64,
    /// Time of the last change.
    pub last_modification_time_ms: i64,
    /// Time of the last access.
    pub last_access_time_ms: i64,
    /// Whether the writer has completed the file.
    pub completed: bool,
    /// Whether this is a directory.
    pub folder: bool,
    /// Whether the data may be cached.
    pub cacheable: bool,
    /// Whether all data is in the storage.
    pub persisted: bool,
    /// Whether this is a mount point.
    pub mount_point: bool,
    /// Share of the data in the cache.
    pub in_goose_fs_percentage: i32,
    /// Share of the data in memory.
    pub in_memory_percentage: i32,
    /// Owner.
    pub owner: String,
    /// Group.
    pub group: String,
    /// Permission bits.
    pub mode: i32,
    /// State of persistence.
    pub persistence_state: String,
    /// Identifier of the mount.
    pub mount_id: i64,
    /// Fingerprint in the storage.
    pub ufs_fingerprint: String,
    /// Extended attributes.
    pub xattr: StringHashMap<Vec<u8>>,
    /// Target of a symbolic link.
    pub symlink: Option<String>,
    /// The blocks by their identifiers.
    pub block_infos: HashMap<i64, FileBlockInfo>,
}

/// The blocks by their identifiers. A block without an identifier is left out,
/// and of two with the same one the later stands.
pub open spec fn block_map(infos: Seq<FileBlockInfo>) -> Map<i64, FileBlockInfo>
    decreases infos.len(),
{
    if infos.len() == 0 {
        Map::empty()
    } else {
        with_block(block_map(infos.drop_last()), infos.last())
    }
}

/// `blocks` with `info` added, or replaced by it.
pub open spec fn with_block(blocks: Map<i64, FileBlockInfo>, info: FileBlockInfo) -> Map<
    i64,
    FileBlockInfo,
> {
    match info.id() {
        Some(id) => blocks.insert(id, info),
        None => blocks,
    }
}

/// The text, or an empty one.
pub open spec fn text_or_empty(o: Option<String>) -> Seq<char> {
    match o {
        Some(s) => s@,
        None => Seq::empty(),
    }
}

fn text_or_default(o: Option<String>) -> (r: String)
    ensures
        r@ == text_or_empty(o),
{
    match o {
        Some(s) => s,
        None => String::new(),
    }
}

/// The number, or zero.
pub open spec fn i64_or_zero(o: Option<i64>) -> i64 {
    match o {
        Some(n) => n,
        None => 0,
    }
}

/// The number, or zero.
pub open spec fn i32_or_zero(o: Option<i32>) -> i32 {
    match o {
        Some(n) => n,
        None => 0,
    }
}

/// `a / b`, rounded towards zero.
pub open spec fn truncated_quotient(a: int, b: int) -> int {
    if a >= 0 {
        a / b
    } else {
        -((-a) / b)
    }
}

fn collect_blocks(infos: Vec<FileBlockInfo>) -> (r: HashMap<i64, FileBlockInfo>)
    ensures
        r@ == block_map(infos@),
{
    let ghost all = infos@;
    let mut blocks: HashMap<i64, FileBlockInfo> = HashMap::new();
    for info in it: infos
        invariant
            it.seq() == all,
            blocks@ == block_map(all.take(it.index())),
    {
        proof {
            assert(all.take(it.index() + 1).drop_last() =~= all.take(it.index()));
        }
        if let Some(id) = info.block_id() {
            blocks.insert(id, info);
        }
    }
    proof {
        assert(all.take(all.len() as int) =~= all);
    }
    blocks
}

impl URIStatus {
    /// Whether the status says what the master's report says.
    pub open spec fn described_by(self, fi: FileInfo) -> bool {
        &&& self.file_id == i64_or_zero(fi.file_id)
        &&& self.name@ == text_or_empty(fi.name)
        &&& self.path@ == text_or_empty(fi.path)
        &&& self.ufs_path@ == text_or_empty(fi.ufs_path)
        &&& self.length == i64_or_zero(fi.length)
        &&& self.block_size_bytes == i64_or_zero(fi.block_size_bytes)
        &&& self.creation_time_ms == i64_or_zero(fi.creation_time_ms)
        &&& self.last_modification_time_ms == i64_or_zero(fi.last_modification_time_ms)
        &&& self.last_access_time_ms == i64_or_zero(fi.last_access_time_ms)
        &&& self.completed == (fi.completed == Some(true))
        &&& self.folder == (fi.folder == Some(true))
        &&& self.cacheable == (fi.cacheable == Some(true))
        &&& self.persisted == (fi.persisted == Some(true))
        &&& self.mount_point == (fi.mount_point == Some(true))
        &&& self.in_goose_fs_percentage == i32_or_zero(fi.in_goose_fs_percentage)
        &&& self.in_memory_percentage == i32_or_zero(fi.in_memory_percentage)
        &&& self.owner@ == text_or_empty(fi.owner)
        &&& self.group@ == text_or_empty(fi.group)
        &&& self.mode == i32_or_zero(fi.mode)
        &&& self.persistence_state@ == text_or_empty(fi.persistence_state)
        &&& self.mount_id == i64_or_zero(fi.mount_id)
        &&& self.ufs_fingerprint@ == text_or_empty(fi.ufs_fingerprint)
        &&& self.block_ids == fi.block_ids
        &&& self.xattr == fi.xattr
        &&& self.symlink == fi.symlink
        &&& self.block_infos@ == block_map(fi.file_block_infos@)
    }

    /// The status that the master's report describes.
    pub fn from_proto(fi: FileInfo) -> (r: Self)
        ensures
            r.described_by(fi),
            fi.file_id matches Some(n) ==> r.file_id == n,
            fi.file_id is None ==> r.file_id == 0,
            fi.length matches Some(n) ==> r.length == n,
            fi.length is None ==> r.length == 0,
            fi.block_size_bytes matches Some(n) ==> r.block_size_bytes == n,
            fi.block_size_bytes is None ==> r.block_size_bytes == 0,
            fi.creation_time_ms matches Some(n) ==> r.creation_time_ms == n,
            fi.creation_time_ms is None ==> r.creation_time_ms == 0,
            fi.last_modification_time_ms matches Some(n) ==> r.last_modification_time_ms == n,
            fi.last_modification_time_ms is None ==> r.last_modification_time_ms == 0,
            fi.last_access_time_ms matches Some(n) ==> r.last_access_time_ms == n,
            fi.last_access_time_ms is None ==> r.last_access_time_ms == 0,
            fi.in_goose_fs_percentage matches Some(n) ==> r.in_goose_fs_percentage == n,
            fi.in_goose_fs_percentage is None ==> r.in_goose_fs_percentage == 0,
            fi.in_memory_percentage matches Some(n) ==> r.in_memory_percentage == n,
            fi.in_memory_percentage is None ==> r.in_memory_percentage == 0,
            fi.mode matches Some(n) ==> r.mode == n,
            fi.mode is None ==> r.mode == 0,
            fi.mount_id matches Some(n) ==> r.mount_id == n,
            fi.mount_id is None ==> r.mount_id == 0,
            fi.completed matches Some(n) ==> r.completed == n,
            fi.completed is None ==> !r.completed,
            fi.folder matches Some(n) ==> r.folder == n,
            fi.folder is None ==> !r.folder,
            fi.cacheable matches Some(n) ==> r.cacheable == n,
            fi.cacheable is None ==> !r.cacheable,
            fi.persisted matches Some(n) ==> r.persisted == n,
            fi.persisted is None ==> !r.persisted,
            fi.mount_point matches Some(n) ==> r.mount_point == n,
            fi.mount_point is None ==> !r.mount_point,
            fi.name matches Some(n) ==> r.name@ == n@,
            fi.name is None ==> r.name@.len() == 0,
            fi.path matches Some(n) ==> r.path@ == n@,
            fi.path is None ==> r.path@.len() == 0,
            fi.ufs_path matches Some(n) ==> r.ufs_path@ == n@,
            fi.ufs_path is None ==> r.ufs_path@.len() == 0,
            fi.owner matches Some(n) ==> r.owner@ == n@,
            fi.owner is None ==> r.owner@.len() == 0,
            fi.group matches Some(n) ==> r.group@ == n@,
            fi.group is None ==> r.group@.len() == 0,
            fi.persistence_state matches Some(n) ==> r.persistence_state@ == n@,
            fi.persistence_state is None ==> r.persistence_state@.len() == 0,
            fi.ufs_fingerprint matches Some(n) ==> r.ufs_fingerprint@ == n@,
            fi.ufs_fingerprint is None ==> r.ufs_fingerprint@.len() == 0,
            r.block_ids == fi.block_ids,
            r.xattr == fi.xattr,
            r.symlink == fi.symlink,
    {
        let block_infos = collect_blocks(fi.file_block_infos);
        URIStatus {
            file_id: fi.file_id.unwrap_or(0),
            name: text_or_default(fi.name),
            path: text_or_default(fi.path),
            ufs_path: text_or_default(fi.ufs_path),
            length: fi.length.unwrap_or(0),
            block_size_bytes: fi.block_size_bytes.unwrap_or(0),
            block_ids: fi.block_ids,
            creation_time_ms: fi.creation_time_ms.unwrap_or(0),
            last_modification_time_ms: fi.last_modification_time_ms.unwrap_or(0),
            last_access_time_ms: fi.last_access_time_ms.unwrap_or(0),
            completed: fi.completed.unwrap_or(false),
            folder: fi.folder.unwrap_or(false),
            cacheable: fi.cacheable.unwrap_or(false),
            persisted: fi.persisted.unwrap_or(false),
            mount_point: fi.mount_point.unwrap_or(false),
            in_goose_fs_percentage: fi.in_goose_fs_percentage.unwrap_or(0),
            in_memory_percentage: fi.in_memory_percentage.unwrap_or(0),
            owner: text_or_default(fi.owner),
            group: text_or_default(fi.group),
            mode: fi.mode.unwrap_or(0),
            persistence_state: text_or_default(fi.persistence_state),
            mount_id: fi.mount_id.unwrap_or(0),
            ufs_fingerprint: text_or_default(fi.ufs_fingerprint),
            xattr: fi.xattr,
            symlink: fi.symlink,
            block_infos,
        }
    }

    /// Tells whether the file has been completed.
    pub fn is_completed(&self) -> (r: bool)
        ensures
            r == self.completed,
    {
        self.completed
    }

    /// Tells whether this is a directory.
    pub fn is_folder(&self) -> (r: bool)
        ensures
            r == self.folder,
    {
        self.folder
    }

    /// Whether the path can be read: a completed file or a directory.
    pub open spec fn readable(self) -> bool {
        self.folder || self.completed
    }

    /// Tells whether the path can be read.
    pub fn is_readable(&self) -> (r: bool)
        ensures
            r == self.readable(),
    {
        self.folder || self.completed
    }

    /// Tells whether all data is in the storage.
    pub fn is_persisted(&self) -> (r: bool)
        ensures
            r == self.persisted,
    {
        self.persisted
    }

    /// The block with the given identifier, if it is known.
    pub fn get_block_info(&self, block_id: i64) -> (r: Option<&FileBlockInfo>)
        ensures
            match r {
                Some(info) => self.block_infos@.dom().contains(block_id) && *info
                    == self.block_infos@[block_id],
                None => !self.block_infos@.dom().contains(block_id),
            },
    {
        self.block_infos.get(&block_id)
    }

    /// Tells whether any block is known.
    pub fn has_block_infos(&self) -> (r: bool)
        ensures
            r == (exists|id: i64| self.block_infos@.dom().contains(id)),
    {
        let n: usize = self.block_infos.len();
        proof {
            let dom = self.block_infos@.dom();
            if n == 0 {
                assert(dom =~= Set::empty());
            } else {
                assert(dom.contains(dom.choose()));
            }
        }
        n > 0
    }

    /// The blocks by their identifiers.
    pub fn block_infos(&self) -> (r: &HashMap<i64, FileBlockInfo>)
        ensures
            *r == self.block_infos,
    {
        &self.block_infos
    }

    /// Adds a block, or replaces the one with the same identifier. A block
    /// without an identifier is ignored.
    pub fn add_block_info(&mut self, fbi: FileBlockInfo)
        ensures
            final(self).block_infos@ == with_block(old(self).block_infos@, fbi),
            *final(self) == (URIStatus { block_infos: final(self).block_infos, ..*old(self) }),
    {
        if let Some(id) = fbi.block_id() {
            self.block_infos.insert(id, fbi);
        }
    }

    /// The number of blocks.
    pub fn block_count(&self) -> (r: usize)
        ensures
            r == self.block_ids@.len(),
    {
        self.block_ids.len()
    }

    /// Whether `offset` lies before the end of a file that has blocks.
    pub open spec fn covers(self, offset: i64) -> bool {
        self.block_size_bytes > 0 && offset < self.length
    }

    /// The place of the block with the byte at `offset`; none behind the end of
    /// the file or without a block size.
    pub fn block_index_for_offset(&self, offset: i64) -> (r: Option<usize>)
        ensures
            r is Some <==> self.covers(offset),
            r matches Some(i) ==> i == truncated_quotient(
                offset as int,
                self.block_size_bytes as int,
            ) as usize,
    {
        if self.block_size_bytes <= 0 || offset >= self.length {
            return None;
        }
        if offset >= 0 {
            Some((offset / self.block_size_bytes) as usize)
        } else {
            let back: i128 = (-(offset as i128)) / (self.block_size_bytes as i128);
            Some((-back) as usize)
        }
    }

    /// The offset in its block of the byte at `offset`; none behind the end of
    /// the file or without a block size.
    pub fn offset_in_block(&self, offset: i64) -> (r: Option<i64>)
        ensures
            r is Some <==> self.covers(offset),
            r matches Some(o) ==> o == offset - truncated_quotient(
                offset as int,
                self.block_size_bytes as int,
            ) * self.block_size_bytes,
            r matches Some(o) ==> offset >= 0 ==> o == offset as int % self.block_size_bytes as int,
    {
        if self.block_size_bytes <= 0 || offset >= self.length {
            return None;
        }
        let size: i128 = self.block_size_bytes as i128;
        if offset >= 0 {
            let o: i64 = offset % self.block_size_bytes;
            proof {
                vstd::arithmetic::div_mod::lemma_fundamental_div_mod(offset as int, size as int);
                vstd::arithmetic::mul::lemma_mul_is_commutative(
                    size as int,
                    offset as int / size as int,
                );
            }
            Some(o)
        } else {
            let away: i128 = -(offset as i128);
            let o: i128 = away % size;
            proof {
                vstd::arithmetic::div_mod::lemma_fundamental_div_mod(away as int, size as int);
                vstd::arithmetic::div_mod::lemma_mod_bound(away as int, size as int);
                let q = away as int / size as int;
                assert(-q * size == -(size * q)) by (nonlinear_arith);
            }
            Some((-o) as i64)
        }
    }
}

/// A block that was added is found under its identifier, and the blocks with
/// other identifiers stay as they were.
pub proof fn law_added_block_is_found(
    blocks: Map<i64, FileBlockInfo>,
    info: FileBlockInfo,
    id: i64,
    other: i64,
)
    requires
        info.id() == Some(id),
        other != id,
    ensures
        with_block(blocks, info).dom().contains(id),
        with_block(blocks, info)[id] == info,
        with_block(blocks, info).dom().contains(other) == blocks.dom().contains(other),
        blocks.dom().contains(other) ==> with_block(blocks, info)[other] == blocks[other],
{
}

/// The place of a block and the offset in it give the offset in the file back.
pub proof fn law_offset_is_recovered(offset: i64, block_size: i64)
    requires
        0 <= offset,
        block_size > 0,
    ensures
        truncated_quotient(offset as int, block_size as int) * block_size + offset as int
            % block_size as int == offset,
        0 <= offset as int % (block_size as int) < block_size,
{
    vstd::arithmetic::div_mod::lemma_fundamental_div_mod(offset as int, block_size as int);
    vstd::arithmetic::div_mod::lemma_mod_bound(offset as int, block_size as int);
    vstd::arithmetic::mul::lemma_mul_is_commutative(
        block_size as int,
        offset as int / block_size as int,
    );
}

} // verus!
