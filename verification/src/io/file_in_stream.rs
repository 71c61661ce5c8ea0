//! A seekable stream over a file: its state, positions and blocks.
//!
//! Sequential reads take their bytes from a stream over the current block.
//! Bytes that a caller had no room for are carried over to the next read, so
//! that none is lost. Reads at a position, and the first read after a large
//! seek, ask the worker for just their range.

use vstd::prelude::*;
use vstd::string::*;

use crate::buffer::{concat, held, joined_buffers};
use crate::config::settings::GoosefsConfig;
use crate::error::{Error, ErrorView, Result};
use crate::fs::options::{block_length, ufs_block_length, InStreamOptions, OpenFileOptions};
use crate::fs::uri_status::{truncated_quotient, URIStatus};
use crate::io::reader::GrpcBlockReader;
use crate::proto::{FileBlockInfo, OpenUfsBlockOptions};
use crate::text::{decimal, push_decimal};

verus! {

broadcast use vstd::std_specs::hash::group_hash_axioms;

/// Bytes from which on a seek gives up the sequential stream.
pub const TRANSFER_POSITIONED_READ_THRESHOLD: i64 = 8192;

/// Largest number of bytes that reading to the end asks for at once.
pub const READ_ALL_WINDOW: usize = 65536;

/// A seekable stream over a file, without its connections.
pub struct GooseFsFileInStream {
    /// What is known of the file.
    pub status: URIStatus,
    /// Bytes of a chunk on the wire.
    pub chunk_size: u64,
    /// How the stream reads.
    pub options: InStreamOptions,
    /// Position in the file.
    pub pos: i64,
    /// Length of the file. A file of negative length has no bytes.
    pub file_length: i64,
    /// The sequential stream over the current block, until all of its bytes
    /// have come.
    pub block_in_stream: Option<GrpcBlockReader>,
    /// Block of the sequential stream, or `-1`.
    pub block_in_stream_block_id: i64,
    /// Bytes from the position on that have come but were not handed out.
    pub carry_over: bytes::Bytes,
    /// Whether the next read asks for just its range.
    pub positioned_next: bool,
}

/// Where a seek leads to.
#[derive(Debug, Clone, Copy, PartialEq, Eq, Structural)]
pub enum SeekFrom {
    /// From the start of the file.
    Start(u64),
    /// From the end of the file.
    End(i64),
    /// From the position.
    Current(i64),
}

/// The place of the block with the byte at `offset`.
pub open spec fn block_index_at(offset: int, block_size: int) -> int {
    if block_size <= 0 {
        0
    } else {
        truncated_quotient(offset, block_size)
    }
}

/// The offset in its block of the byte at `offset`.
pub open spec fn block_offset_at(offset: int, block_size: int) -> int {
    if block_size <= 0 {
        offset
    } else {
        offset - truncated_quotient(offset, block_size) * block_size
    }
}

/// The end in the file of the block with the byte at `offset`.
pub open spec fn block_end_at(offset: int, block_size: int) -> int {
    block_index_at(offset, block_size) * block_size + block_size
}

/// The lesser of `a` and `b`.
pub open spec fn min_of(a: int, b: int) -> int {
    if a <= b {
        a
    } else {
        b
    }
}

/// `n`, brought into the range of an `i64`.
pub open spec fn into_i64(n: int) -> int {
    if n < i64::MIN {
        i64::MIN as int
    } else if n > i64::MAX {
        i64::MAX as int
    } else {
        n
    }
}

/// `target`, brought between the start and the end of the file.
pub open spec fn clamped(target: int, file_length: int) -> int {
    if target < 0 {
        0
    } else if target > file_length {
        file_length
    } else {
        target
    }
}

/// The quotient and the remainder of a position and a block size.
pub proof fn lemma_block_arithmetic(offset: int, block_size: int)
    requires
        block_size > 0,
    ensures
        ({
            let q = truncated_quotient(offset, block_size);
            let r = offset - q * block_size;
            &&& -block_size < r < block_size
            &&& offset >= 0 ==> r == offset % block_size && 0 <= q <= offset && 0 <= q * block_size
                <= offset
            &&& offset < 0 ==> offset <= q <= 0 && offset <= q * block_size <= 0
        }),
{
    let a = if offset >= 0 {
        offset
    } else {
        -offset
    };
    vstd::arithmetic::div_mod::lemma_fundamental_div_mod(a, block_size);
    vstd::arithmetic::div_mod::lemma_mod_bound(a, block_size);
    let d = a / block_size;
    assert(block_size * d == d * block_size) by (nonlinear_arith);
    vstd::arithmetic::div_mod::lemma_div_is_ordered_by_denominator(a, 1, block_size);
    assert(a / 1 == a);
    vstd::arithmetic::div_mod::lemma_div_pos_is_pos(a, block_size);
    assert((-d) * block_size == -(d * block_size)) by (nonlinear_arith);
}

/// Whether `info` is a usable block that starts at `start`.
pub open spec fn starts_at(info: FileBlockInfo, start: int) -> bool {
    &&& info.offset matches Some(o) && o == start
    &&& info.id() matches Some(id) && id > 0
}

/// The message of a block that the file does not have.
pub open spec fn no_block_text(block_idx: nat) -> Seq<char> {
    "no valid block_id at index "@ + decimal(block_idx)
}

/// The message of a file that is still being written.
pub open spec fn incomplete_text(path: Seq<char>) -> Seq<char> {
    path + " is incomplete"@
}

/// The message of a read without workers.
pub const NO_READ_WORKERS: &'static str = "no workers available for reading";

/// Checks that a path can be opened for reading: it must be a file, and
/// complete.
pub fn check_readable(status: &URIStatus, path: &str) -> (r: Result<()>)
    ensures
        match r {
            Ok(_) => !status.folder && status.completed,
            Err(e) => if status.folder {
                e@ == (ErrorView::OpenDirectory { path: path@ })
            } else {
                !status.completed && e@ == (ErrorView::FileIncomplete {
                    message: incomplete_text(path@),
                })
            },
        },
{
    if status.is_folder() {
        return Err(Error::OpenDirectory { path: path.to_owned() });
    }
    if !status.is_completed() {
        let mut message = path.to_owned();
        message.append(" is incomplete");
        return Err(Error::FileIncomplete { message });
    }
    Ok(())
}

/// Checks that there are workers to read from.
pub fn check_workers(workers: usize) -> (r: Result<()>)
    ensures
        match r {
            Ok(_) => workers > 0,
            Err(e) => workers == 0 && e@ == (ErrorView::NoWorkerAvailable {
                message: NO_READ_WORKERS@,
            }),
        },
{
    if workers == 0 {
        return Err(Error::NoWorkerAvailable { message: NO_READ_WORKERS.to_string() });
    }
    Ok(())
}

/// Checks the configuration before a file is opened.
pub fn check_config(config: &GoosefsConfig) -> (r: Result<()>)
    ensures
        match r {
            Ok(_) => config.problem() is None,
            Err(e) => config.problem() matches Some(p) && e@ == (ErrorView::ConfigError {
                message: p,
            }),
        },
{
    match config.validate() {
        Ok(_) => Ok(()),
        Err(message) => Err(Error::ConfigError { message }),
    }
}

impl GooseFsFileInStream {
    /// The number of bytes that the file has.
    pub open spec fn file_end(self) -> int {
        if self.file_length >= 0 {
            self.file_length as int
        } else {
            0
        }
    }

    /// Whether the parts of the state agree: the position lies in the file, and
    /// the bytes that were carried over and those that are still to come follow
    /// on it up to the end of the block.
    pub open spec fn wf(self) -> bool {
        let size = self.status.block_size_bytes as int;
        let carried = held(self.carry_over).len();
        let end = min_of(block_end_at(self.pos as int, size), self.file_length as int);
        &&& 0 <= self.pos <= self.file_end()
        &&& match self.block_in_stream {
            Some(r) => {
                &&& r.block_id == self.block_in_stream_block_id
                &&& 0 <= r.bytes_received < r.length
                &&& r.offset + r.bytes_received == block_offset_at(self.pos as int, size) + carried
                &&& self.pos + carried + (r.length - r.bytes_received) == end
            },
            None => {
                &&& carried == 0 ==> self.block_in_stream_block_id == -1
                &&& carried > 0 ==> self.pos + carried == end
            },
        }
    }

    /// Equality of what never changes.
    pub open spec fn same_file(self, other: Self) -> bool {
        &&& self.status == other.status
        &&& self.chunk_size == other.chunk_size
        &&& self.options == other.options
        &&& self.file_length == other.file_length
    }

    /// A stream at the start of the file.
    pub fn new(status: URIStatus, chunk_size: u64, options: OpenFileOptions) -> (r: Self)
        ensures
            r.wf(),
            r.status == status,
            r.chunk_size == chunk_size,
            r.options == options.in_stream_options,
            r.pos == 0,
            r.file_length == status.length,
            r.block_in_stream is None,
            r.block_in_stream_block_id == -1,
            held(r.carry_over).len() == 0,
            !r.positioned_next,
    {
        let file_length: i64 = status.length;
        GooseFsFileInStream {
            status,
            chunk_size,
            options: options.in_stream_options,
            pos: 0,
            file_length,
            block_in_stream: None,
            block_in_stream_block_id: -1,
            carry_over: bytes::Bytes::new(),
            positioned_next: false,
        }
    }

    /// The position in the file.
    pub fn pos(&self) -> (r: i64)
        ensures
            r == self.pos,
    {
        self.pos
    }

    /// The length of the file.
    pub fn len(&self) -> (r: i64)
        ensures
            r == self.file_length,
    {
        self.file_length
    }

    /// Tells whether the file has no bytes.
    pub fn is_empty(&self) -> (r: bool)
        ensures
            r == (self.file_length == 0),
    {
        self.file_length == 0
    }

    /// Tells whether the position is at the end of the file.
    pub fn is_eof(&self) -> (r: bool)
        ensures
            r == (self.pos >= self.file_length),
    {
        self.pos >= self.file_length
    }

    /// The bytes from the position to the end of the file.
    pub fn remaining(&self) -> (r: i64)
        requires
            0 <= self.pos,
        ensures
            r == (if self.pos < self.file_length {
                self.file_length - self.pos
            } else {
                0
            }),
    {
        if self.pos < self.file_length {
            self.file_length - self.pos
        } else {
            0
        }
    }

    pub(crate) fn block_place(&self, offset: i64) -> (r: i64)
        ensures
            r == block_index_at(offset as int, self.status.block_size_bytes as int),
    {
        if self.status.block_size_bytes <= 0 {
            return 0;
        }
        proof {
            lemma_block_arithmetic(offset as int, self.status.block_size_bytes as int);
        }
        if offset >= 0 {
            offset / self.status.block_size_bytes
        } else {
            let back: i128 = (-(offset as i128)) / (self.status.block_size_bytes as i128);
            (-back) as i64
        }
    }

    /// The place of the block with the byte at `offset`.
    pub fn block_index_for_pos(&self, offset: i64) -> (r: usize)
        ensures
            r == block_index_at(offset as int, self.status.block_size_bytes as int) as usize,
    {
        self.block_place(offset) as usize
    }

    /// The offset in its block of the byte at `offset`.
    pub fn offset_in_block(&self, offset: i64) -> (r: i64)
        ensures
            r == block_offset_at(offset as int, self.status.block_size_bytes as int),
    {
        if self.status.block_size_bytes <= 0 {
            return offset;
        }
        let place: i64 = self.block_place(offset);
        proof {
            lemma_block_arithmetic(offset as int, self.status.block_size_bytes as int);
        }
        offset - place * self.status.block_size_bytes
    }

    pub(crate) fn block_end(&self, offset: i64) -> (r: i128)
        ensures
            r == block_end_at(offset as int, self.status.block_size_bytes as int),
            self.status.block_size_bytes > 0 ==> r > offset,
    {
        let size: i128 = self.status.block_size_bytes as i128;
        let place: i64 = self.block_place(offset);
        proof {
            if size > 0 {
                lemma_block_arithmetic(offset as int, size as int);
            } else {
                assert(place * size == 0) by (nonlinear_arith)
                    requires
                        place == 0,
                ;
            }
        }
        place as i128 * size + size
    }

    /// The bytes from `offset` to the end of its block or of the file.
    pub fn remaining_in_block(&self, offset: i64) -> (r: i64)
        ensures
            r == into_i64(
                min_of(
                    block_end_at(offset as int, self.status.block_size_bytes as int),
                    self.file_length as int,
                ) - offset,
            ),
    {
        let end: i128 = self.block_end(offset);
        let upto: i128 = if end <= self.file_length as i128 {
            end
        } else {
            self.file_length as i128
        };
        let left: i128 = upto - offset as i128;
        if left < i64::MIN as i128 {
            i64::MIN
        } else if left > i64::MAX as i128 {
            i64::MAX
        } else {
            left as i64
        }
    }

    /// Whether `id` is the identifier of the block at place `block_idx`: the
    /// one in the list of identifiers, if it is usable, and else that of a block
    /// that starts where this one does.
    pub open spec fn names_block(self, block_idx: usize, id: i64) -> bool {
        let ids = self.status.block_ids@;
        let start = block_idx * self.status.block_size_bytes;
        if block_idx < ids.len() && ids[block_idx as int] > 0 {
            id == ids[block_idx as int]
        } else {
            exists|info: FileBlockInfo|
                #![trigger self.status.block_infos@.contains_value(info)]
                self.status.block_infos@.contains_value(info) && starts_at(info, start) && info.id()
                    == Some(id)
        }
    }

    /// The identifier of the block at place `block_idx`. Where several blocks
    /// that are not listed start there, it is any of theirs.
    pub fn block_id_at(&self, block_idx: usize) -> (r: Result<i64>)
        ensures
            match r {
                Ok(id) => id > 0 && self.names_block(block_idx, id),
                Err(e) => {
                    &&& forall|id: i64| !self.names_block(block_idx, id)
                    &&& e@ == (ErrorView::Internal {
                        message: no_block_text(block_idx as nat),
                        source: None,
                    })
                },
            },
    {
        if block_idx < self.status.block_ids.len() && self.status.block_ids[block_idx] > 0 {
            return Ok(self.status.block_ids[block_idx]);
        }
        let start: i128 = self.start_of(block_idx);
        let infos = &self.status.block_infos;
        let mut found: Option<i64> = None;
        for info in it: infos.values()
            invariant
                it.seq().unref().to_set() == infos@.values(),
                match found {
                    Some(id) => id > 0 && exists|info: FileBlockInfo|
                        #![trigger infos@.contains_value(info)]
                        infos@.contains_value(info) && starts_at(info, start as int) && info.id()
                            == Some(id),
                    None => forall|i: int|
                        0 <= i < it.index() ==> !starts_at(*#[trigger] it.seq()[i], start as int),
                },
        {
            let fits = match info.offset {
                Some(o) => o as i128 == start,
                None => false,
            };
            if fits {
                if let Some(id) = info.block_id() {
                    if id > 0 {
                        proof {
                            let seen = it.seq().unref();
                            assert(seen[it.index()] == *info);
                            assert(seen.to_set().contains(*info));
                            assert(infos@.contains_value(*info));
                        }
                        found = Some(id);
                    }
                }
            }
        }
        match found {
            Some(id) => Ok(id),
            None => {
                proof {
                    assert forall|id: i64| !self.names_block(block_idx, id) by {
                        assert forall|info: FileBlockInfo| #[trigger]
                            infos@.contains_value(info) implies !starts_at(
                            info,
                            start as int,
                        ) by {
                            assert(infos@.values().contains(info));
                        }
                    }
                }
                let mut message = "no valid block_id at index ".to_string();
                push_decimal(&mut message, block_idx as u128);
                Err(Error::Internal { message, source: None })
            },
        }
    }

    fn start_of(&self, block_idx: usize) -> (r: i128)
        ensures
            r == block_idx * self.status.block_size_bytes,
    {
        let idx: i128 = block_idx as i128;
        let size: i128 = self.status.block_size_bytes as i128;
        proof {
            assert(-0x7fff_ffff_ffff_ffff_ffff_ffff_ffff_ffff <= idx * size
                <= 0x7fff_ffff_ffff_ffff_ffff_ffff_ffff_ffff) by (nonlinear_arith)
                requires
                    0 <= idx <= 0xffff_ffff_ffff_ffff,
                    -0x8000_0000_0000_0000 <= size <= 0x7fff_ffff_ffff_ffff,
            ;
        }
        idx * size
    }

    /// Whether `options` say where the worker finds the block at place
    /// `block_idx` in the storage. There are none if the file is not there.
    pub open spec fn locates_block(
        self,
        block_idx: usize,
        options: Option<OpenUfsBlockOptions>,
    ) -> bool {
        match options {
            None => self.status.ufs_path@.len() == 0,
            Some(o) => {
                &&& self.status.ufs_path@.len() > 0
                &&& o.ufs_path == Some(self.status.ufs_path)
                &&& o.offset_in_file == Some(
                    i64::wrapping_mul(block_idx as i64, self.status.block_size_bytes),
                )
                &&& o.block_size == Some(
                    block_length(
                        self.status.length as int,
                        self.status.block_size_bytes as int,
                        block_idx as int,
                    ) as i64,
                )
                &&& o.max_ufs_read_concurrency == Some(self.options.max_ufs_read_concurrency)
                &&& o.mount_id == Some(self.status.mount_id)
                &&& o.no_cache == Some(!self.status.cacheable)
                &&& o.user is None
            },
        }
    }

    /// Where the worker finds the block at place `block_idx` in the storage, if
    /// the file is there.
    pub fn build_ufs_opts(&self, block_idx: usize) -> (r: Option<OpenUfsBlockOptions>)
        ensures
            self.locates_block(block_idx, r),
    {
        if self.status.ufs_path.as_str().unicode_len() == 0 {
            return None;
        }
        Some(
            OpenUfsBlockOptions {
                ufs_path: Some(self.status.ufs_path.clone()),
                offset_in_file: Some(
                    (block_idx as i64).wrapping_mul(self.status.block_size_bytes),
                ),
                block_size: Some(
                    ufs_block_length(
                        self.status.length,
                        self.status.block_size_bytes,
                        block_idx as u64,
                    ),
                ),
                max_ufs_read_concurrency: Some(self.options.max_ufs_read_concurrency),
                mount_id: Some(self.status.mount_id),
                no_cache: Some(!self.status.cacheable),
                user: None,
            },
        )
    }

    /// The stream without what it holds of the current block.
    pub open spec fn is_dropped(self, old: Self) -> bool {
        &&& held(self.carry_over).len() == 0
        &&& self.block_in_stream_block_id == -1
        &&& self == (GooseFsFileInStream {
            block_in_stream: None,
            block_in_stream_block_id: self.block_in_stream_block_id,
            carry_over: self.carry_over,
            ..old
        })
    }

    pub(crate) fn drop_block_stream(&mut self)
        ensures
            final(self).is_dropped(*old(self)),
            0 <= old(self).pos <= old(self).file_end() ==> final(self).wf(),
    {
        self.block_in_stream = None;
        self.block_in_stream_block_id = -1;
        self.carry_over = bytes::Bytes::new();
    }

    /// The position that a request leads to, brought into the file.
    pub fn seek_target(&self, from: SeekFrom) -> (r: i64)
        requires
            0 <= self.pos,
            0 <= self.file_length,
        ensures
            r == clamped(
                match from {
                    SeekFrom::Start(n) => n as int,
                    SeekFrom::End(n) => self.file_length + n,
                    SeekFrom::Current(n) => self.pos + n,
                },
                self.file_length as int,
            ),
    {
        let target: i128 = match from {
            SeekFrom::Start(n) => n as i128,
            SeekFrom::End(n) => self.file_length as i128 + n as i128,
            SeekFrom::Current(n) => self.pos as i128 + n as i128,
        };
        if target < 0 {
            0
        } else if target > self.file_length as i128 {
            self.file_length
        } else {
            target as i64
        }
    }
}

/// A read to the end of the file, one read at a time.
#[derive(Debug)]
pub struct ReadToEnd {
    /// What was read so far.
    pub parts: Vec<bytes::Bytes>,
}

impl ReadToEnd {
    /// Starts to read to the end.
    pub fn new() -> (r: Self)
        ensures
            r.parts@.len() == 0,
    {
        ReadToEnd { parts: Vec::new() }
    }

    /// The number of bytes to ask for at once.
    pub fn window(chunk_size: u64) -> (r: usize)
        ensures
            r == min_of(chunk_size as int, READ_ALL_WINDOW as int),
    {
        if chunk_size <= READ_ALL_WINDOW as u64 {
            chunk_size as usize
        } else {
            READ_ALL_WINDOW
        }
    }

    /// Takes in what a read gave. Once it gave nothing, all that was read is
    /// handed out.
    pub fn step(&mut self, data: bytes::Bytes) -> (r: Option<bytes::Bytes>)
        ensures
            if held(data).len() == 0 {
                final(self).parts == old(self).parts && (r matches Some(all) && held(all)
                    == joined_buffers(old(self).parts@))
            } else {
                final(self).parts@ == old(self).parts@.push(data) && r is None
            },
    {
        if data.len() == 0 {
            return Some(concat(&self.parts));
        }
        self.parts.push(data);
        None
    }
}

} // verus!
