//! Reading from a seekable stream.

use vstd::prelude::*;

use crate::buffer::held;
use crate::error::{ErrorView, Result};
use crate::io::file_in_stream::{
    block_end_at, block_index_at, block_offset_at, into_i64, min_of, no_block_text,
    GooseFsFileInStream,
};
use crate::io::reader::{lost_text, payload, GrpcBlockReader, ReadStep, StreamItem};
use crate::proto::OpenUfsBlockOptions;

verus! {

/// A range of a block that a worker is asked for.
#[derive(Debug)]
pub struct RangeRequest {
    /// Identifier of the block.
    pub block_id: i64,
    /// Where in the block the range starts.
    pub offset: i64,
    /// Length of the range.
    pub length: i64,
    /// Bytes of a chunk.
    pub chunk_size: i64,
    /// Where the worker finds the block in the storage.
    pub ufs_options: Option<OpenUfsBlockOptions>,
}

/// Where a read stands.
#[derive(Debug, Clone, Copy, PartialEq, Eq, Structural)]
pub enum ReadPhase {
    /// A sequential stream over the range is opened.
    Open {
        /// Identifier of the block.
        block_id: i64,
        /// Where in the block the range starts.
        offset: i64,
        /// Length of the range.
        length: i64,
    },
    /// The next item of the sequential stream is waited for.
    Item,
    /// Just the range is asked for.
    Positioned {
        /// Length of the range.
        length: i64,
    },
    /// The read has ended.
    Ended,
}

/// What a read asks for.
#[derive(Debug)]
pub enum ReadAction {
    /// Open a sequential stream over the range.
    Open(RangeRequest),
    /// Read just the range.
    Positioned(RangeRequest),
    /// Wait for the next item of the sequential stream.
    Item,
    /// Send the acknowledgement, if there is one, and return the result.
    Done {
        /// The offset to acknowledge.
        ack: Option<i64>,
        /// The bytes; none at the end of the file.
        result: Result<bytes::Bytes>,
    },
}

/// A read in progress.
#[derive(Debug)]
pub struct ReadOp {
    /// Number of bytes that the caller has room for.
    pub want: usize,
    /// Where the read stands.
    pub phase: ReadPhase,
}

/// Positions of one block have the same block, and offsets as far apart as they
/// are.
pub proof fn lemma_same_block(pos: int, next: int, size: int)
    requires
        size > 0,
        0 <= pos <= next < block_end_at(pos, size),
    ensures
        block_index_at(next, size) == block_index_at(pos, size),
        block_end_at(next, size) == block_end_at(pos, size),
        block_offset_at(next, size) == block_offset_at(pos, size) + (next - pos),
{
    let q = pos / size;
    vstd::arithmetic::div_mod::lemma_fundamental_div_mod(pos, size);
    vstd::arithmetic::div_mod::lemma_mod_bound(pos, size);
    assert(size * q == q * size) by (nonlinear_arith);
    let r = next - q * size;
    assert(0 <= r < size);
    assert(next == q * size + r);
    vstd::arithmetic::div_mod::lemma_fundamental_div_mod_converse(next, size, q, r);
}

/// The stream moves on by up to `want` of the bytes that are there, which follow
/// on the position; the rest is carried over.
pub open spec fn moves_on(
    s0: GooseFsFileInStream,
    there: Seq<u8>,
    reader: Option<GrpcBlockReader>,
    want: usize,
    s1: GooseFsFileInStream,
) -> bool {
    let n = min_of(there.len() as int, want as int);
    &&& held(s1.carry_over) == there.skip(n)
    &&& s1.pos == s0.pos + n
    &&& s1.block_in_stream_block_id == (if reader is None && n == there.len() {
        -1
    } else {
        s0.block_in_stream_block_id as int
    })
    &&& s1 == (GooseFsFileInStream {
        pos: s1.pos,
        block_in_stream: reader,
        block_in_stream_block_id: s1.block_in_stream_block_id,
        carry_over: s1.carry_over,
        ..s0
    })
}

/// The stream moves on, and the bytes that it moves past are handed out.
pub open spec fn hands_out(
    s0: GooseFsFileInStream,
    there: Seq<u8>,
    reader: Option<GrpcBlockReader>,
    want: usize,
    s1: GooseFsFileInStream,
    out: bytes::Bytes,
) -> bool {
    &&& moves_on(s0, there, reader, want, s1)
    &&& held(out) == there.take(min_of(there.len() as int, want as int))
}

/// Whether the request asks for `length` bytes from the position on.
pub open spec fn asks_for(s: GooseFsFileInStream, length: int, request: RangeRequest) -> bool {
    &&& s.names_block(s.place(), request.block_id)
    &&& request.offset == block_offset_at(s.pos as int, s.status.block_size_bytes as int)
    &&& request.length == length
    &&& request.chunk_size == s.chunk_size as i64
    &&& s.locates_block(s.place(), request.ufs_options)
}

/// The bytes from the position to the end of its block or of the file.
pub open spec fn left_in_block(s: GooseFsFileInStream) -> int {
    into_i64(
        min_of(
            block_end_at(s.pos as int, s.status.block_size_bytes as int),
            s.file_length as int,
        ) - s.pos,
    )
}

/// The part of a chunk that belongs to the range of the reader. A worker sends
/// no more than that; a surplus is dropped.
pub open spec fn in_range(reader: GrpcBlockReader, chunk: Seq<u8>) -> Seq<u8> {
    chunk.take(min_of(chunk.len() as int, reader.length - reader.bytes_received))
}

/// The reader behind a chunk, as long as more is to come.
pub open spec fn reader_behind(reader: GrpcBlockReader, chunk: Seq<u8>) -> Option<GrpcBlockReader> {
    if chunk.len() < reader.length - reader.bytes_received {
        Some(reader.after_chunk(chunk.len() as int))
    } else {
        None
    }
}

impl GooseFsFileInStream {
    pub(crate) fn hand_out(
        &mut self,
        there: bytes::Bytes,
        reader: Option<GrpcBlockReader>,
        want: usize,
    ) -> (r: bytes::Bytes)
        requires
            0 <= old(self).pos,
            old(self).status.block_size_bytes > 0,
            held(there).len() > 0,
            old(self).pos + held(there).len() + (match reader {
                Some(r) => r.length - r.bytes_received,
                None => 0,
            }) == min_of(
                block_end_at(old(self).pos as int, old(self).status.block_size_bytes as int),
                old(self).file_length as int,
            ),
            reader matches Some(r) ==> {
                &&& r.block_id == old(self).block_in_stream_block_id
                &&& 0 <= r.bytes_received < r.length
                &&& r.offset + r.bytes_received == block_offset_at(
                    old(self).pos as int,
                    old(self).status.block_size_bytes as int,
                ) + held(there).len()
            },
        ensures
            final(self).wf(),
            hands_out(*old(self), held(there), reader, want, *final(self), r),
    {
        let mut rest = there;
        let len: usize = rest.len();
        let n: usize = if len <= want {
            len
        } else {
            want
        };
        proof {
            let size = self.status.block_size_bytes as int;
            if n < len || reader is Some {
                lemma_same_block(self.pos as int, self.pos + n, size);
            }
        }
        let out = rest.split_to(n);
        self.pos = self.pos + n as i64;
        if reader.is_none() && n == len {
            self.block_in_stream_block_id = -1;
        }
        self.block_in_stream = reader;
        self.carry_over = rest;
        out
    }

    fn request(&self, length: i64) -> (r: Result<RangeRequest>)
        ensures
            match r {
                Ok(request) => request.block_id > 0 && asks_for(*self, length as int, request),
                Err(e) => !self.has_block() && e@ == (ErrorView::Internal {
                    message: no_block_text(self.place() as nat),
                    source: None,
                }),
            },
    {
        let place: usize = self.block_index_for_pos(self.pos);
        match self.block_id_at(place) {
            Err(e) => Err(e),
            Ok(block_id) => Ok(
                RangeRequest {
                    block_id,
                    offset: self.offset_in_block(self.pos),
                    length,
                    chunk_size: self.chunk_size as i64,
                    ufs_options: self.build_ufs_opts(place),
                },
            ),
        }
    }

    /// The place of the block with the byte at the position.
    pub open spec fn place(self) -> usize {
        block_index_at(self.pos as int, self.status.block_size_bytes as int) as usize
    }

    /// Whether the file has a block for the byte at the position.
    pub open spec fn has_block(self) -> bool {
        exists|id: i64| self.names_block(self.place(), id)
    }
}

/// The start of a read.
pub open spec fn read_starts(
    s0: GooseFsFileInStream,
    want: usize,
    s1: GooseFsFileInStream,
    op: ReadOp,
    action: ReadAction,
) -> bool {
    &&& op.want == want
    &&& if s0.pos >= s0.file_length || want == 0 {
        &&& s1 == s0
        &&& op.phase is Ended
        &&& action matches ReadAction::Done { ack: None, result: Ok(b) } && held(b).len() == 0
    } else if held(s0.carry_over).len() > 0 {
        &&& op.phase is Ended
        &&& action matches ReadAction::Done { ack: None, result: Ok(b) } && hands_out(
            s0,
            held(s0.carry_over),
            s0.block_in_stream,
            want,
            s1,
            b,
        )
    } else if s0.block_in_stream is Some {
        s1 == s0 && op.phase is Item && action is Item
    } else if !s0.has_block() {
        &&& s1 == s0
        &&& op.phase is Ended
        &&& action matches ReadAction::Done { ack: None, result: Err(e) } && e@ == (
        ErrorView::Internal { message: no_block_text(s0.place() as nat), source: None })
    } else if s0.positioned_next && left_in_block(s0) > 0 {
        let length = min_of(left_in_block(s0), want as int);
        &&& s1 == (GooseFsFileInStream { positioned_next: false, ..s0 })
        &&& op.phase == (ReadPhase::Positioned { length: length as i64 })
        &&& action matches ReadAction::Positioned(request) && asks_for(s0, length, request)
    } else {
        &&& s1 == (GooseFsFileInStream { positioned_next: false, ..s0 })
        &&& action matches ReadAction::Open(request) && asks_for(s0, left_in_block(s0), request)
            && op.phase == (ReadPhase::Open {
            block_id: request.block_id,
            offset: request.offset,
            length: request.length,
        })
    }
}

/// The sequential stream was opened or not.
pub open spec fn stream_opens(
    op0: ReadOp,
    s0: GooseFsFileInStream,
    outcome: Result<()>,
    op1: ReadOp,
    s1: GooseFsFileInStream,
    action: ReadAction,
) -> bool {
    &&& op1.want == op0.want
    &&& op0.phase matches ReadPhase::Open { block_id, offset, length } && match outcome {
        Ok(_) => if length > 0 {
            &&& s1 == (GooseFsFileInStream {
                block_in_stream: s1.block_in_stream,
                block_in_stream_block_id: block_id,
                ..s0
            })
            &&& s1.block_in_stream matches Some(r) && r.block_id == block_id && r.offset == offset
                && r.length == length && r.bytes_received == 0
            &&& op1.phase is Item
            &&& action is Item
        } else {
            &&& s1 == s0
            &&& op1.phase is Ended
            &&& action matches ReadAction::Done { ack: None, result: Ok(b) } && held(b).len() == 0
        },
        Err(e) => {
            &&& s1 == s0
            &&& op1.phase is Ended
            &&& action == (ReadAction::Done { ack: None, result: Err(e) })
        },
    }
}

/// An item of the sequential stream has come.
pub open spec fn item_comes(
    op0: ReadOp,
    s0: GooseFsFileInStream,
    item: StreamItem,
    op1: ReadOp,
    s1: GooseFsFileInStream,
    action: ReadAction,
) -> bool {
    let reader = s0.block_in_stream->0;
    &&& op1.want == op0.want
    &&& match item {
        StreamItem::Data(frame) => if payload(frame).len() == 0 {
            s1 == s0 && op1.phase is Item && action is Item
        } else {
            &&& op1.phase is Ended
            &&& action matches ReadAction::Done { ack, result: Ok(b) } && ack == reader.after_chunk(
                payload(frame).len() as int,
            ).due_ack() && hands_out(
                s0,
                in_range(reader, payload(frame)),
                reader_behind(reader, payload(frame)),
                op0.want,
                s1,
                b,
            )
        },
        StreamItem::End => {
            &&& s1.is_dropped(s0)
            &&& op1.phase is Ended
            &&& action matches ReadAction::Done { ack: None, result: Ok(b) } && held(b).len() == 0
        },
        StreamItem::Failed(e) => {
            &&& s1 == s0
            &&& op1.phase is Ended
            &&& action == (ReadAction::Done { ack: None, result: Err(e) })
        },
        StreamItem::Lost => {
            &&& s1 == s0
            &&& op1.phase is Ended
            &&& action matches ReadAction::Done { ack: None, result: Err(e) } && e@ == (
            ErrorView::Internal {
                message: lost_text(reader.block_id, reader.bytes_received, reader.length),
                source: None,
            })
        },
    }
}

/// The bytes of the range have come or not.
pub open spec fn range_comes(
    op0: ReadOp,
    s0: GooseFsFileInStream,
    outcome: Result<bytes::Bytes>,
    op1: ReadOp,
    s1: GooseFsFileInStream,
    action: ReadAction,
) -> bool {
    &&& op1.want == op0.want
    &&& op1.phase is Ended
    &&& op0.phase matches ReadPhase::Positioned { length } && match outcome {
        Ok(data) => {
            let n = min_of(held(data).len() as int, length as int);
            &&& s1 == (GooseFsFileInStream { pos: s1.pos, ..s0 })
            &&& s1.pos == s0.pos + n
            &&& action matches ReadAction::Done { ack: None, result: Ok(b) } && held(b) == held(
                data,
            ).take(n)
        },
        Err(e) => s1 == s0 && action == (ReadAction::Done { ack: None, result: Err(e) }),
    }
}

impl ReadOp {
    /// Whether the read can be in progress on the stream.
    pub open spec fn wf(self, s: GooseFsFileInStream) -> bool {
        match self.phase {
            ReadPhase::Open { block_id, offset, length } => {
                &&& s.block_in_stream is None
                &&& held(s.carry_over).len() == 0
                &&& s.pos < s.file_length
                &&& offset == block_offset_at(s.pos as int, s.status.block_size_bytes as int)
                &&& length == left_in_block(s)
                &&& self.want > 0
            },
            ReadPhase::Item => {
                &&& s.block_in_stream is Some
                &&& held(s.carry_over).len() == 0
                &&& self.want > 0
            },
            ReadPhase::Positioned { length } => {
                &&& s.block_in_stream is None
                &&& held(s.carry_over).len() == 0
                &&& 0 < length <= self.want
                &&& length <= left_in_block(s)
                &&& s.status.block_size_bytes > 0
            },
            ReadPhase::Ended => true,
        }
    }

    fn ended(want: usize, result: Result<bytes::Bytes>) -> (r: (ReadOp, ReadAction))
        ensures
            r.0.want == want,
            r.0.phase is Ended,
            r.1 == (ReadAction::Done { ack: None, result }),
    {
        (ReadOp { want, phase: ReadPhase::Ended }, ReadAction::Done { ack: None, result })
    }

    fn begin(s: &mut GooseFsFileInStream, want: usize) -> (r: (ReadOp, ReadAction))
        requires
            old(s).wf(),
            old(s).pos < old(s).file_length,
            want > 0,
            held(old(s).carry_over).len() == 0,
            old(s).block_in_stream is None,
        ensures
            final(s).wf(),
            r.0.wf(*final(s)),
            read_starts(*old(s), want, *final(s), r.0, r.1),
    {
        let left: i64 = s.remaining_in_block(s.pos);
        let positioned = s.positioned_next && left > 0;
        let length: i64 = if positioned && want as u64 <= left as u64 {
            want as i64
        } else {
            left
        };
        match s.request(length) {
            Err(e) => ReadOp::ended(want, Err(e)),
            Ok(request) => {
                proof {
                    assert(s.names_block(s.place(), request.block_id));
                }
                s.positioned_next = false;
                if positioned {
                    (
                        ReadOp { want, phase: ReadPhase::Positioned { length } },
                        ReadAction::Positioned(request),
                    )
                } else {
                    (
                        ReadOp {
                            want,
                            phase: ReadPhase::Open {
                                block_id: request.block_id,
                                offset: request.offset,
                                length,
                            },
                        },
                        ReadAction::Open(request),
                    )
                }
            },
        }
    }

    /// Starts to read up to `want` bytes from the position on.
    pub fn start(s: &mut GooseFsFileInStream, want: usize) -> (r: (ReadOp, ReadAction))
        requires
            old(s).wf(),
        ensures
            final(s).wf(),
            r.0.wf(*final(s)),
            read_starts(*old(s), want, *final(s), r.0, r.1),
    {
        if s.is_eof() || want == 0 {
            return ReadOp::ended(want, Ok(bytes::Bytes::new()));
        }
        if s.carry_over.len() > 0 {
            let mut there = bytes::Bytes::new();
            std::mem::swap(&mut there, &mut s.carry_over);
            let reader = s.block_in_stream;
            let out = s.hand_out(there, reader, want);
            return ReadOp::ended(want, Ok(out));
        }
        if s.block_in_stream.is_some() {
            return (ReadOp { want, phase: ReadPhase::Item }, ReadAction::Item);
        }
        ReadOp::begin(s, want)
    }

    /// Takes in whether the sequential stream was opened.
    pub fn opened(self, s: &mut GooseFsFileInStream, outcome: Result<()>) -> (r: (
        ReadOp,
        ReadAction,
    ))
        requires
            old(s).wf(),
            self.wf(*old(s)),
            self.phase is Open,
        ensures
            final(s).wf(),
            r.0.wf(*final(s)),
            stream_opens(self, *old(s), outcome, r.0, *final(s), r.1),
    {
        if let Err(e) = outcome {
            return ReadOp::ended(self.want, Err(e));
        }
        if let ReadPhase::Open { block_id, offset, length } = self.phase {
            let reader = GrpcBlockReader::open(block_id, offset, length);
            if reader.is_complete() {
                return ReadOp::ended(self.want, Ok(bytes::Bytes::new()));
            }
            s.block_in_stream = Some(reader);
            s.block_in_stream_block_id = block_id;
        }
        (ReadOp { want: self.want, phase: ReadPhase::Item }, ReadAction::Item)
    }

    /// Takes in an item of the sequential stream. If the worker ends the stream
    /// early, nothing is handed out, and the next read opens it anew.
    pub fn item(self, s: &mut GooseFsFileInStream, item: StreamItem) -> (r: (ReadOp, ReadAction))
        requires
            old(s).wf(),
            self.wf(*old(s)),
            self.phase is Item,
        ensures
            final(s).wf(),
            r.0.wf(*final(s)),
            item_comes(self, *old(s), item, r.0, *final(s), r.1),
    {
        let mut reader = match s.block_in_stream {
            Some(r) => r,
            None => return ReadOp::ended(self.want, Ok(bytes::Bytes::new())),
        };
        let room: i64 = reader.length - reader.bytes_received;
        match reader.read_chunk(item) {
            ReadStep::Wait => (ReadOp { want: self.want, phase: ReadPhase::Item }, ReadAction::Item),
            ReadStep::Fail(e) => ReadOp::ended(self.want, Err(e)),
            ReadStep::End => {
                s.drop_block_stream();
                ReadOp::ended(self.want, Ok(bytes::Bytes::new()))
            },
            ReadStep::Chunk { data, ack } => {
                let mut there = data;
                let ghost chunk = held(there);
                let more = (there.len() as u64) < room as u64;
                if !more {
                    there = there.split_to(room as usize);
                }
                proof {
                    assert(held(there) =~= in_range(old(s).block_in_stream->0, chunk));
                }
                let behind = if more {
                    Some(reader)
                } else {
                    None
                };
                let out = s.hand_out(there, behind, self.want);
                (
                    ReadOp { want: self.want, phase: ReadPhase::Ended },
                    ReadAction::Done { ack, result: Ok(out) },
                )
            },
        }
    }

    /// Takes in what asking for just the range gave.
    pub fn positioned(self, s: &mut GooseFsFileInStream, outcome: Result<bytes::Bytes>) -> (r: (
        ReadOp,
        ReadAction,
    ))
        requires
            old(s).wf(),
            self.wf(*old(s)),
            self.phase is Positioned,
        ensures
            final(s).wf(),
            r.0.wf(*final(s)),
            range_comes(self, *old(s), outcome, r.0, *final(s), r.1),
    {
        let length: i64 = match self.phase {
            ReadPhase::Positioned { length } => length,
            _ => 0,
        };
        match outcome {
            Err(e) => ReadOp::ended(self.want, Err(e)),
            Ok(data) => {
                let mut out = data;
                let ghost all = held(out);
                if out.len() as u64 > length as u64 {
                    out = out.split_to(length as usize);
                }
                let n: usize = out.len();
                proof {
                    assert(held(out) =~= all.take(min_of(all.len() as int, length as int)));
                }
                s.pos = s.pos + n as i64;
                ReadOp::ended(self.want, Ok(out))
            },
        }
    }
}

} // verus!
