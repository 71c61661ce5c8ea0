//! Seeking in a stream, and reading at a position.

use vstd::prelude::*;

use crate::buffer::{concat, held, joined_buffers};
use crate::error::{ErrorView, Result};
use crate::io::file_in_stream::{
    block_end_at, block_index_at, block_offset_at, clamped, into_i64, min_of, no_block_text,
    GooseFsFileInStream, SeekFrom, TRANSFER_POSITIONED_READ_THRESHOLD,
};
use crate::io::reader::{lost_text, payload, GrpcBlockReader, ReadStep, StreamItem};
use crate::io::stream_read::{in_range, moves_on, reader_behind, RangeRequest};

verus! {

/// Where a seek stands.
#[derive(Debug, Clone, Copy, PartialEq, Eq, Structural)]
pub enum SeekPhase {
    /// Bytes of the sequential stream are skipped up to `target`; the seek
    /// started at `origin`.
    Skip {
        /// Where the seek started.
        origin: i64,
        /// Where it leads to.
        target: i64,
    },
    /// The seek has ended.
    Ended,
}

/// What a seek asks for.
#[derive(Debug)]
pub enum SeekAction {
    /// Send the acknowledgement, if there is one, and wait for the next item of
    /// the sequential stream.
    Item {
        /// The offset to acknowledge.
        ack: Option<i64>,
    },
    /// Send the acknowledgement, if there is one, and return the new position.
    Done {
        /// The offset to acknowledge.
        ack: Option<i64>,
        /// The new position.
        result: Result<i64>,
    },
}

/// A seek in progress.
#[derive(Debug)]
pub struct SeekOp {
    /// Where the seek stands.
    pub phase: SeekPhase,
}

/// Whether a seek does not lead far and stays in the block.
pub open spec fn is_near(s: GooseFsFileInStream, target: int) -> bool {
    let size = s.status.block_size_bytes as int;
    let distance = if target >= s.pos {
        target - s.pos
    } else {
        s.pos - target
    };
    &&& distance < TRANSFER_POSITIONED_READ_THRESHOLD
    &&& block_index_at(target, size) == block_index_at(s.pos as int, size)
}

/// The seek ends at `target`.
pub open spec fn seek_ends(op: SeekOp, action: SeekAction, target: int) -> bool {
    &&& op.phase is Ended
    &&& action matches SeekAction::Done { ack: None, result: Ok(p) } && p == target
}

/// The stream at `target`, without what it holds of the current block.
pub open spec fn moved(
    s0: GooseFsFileInStream,
    target: int,
    positioned: bool,
    s1: GooseFsFileInStream,
) -> bool {
    &&& s1.pos == target
    &&& s1.is_dropped(GooseFsFileInStream { pos: s1.pos, positioned_next: positioned, ..s0 })
}

/// The start of a seek.
pub open spec fn seek_starts(
    s0: GooseFsFileInStream,
    target: int,
    s1: GooseFsFileInStream,
    op: SeekOp,
    action: SeekAction,
) -> bool {
    if target == s0.pos {
        s1 == s0 && seek_ends(op, action, target)
    } else if !is_near(s0, target) {
        // The next read asks for just its range.
        moved(s0, target, true, s1) && seek_ends(op, action, target)
    } else if target < s0.pos {
        // A stream does not go back: the next read opens it anew.
        moved(s0, target, s0.positioned_next, s1) && seek_ends(op, action, target)
    } else if held(s0.carry_over).len() == 0 && s0.block_in_stream is None {
        s1 == (GooseFsFileInStream { pos: target as i64, ..s0 }) && seek_ends(op, action, target)
    } else if held(s0.carry_over).len() == 0 {
        &&& s1 == s0
        &&& op.phase == (SeekPhase::Skip { origin: s0.pos, target: target as i64 })
        &&& action == (SeekAction::Item { ack: None })
    } else {
        &&& moves_on(
            s0,
            held(s0.carry_over),
            s0.block_in_stream,
            (target - s0.pos) as usize,
            s1,
        )
        &&& if s1.pos == target {
            seek_ends(op, action, target)
        } else {
            &&& op.phase == (SeekPhase::Skip { origin: s0.pos, target: target as i64 })
            &&& action == (SeekAction::Item { ack: None })
        }
    }
}

/// An item of the sequential stream has come while bytes are skipped.
pub open spec fn item_skipped(
    op0: SeekOp,
    s0: GooseFsFileInStream,
    item: StreamItem,
    op1: SeekOp,
    s1: GooseFsFileInStream,
    action: SeekAction,
) -> bool {
    let reader = s0.block_in_stream->0;
    &&& op0.phase matches SeekPhase::Skip { origin, target } && match item {
        StreamItem::Data(frame) => if payload(frame).len() == 0 {
            s1 == s0 && op1.phase == op0.phase && action == (SeekAction::Item { ack: None })
        } else {
            let acked = reader.after_chunk(payload(frame).len() as int).due_ack();
            &&& moves_on(
                s0,
                in_range(reader, payload(frame)),
                reader_behind(reader, payload(frame)),
                (target - s0.pos) as usize,
                s1,
            )
            &&& if s1.pos == target {
                op1.phase is Ended && action == (SeekAction::Done { ack: acked, result: Ok(target) })
            } else {
                op1.phase == op0.phase && action == (SeekAction::Item { ack: acked })
            }
        },
        StreamItem::End => {
            moved(s0, target as int, s0.positioned_next, s1) && seek_ends(op1, action, target as int)
        },
        StreamItem::Failed(e) => {
            &&& moved(s0, origin as int, s0.positioned_next, s1)
            &&& op1.phase is Ended
            &&& action == (SeekAction::Done { ack: None, result: Err(e) })
        },
        StreamItem::Lost => {
            &&& moved(s0, origin as int, s0.positioned_next, s1)
            &&& op1.phase is Ended
            &&& action matches SeekAction::Done { ack: None, result: Err(e) } && e@ == (
            ErrorView::Internal {
                message: lost_text(reader.block_id, reader.bytes_received, reader.length),
                source: None,
            })
        },
    }
}

impl SeekOp {
    /// Whether the seek can be in progress on the stream: the target lies ahead
    /// in the block, and the bytes before it are still to come.
    pub open spec fn wf(self, s: GooseFsFileInStream) -> bool {
        match self.phase {
            SeekPhase::Skip { origin, target } => {
                let size = s.status.block_size_bytes as int;
                &&& s.block_in_stream is Some
                &&& held(s.carry_over).len() == 0
                &&& 0 <= origin <= s.pos < target <= s.file_length
                &&& target <= block_end_at(s.pos as int, size)
                &&& target - s.pos <= TRANSFER_POSITIONED_READ_THRESHOLD
            },
            SeekPhase::Ended => true,
        }
    }

    fn ended(target: i64) -> (r: (SeekOp, SeekAction))
        ensures
            seek_ends(r.0, r.1, target as int),
    {
        (
            SeekOp { phase: SeekPhase::Ended },
            SeekAction::Done { ack: None, result: Ok(target) },
        )
    }

    fn begin(s: &mut GooseFsFileInStream, target: i64) -> (r: (SeekOp, SeekAction))
        requires
            old(s).wf(),
            0 <= target <= old(s).file_length,
        ensures
            final(s).wf(),
            r.0.wf(*final(s)),
            seek_starts(*old(s), target as int, *final(s), r.0, r.1),
    {
        if target == s.pos {
            return SeekOp::ended(target);
        }
        let near = s.is_near(target);
        if !near || target < s.pos {
            s.drop_block_stream();
            s.pos = target;
            if !near {
                s.positioned_next = true;
            }
            return SeekOp::ended(target);
        }
        let origin: i64 = s.pos;
        if s.carry_over.len() == 0 {
            if s.block_in_stream.is_none() {
                s.pos = target;
                return SeekOp::ended(target);
            }
            proof {
                s.lemma_near_target(target as int);
            }
            return (
                SeekOp { phase: SeekPhase::Skip { origin, target } },
                SeekAction::Item { ack: None },
            );
        }
        proof {
            s.lemma_near_target(target as int);
        }
        let mut there = bytes::Bytes::new();
        std::mem::swap(&mut there, &mut s.carry_over);
        let reader = s.block_in_stream;
        let want: usize = (target - s.pos) as usize;
        let _skipped = s.hand_out(there, reader, want);
        if s.pos == target {
            SeekOp::ended(target)
        } else {
            proof {
                old(s).lemma_near_position(s.pos as int, target as int);
            }
            (
                SeekOp { phase: SeekPhase::Skip { origin, target } },
                SeekAction::Item { ack: None },
            )
        }
    }

    /// Starts to seek to a position. One behind the end of the file leads to its
    /// end, and one before the start to its start.
    pub fn start(s: &mut GooseFsFileInStream, pos: i64) -> (r: (SeekOp, SeekAction))
        requires
            old(s).wf(),
            0 <= old(s).file_length,
        ensures
            final(s).wf(),
            r.0.wf(*final(s)),
            seek_starts(
                *old(s),
                clamped(pos as int, old(s).file_length as int),
                *final(s),
                r.0,
                r.1,
            ),
    {
        let target: i64 = if pos < 0 {
            0
        } else if pos > s.file_length {
            s.file_length
        } else {
            pos
        };
        SeekOp::begin(s, target)
    }

    /// Starts to seek as requested.
    pub fn start_from(s: &mut GooseFsFileInStream, from: SeekFrom) -> (r: (SeekOp, SeekAction))
        requires
            old(s).wf(),
            0 <= old(s).file_length,
        ensures
            final(s).wf(),
            r.0.wf(*final(s)),
            seek_starts(
                *old(s),
                clamped(
                    match from {
                        SeekFrom::Start(n) => n as int,
                        SeekFrom::End(n) => old(s).file_length + n,
                        SeekFrom::Current(n) => old(s).pos + n,
                    },
                    old(s).file_length as int,
                ),
                *final(s),
                r.0,
                r.1,
            ),
    {
        let target: i64 = s.seek_target(from);
        SeekOp::begin(s, target)
    }

    /// Takes in an item of the sequential stream. If the stream ends or fails,
    /// it is given up; the seek then leads to its target all the same, or back
    /// to where it started.
    pub fn item(self, s: &mut GooseFsFileInStream, item: StreamItem) -> (r: (SeekOp, SeekAction))
        requires
            old(s).wf(),
            self.wf(*old(s)),
            self.phase is Skip,
        ensures
            final(s).wf(),
            r.0.wf(*final(s)),
            item_skipped(self, *old(s), item, r.0, *final(s), r.1),
    {
        let (origin, target): (i64, i64) = match self.phase {
            SeekPhase::Skip { origin, target } => (origin, target),
            SeekPhase::Ended => (s.pos, s.pos),
        };
        let mut reader = match s.block_in_stream {
            Some(r) => r,
            None => return SeekOp::ended(target),
        };
        let room: i64 = reader.length - reader.bytes_received;
        match reader.read_chunk(item) {
            ReadStep::Wait => (self, SeekAction::Item { ack: None }),
            ReadStep::Fail(e) => {
                s.drop_block_stream();
                s.pos = origin;
                (
                    SeekOp { phase: SeekPhase::Ended },
                    SeekAction::Done { ack: None, result: Err(e) },
                )
            },
            ReadStep::End => {
                s.drop_block_stream();
                s.pos = target;
                SeekOp::ended(target)
            },
            ReadStep::Chunk { data, ack } => {
                let mut there = data;
                let ghost chunk = held(there);
                let more = (there.len() as u64) < room as u64;
                if !more {
                    there = there.split_to(room as usize);
                }
                proof {
                    assert(held(there) =~= in_range(old(s).block_in_stream->0, chunk));
                }
                let behind = if more {
                    Some(reader)
                } else {
                    None
                };
                let want: usize = (target - s.pos) as usize;
                let _skipped = s.hand_out(there, behind, want);
                if s.pos == target {
                    (
                        SeekOp { phase: SeekPhase::Ended },
                        SeekAction::Done { ack, result: Ok(target) },
                    )
                } else {
                    proof {
                        old(s).lemma_near_position(s.pos as int, target as int);
                    }
                    (self, SeekAction::Item { ack })
                }
            },
        }
    }
}

impl GooseFsFileInStream {
    fn is_near(&self, target: i64) -> (r: bool)
        requires
            0 <= self.pos,
            0 <= target,
        ensures
            r == is_near(*self, target as int),
    {
        let distance: i64 = if target >= self.pos {
            target - self.pos
        } else {
            self.pos - target
        };
        distance < TRANSFER_POSITIONED_READ_THRESHOLD && self.block_place(target)
            == self.block_place(self.pos)
    }

    /// Takes in that an acknowledgement was sent on the sequential stream.
    pub fn ack_sent(&mut self)
        requires
            old(self).wf(),
        ensures
            final(self).wf(),
            match old(self).block_in_stream {
                Some(r) => *final(self) == (GooseFsFileInStream {
                    block_in_stream: Some(
                        GrpcBlockReader { bytes_since_last_ack: 0, chunks_since_last_ack: 0, ..r },
                    ),
                    ..*old(self)
                }),
                None => *final(self) == *old(self),
            },
    {
        if let Some(r) = self.block_in_stream {
            let mut reader = r;
            reader.ack_sent();
            self.block_in_stream = Some(reader);
        }
    }

    proof fn lemma_near_target(self, target: int)
        requires
            self.wf(),
            is_near(self, target),
            self.pos < target,
            self.block_in_stream is Some || held(self.carry_over).len() > 0,
        ensures
            self.status.block_size_bytes > 0,
            target < block_end_at(self.pos as int, self.status.block_size_bytes as int),
    {
        let size = self.status.block_size_bytes as int;
        if size <= 0 {
            assert(block_index_at(self.pos as int, size) * size == 0) by (nonlinear_arith)
                requires
                    block_index_at(self.pos as int, size) == 0,
            ;
        } else {
            crate::io::file_in_stream::lemma_block_arithmetic(target, size);
        }
    }

    proof fn lemma_near_position(self, next: int, target: int)
        requires
            self.status.block_size_bytes > 0,
            0 <= self.pos <= next < target <= block_end_at(
                self.pos as int,
                self.status.block_size_bytes as int,
            ),
        ensures
            target <= block_end_at(next, self.status.block_size_bytes as int),
    {
        crate::io::stream_read::lemma_same_block(
            self.pos as int,
            next,
            self.status.block_size_bytes as int,
        );
    }
}

/// Where the part of a read ends that lies in one block.
pub open spec fn segment_end(cur: int, end: int, block_size: int) -> int {
    min_of(end, block_end_at(cur, block_size))
}

/// A read at a position, which leaves the position of the stream alone.
#[derive(Debug)]
pub struct ReadAtOp {
    /// The first byte that was not read.
    pub cur: i64,
    /// Where the read ends.
    pub end: i64,
    /// What was read so far.
    pub parts: Vec<bytes::Bytes>,
}

/// What a read at a position asks for.
#[derive(Debug)]
pub enum ReadAtStep {
    /// Read the range.
    Fetch(RangeRequest),
    /// Return the result.
    Done(Result<bytes::Bytes>),
}

/// A part of a read at a position has come.
pub open spec fn part_comes(
    op0: ReadAtOp,
    s: GooseFsFileInStream,
    data: bytes::Bytes,
    op1: ReadAtOp,
) -> bool {
    &&& op1.end == op0.end
    &&& op1.cur == op0.cur + op0.part_length(s)
    &&& op0.cur < op1.cur <= op1.end
    &&& op1.parts@.len() == op0.parts@.len() + 1
    &&& op1.parts@.drop_last() == op0.parts@
    &&& held(op1.parts@.last()) == held(data).take(
        min_of(held(data).len() as int, op0.part_length(s)),
    )
}

impl ReadAtOp {
    /// Whether there are blocks to read from.
    pub open spec fn wf(self, s: GooseFsFileInStream) -> bool {
        self.cur < self.end ==> s.status.block_size_bytes > 0
    }

    /// Starts to read `n` bytes from `offset` on, as far as the file has them.
    pub fn start(s: &GooseFsFileInStream, offset: i64, n: usize) -> (r: Self)
        requires
            offset < s.file_length && n > 0 ==> s.status.block_size_bytes > 0,
        ensures
            r.wf(*s),
            r.cur == offset,
            r.parts@.len() == 0,
            r.end == (if offset >= s.file_length || n == 0 {
                offset as int
            } else {
                min_of(offset + n, s.file_length as int)
            }),
    {
        let end: i64 = if offset >= s.file_length || n == 0 {
            offset
        } else {
            let wanted: i128 = offset as i128 + n as i128;
            if wanted < s.file_length as i128 {
                wanted as i64
            } else {
                s.file_length
            }
        };
        ReadAtOp { cur: offset, end, parts: Vec::new() }
    }

    /// The length of the next part.
    pub open spec fn part_length(self, s: GooseFsFileInStream) -> int {
        into_i64(
            segment_end(self.cur as int, self.end as int, s.status.block_size_bytes as int)
                - self.cur,
        )
    }

    fn next_length(&self, s: &GooseFsFileInStream) -> (r: i64)
        requires
            self.wf(*s),
            self.cur < self.end,
        ensures
            r == self.part_length(*s),
            0 < r <= self.end - self.cur,
    {
        let block_end: i128 = s.block_end(self.cur);
        let upto: i128 = if self.end as i128 <= block_end {
            self.end as i128
        } else {
            block_end
        };
        let length: i128 = upto - self.cur as i128;
        if length > i64::MAX as i128 {
            i64::MAX
        } else {
            length as i64
        }
    }

    /// The next range to read: the part that lies in one block. Once all was
    /// read, the parts are handed out as one.
    pub fn next(&self, s: &GooseFsFileInStream) -> (r: ReadAtStep)
        requires
            self.wf(*s),
        ensures
            ({
                let size = s.status.block_size_bytes as int;
                let place = block_index_at(self.cur as int, size) as usize;
                match r {
                    ReadAtStep::Fetch(request) => {
                        &&& self.cur < self.end
                        &&& s.names_block(place, request.block_id)
                        &&& request.offset == block_offset_at(self.cur as int, size)
                        &&& request.length == self.part_length(*s)
                        &&& request.chunk_size == s.chunk_size as i64
                        &&& s.locates_block(place, request.ufs_options)
                    },
                    ReadAtStep::Done(Ok(b)) => self.cur >= self.end && held(b) == joined_buffers(
                        self.parts@,
                    ),
                    ReadAtStep::Done(Err(e)) => {
                        &&& self.cur < self.end
                        &&& forall|id: i64| !s.names_block(place, id)
                        &&& e@ == (ErrorView::Internal {
                            message: no_block_text(place as nat),
                            source: None,
                        })
                    },
                }
            }),
    {
        if self.cur >= self.end {
            return ReadAtStep::Done(Ok(concat(&self.parts)));
        }
        let place: usize = s.block_index_for_pos(self.cur);
        let length: i64 = self.next_length(s);
        match s.block_id_at(place) {
            Err(e) => ReadAtStep::Done(Err(e)),
            Ok(block_id) => ReadAtStep::Fetch(
                RangeRequest {
                    block_id,
                    offset: s.offset_in_block(self.cur),
                    length,
                    chunk_size: s.chunk_size as i64,
                    ufs_options: s.build_ufs_opts(place),
                },
            ),
        }
    }

    /// Takes in what the range gave. A surplus is dropped.
    pub fn fetched(&mut self, s: &GooseFsFileInStream, data: bytes::Bytes)
        requires
            old(self).wf(*s),
            old(self).cur < old(self).end,
        ensures
            final(self).wf(*s),
            part_comes(*old(self), *s, data, *final(self)),
    {
        let length: i64 = self.next_length(s);
        let mut part = data;
        let ghost all = held(part);
        if part.len() as u64 > length as u64 {
            part = part.split_to(length as usize);
        }
        proof {
            assert(held(part) =~= all.take(min_of(all.len() as int, length as int)));
        }
        self.parts.push(part);
        self.cur = self.cur + length;
        proof {
            assert(self.parts@.drop_last() =~= old(self).parts@);
        }
    }
}

} // verus!
