//! What a stream hands out and where it stands: laws on the steps of a read and of a seek.
//!
//! `call_ensures(f, args, r)` says that `r` is a result of the call of `f` with `args`.

use vstd::prelude::*;

use crate::buffer::{held, joined_buffers};
use crate::config::settings::GoosefsConfig;
use crate::error::{Error, Result};
use crate::io::file_in_stream::{
    check_config, check_workers, lemma_block_arithmetic, GooseFsFileInStream,
    ReadToEnd, SeekFrom,
};
use crate::io::read_laws::carries;
use crate::io::reader::{
    classify_response, one_less_in_progress, one_more_in_progress, BlockRead, ChunkAction,
    GrpcBlockReader,
    StreamItem,
};
use crate::io::stream_read::{ReadAction, ReadOp, ReadPhase};
use crate::io::stream_seek::{ReadAtOp, ReadAtStep, SeekAction, SeekOp, SeekPhase};
use crate::proto::ReadResponse;

verus! {

/// A seek to where the stream stands changes nothing; one that is over leaves the stream
/// at its target, and one that goes on skips ahead within the block.
pub proof fn law_seek_starts_towards_its_target(
    s: &mut GooseFsFileInStream,
    pos: i64,
    target: int,
    r: (SeekOp, SeekAction),
)
    requires
        call_ensures(SeekOp::start, (s, pos), r),
        0 <= old(s).file_length,
        0 <= old(s).pos,
        target == if pos < 0 {
            0
        } else if pos > old(s).file_length {
            old(s).file_length as int
        } else {
            pos as int
        },
    ensures
        r.1 matches SeekAction::Done { result, ack } ==> ack is None && (result matches Ok(p) && p
            == target) && final(s).pos == target,
        r.1 is Item ==> (r.0.phase matches SeekPhase::Skip { origin, target: t } && t == target
            && origin == old(s).pos) && old(s).pos <= final(s).pos < target,
        target == old(s).pos ==> *final(s) == *old(s),
        target - old(s).pos >= 8192 || old(s).pos - target >= 8192 ==> r.1 is Done && final(s).positioned_next,
        target < old(s).pos || target - old(s).pos >= 8192 ==> final(s).block_in_stream is None
            && held(final(s).carry_over).len() == 0,
        final(s).file_length == old(s).file_length && final(s).status == old(s).status,
{
}

/// A seek over a block border reads anew from its target.
pub proof fn law_seek_over_a_block_border_reads_anew(
    s: &mut GooseFsFileInStream,
    pos: i64,
    here: usize,
    there: usize,
    r: (SeekOp, SeekAction),
)
    requires
        call_ensures(SeekOp::start, (s, pos), r),
        0 <= old(s).pos,
        0 <= pos <= old(s).file_length,
        old(s).status.block_size_bytes > 0,
        call_ensures(GooseFsFileInStream::block_index_for_pos, (old(s), old(s).pos), here),
        call_ensures(GooseFsFileInStream::block_index_for_pos, (old(s), pos), there),
        here != there,
    ensures
        r.1 is Done && final(s).pos == pos && final(s).positioned_next,
        final(s).block_in_stream is None && held(final(s).carry_over).len() == 0,
{
}

/// A seek from the start, from the end or from where the stream stands leads to that
/// place, or to the nearest one in the file.
pub proof fn law_seek_from_leads_to_the_place(
    s: &mut GooseFsFileInStream,
    from: SeekFrom,
    asked: int,
    r: (SeekOp, SeekAction),
)
    requires
        call_ensures(SeekOp::start_from, (s, from), r),
        0 <= old(s).file_length,
        0 <= old(s).pos,
        from matches SeekFrom::Start(n) ==> asked == n,
        from matches SeekFrom::Current(n) ==> asked == old(s).pos + n,
        from matches SeekFrom::End(n) ==> asked == old(s).file_length + n,
    ensures
        r.1 matches SeekAction::Done { result, ack } ==> (result matches Ok(p) && p
            == final(s).pos) && (0 <= asked <= old(s).file_length ==> final(s).pos == asked) && (
        asked < 0 ==> final(s).pos == 0) && (asked > old(s).file_length ==> final(s).pos == old(s).file_length),
        r.1 is Item ==> (r.0.phase matches SeekPhase::Skip { origin, target: t } && (0 <= asked
            <= old(s).file_length ==> t == asked)),
{
}

/// Skipping drops the bytes before the target and keeps those behind it for the next
/// read; a failure leads back to where the seek began.
pub proof fn law_skipping_keeps_what_lies_behind(
    op: SeekOp,
    s: &mut GooseFsFileInStream,
    item: StreamItem,
    bytes: Seq<u8>,
    origin: i64,
    target: i64,
    r: (SeekOp, SeekAction),
)
    requires
        call_ensures(SeekOp::item, (op, s, item), r),
        op.phase == (SeekPhase::Skip { origin, target }),
        old(s).block_in_stream is Some,
        old(s).pos < target,
        target - old(s).pos <= 8192,
    ensures
        item matches StreamItem::Failed(e) ==> (r.1 matches SeekAction::Done { result: Err(f), .. }
            && f == e) && final(s).pos == origin,
        item is Lost ==> (r.1 matches SeekAction::Done { result: Err(_), .. }) && final(s).pos
            == origin,
        item is End ==> (r.1 matches SeekAction::Done { result: Ok(p), .. } && p == target)
            && final(s).pos == target,
        item matches StreamItem::Data(frame) ==> carries(frame, bytes) && 0 < bytes.len() <= old(s).block_in_stream->0.length - old(s).block_in_stream->0.bytes_received ==> {
            let n = target - old(s).pos;
            &&& bytes.len() >= n ==> final(s).pos == target && held(final(s).carry_over)
                == bytes.skip(n) && (r.1 matches SeekAction::Done { result: Ok(p), .. } && p
                == target)
            &&& bytes.len() < n ==> final(s).pos == old(s).pos + bytes.len() && held(
                final(s).carry_over,
            ).len() == 0 && r.1 is Item && r.0.phase == op.phase
        },
{
    if let StreamItem::Data(frame) = item {
        if carries(frame, bytes) && 0 < bytes.len() {
            let room = old(s).block_in_stream->0.length - old(s).block_in_stream->0.bytes_received;
            if bytes.len() <= room {
                assert(bytes.take(bytes.len() as int) =~= bytes);
            }
        }
    }
}

/// A read that gets bytes hands out as many as are wanted, from the front, keeps the rest
/// for the next read, and moves on by what it handed out.
pub proof fn law_read_hands_out_from_the_front(
    op: ReadOp,
    s: &mut GooseFsFileInStream,
    item: StreamItem,
    bytes: Seq<u8>,
    r: (ReadOp, ReadAction),
)
    requires
        call_ensures(ReadOp::item, (op, s, item), r),
        old(s).block_in_stream is Some,
    ensures
        item matches StreamItem::Data(frame) ==> carries(frame, bytes) && 0 < bytes.len() <= old(s).block_in_stream->0.length - old(s).block_in_stream->0.bytes_received ==> (
        r.1 matches ReadAction::Done { result: Ok(b), .. } && held(b) + held(final(s).carry_over)
            == bytes && (held(b).len() == op.want || held(b) == bytes) && held(b).len() <= op.want
            && final(s).pos == old(s).pos + held(b).len()),
        item matches StreamItem::Data(frame) ==> carries(frame, bytes) && bytes.len() == 0 ==> r.1
            is Item && *final(s) == *old(s),
        item is End ==> (r.1 matches ReadAction::Done { result: Ok(b), .. } && held(b).len() == 0)
            && final(s).pos == old(s).pos,
        item matches StreamItem::Failed(e) ==> r.1 == (ReadAction::Done {
            ack: None,
            result: Err(e),
        }) && *final(s) == *old(s),
        item is Lost ==> (r.1 matches ReadAction::Done { result: Err(e), .. } && e is Internal)
            && *final(s) == *old(s),
{
    if let StreamItem::Data(frame) = item {
        if carries(frame, bytes) && 0 < bytes.len() {
            let room = old(s).block_in_stream->0.length - old(s).block_in_stream->0.bytes_received;
            if bytes.len() <= room {
                assert(bytes.take(bytes.len() as int) =~= bytes);
                let n = if bytes.len() <= op.want {
                    bytes.len() as int
                } else {
                    op.want as int
                };
                assert(bytes.take(n) + bytes.skip(n) =~= bytes);
            }
        }
    }
}

/// A block stream that was opened is read from; one that was not fails the read and
/// leaves the stream as it was.
pub proof fn law_opened_block_is_read_from(
    op: ReadOp,
    s: &mut GooseFsFileInStream,
    outcome: Result<()>,
    block_id: i64,
    offset: i64,
    length: i64,
    r: (ReadOp, ReadAction),
)
    requires
        call_ensures(ReadOp::opened, (op, s, outcome), r),
        op.phase == (ReadPhase::Open { block_id, offset, length }),
    ensures
        outcome is Ok && length > 0 ==> r.1 is Item && (final(s).block_in_stream matches Some(b)
            && b.block_id == block_id && b.offset == offset && b.length == length
            && b.bytes_received == 0) && final(s).pos == old(s).pos,
        outcome matches Err(e) ==> r.1 == (ReadAction::Done { ack: None, result: Err(e) })
            && *final(s) == *old(s),
        r.0.want == op.want,
{
}

/// A range that was read is handed out, but no more than was asked for, and the stream
/// moves on by it; a failed one moves nothing.
pub proof fn law_positioned_range_is_handed_out(
    op: ReadOp,
    s: &mut GooseFsFileInStream,
    outcome: Result<bytes::Bytes>,
    length: i64,
    r: (ReadOp, ReadAction),
)
    requires
        call_ensures(ReadOp::positioned, (op, s, outcome), r),
        op.phase == (ReadPhase::Positioned { length }),
        0 < length,
    ensures
        outcome matches Ok(data) ==> held(data).len() <= length ==> (r.1 matches ReadAction::Done {
            result: Ok(b),
            ..
        } && held(b) == held(data)) && final(s).pos == old(s).pos + held(data).len(),
        outcome matches Ok(data) ==> held(data).len() > length ==> (r.1 matches ReadAction::Done {
            result: Ok(b),
            ..
        } && held(b) == held(data).take(length as int)) && final(s).pos == old(s).pos + length,
        outcome matches Err(e) ==> r.1 == (ReadAction::Done { ack: None, result: Err(e) })
            && *final(s) == *old(s),
{
    if let Ok(data) = outcome {
        if held(data).len() <= length {
            assert(held(data).take(held(data).len() as int) =~= held(data));
        }
    }
}

/// A read at a position asks for the part that lies in the block of the position, and is
/// over with all its parts, in order, when it has reached its end.
pub proof fn law_read_at_asks_for_the_next_part(
    op: ReadAtOp,
    s: GooseFsFileInStream,
    r: ReadAtStep,
    place: usize,
)
    requires
        call_ensures(ReadAtOp::next, (&op, &s), r),
        s.status.block_size_bytes > 0,
        0 <= op.cur,
        call_ensures(GooseFsFileInStream::block_index_for_pos, (&s, op.cur), place),
        op.cur / s.status.block_size_bytes <= usize::MAX,
    ensures
        (op.cur < op.end) == (r is Fetch || (r matches ReadAtStep::Done(Err(_)))),
        r matches ReadAtStep::Fetch(q) ==> place * s.status.block_size_bytes + q.offset == op.cur
            && 0 < q.length <= op.end - op.cur && (op.cur + q.length == op.end || op.cur + q.length
            == (place + 1) * s.status.block_size_bytes),
        r matches ReadAtStep::Fetch(q) ==> place < s.status.block_ids@.len()
            && s.status.block_ids@[place as int] > 0 ==> q.block_id
            == s.status.block_ids@[place as int],
        r matches ReadAtStep::Fetch(q) ==> q.ufs_options is Some ==> place
            * s.status.block_size_bytes <= i64::MAX ==> q.ufs_options->0.offset_in_file == Some(
            (place * s.status.block_size_bytes) as i64,
        ),
        r matches ReadAtStep::Done(Ok(b)) ==> held(b) == joined_buffers(op.parts@),
{
    let size = s.status.block_size_bytes as int;
    lemma_block_arithmetic(op.cur as int, size);
    assert((place + 1) * size == place * size + size) by (nonlinear_arith);
    if place * size <= i64::MAX {
        assert(place * size >= 0) by (nonlinear_arith)
            requires
                size > 0,
                place >= 0,
        ;
        crate::io::read_laws::lemma_product_fits(place as int, size);
    }
}

/// A part that was read is added behind the others, cut to the length that was asked for,
/// and the read goes on behind it.
pub proof fn law_read_at_goes_on_behind_the_part(
    op: &mut ReadAtOp,
    s: GooseFsFileInStream,
    data: bytes::Bytes,
    step: ReadAtStep,
)
    requires
        call_ensures(ReadAtOp::next, (old(op), &s), step),
        call_ensures(ReadAtOp::fetched, (op, &s, data), ()),
    ensures
        step matches ReadAtStep::Fetch(q) ==> final(op).cur == old(op).cur + q.length && final(op).end == old(op).end && (held(data).len() <= q.length ==> joined_buffers(final(op).parts@)
            == joined_buffers(old(op).parts@) + held(data)) && (held(data).len() > q.length
            ==> joined_buffers(final(op).parts@) == joined_buffers(old(op).parts@) + held(
            data,
        ).take(q.length as int)),
{
    if held(data).len() > 0 {
        assert(held(data).take(held(data).len() as int) =~= held(data));
    } else {
        assert(held(data).take(0) =~= held(data));
    }
}

/// Without workers nothing can be read, and a refused configuration opens nothing.
pub proof fn law_reading_needs_workers_and_a_valid_configuration(
    n: usize,
    r: Result<()>,
    c: GoosefsConfig,
    checked: Result<()>,
    valid: std::result::Result<(), String>,
)
    requires
        call_ensures(check_workers, (n,), r),
        call_ensures(check_config, (&c,), checked),
        call_ensures(GoosefsConfig::validate, (&c,), valid),
    ensures
        (r is Ok) == (n > 0),
        r matches Err(e) ==> e is NoWorkerAvailable,
        (checked is Ok) == (valid is Ok),
        checked matches Err(e) ==> (e matches Error::ConfigError { message } && (valid matches Err(
            m,
        ) && m@ == message@)),
{
}

/// A stream tells where it stands and how long the file is.
pub proof fn law_stream_tells_its_place(
    s: GooseFsFileInStream,
    pos: i64,
    len: i64,
    empty: bool,
    eof: bool,
    left: i64,
)
    requires
        call_ensures(GooseFsFileInStream::pos, (&s,), pos),
        call_ensures(GooseFsFileInStream::len, (&s,), len),
        call_ensures(GooseFsFileInStream::is_empty, (&s,), empty),
        call_ensures(GooseFsFileInStream::is_eof, (&s,), eof),
        call_ensures(GooseFsFileInStream::remaining, (&s,), left),
    ensures
        pos == s.pos && len == s.file_length,
        empty == (len == 0),
        eof == (pos >= len),
        !eof ==> left == len - pos,
        eof ==> left == 0,
{
}

/// A stream is read through in windows of the chunk size, but of no more than 64 KiB.
pub proof fn law_windows_are_bounded(chunk_size: u64, r: usize)
    requires
        call_ensures(ReadToEnd::window, (chunk_size,), r),
    ensures
        chunk_size <= 65536 ==> r == chunk_size,
        chunk_size > 65536 ==> r == 65536,
{
}

/// An acknowledgement that was sent is not due again.
pub proof fn law_sent_acknowledgement_is_forgotten(s: &mut GooseFsFileInStream)
    requires
        call_ensures(GooseFsFileInStream::ack_sent, (s,), ()),
    ensures
        old(s).block_in_stream is None ==> *final(s) == *old(s),
        old(s).block_in_stream matches Some(b) ==> (final(s).block_in_stream matches Some(c)
            && c.bytes_since_last_ack == 0 && c.chunks_since_last_ack == 0 && c.bytes_received
            == b.bytes_received && c.block_id == b.block_id && c.offset == b.offset && c.length
            == b.length),
        final(s).pos == old(s).pos && final(s).carry_over == old(s).carry_over,
{
}

/// A reader tells its block, what it received, and whether that is all of its range.
pub proof fn law_block_reader_tells_its_progress(
    b: GrpcBlockReader,
    id: i64,
    received: i64,
    complete: bool,
)
    requires
        call_ensures(GrpcBlockReader::block_id, (&b,), id),
        call_ensures(GrpcBlockReader::bytes_received, (&b,), received),
        call_ensures(GrpcBlockReader::is_complete, (&b,), complete),
    ensures
        id == b.block_id,
        received == b.bytes_received,
        complete == (b.bytes_received >= b.length),
{
}

/// A frame with bytes delivers them, one without is waited past, and no frame is the end.
pub proof fn law_frames_are_told_apart(
    resp: Option<ReadResponse>,
    bytes: Seq<u8>,
    r: ChunkAction,
)
    requires
        call_ensures(classify_response, (resp,), r),
    ensures
        resp is None ==> r is Eof,
        resp matches Some(frame) ==> carries(frame, bytes) && bytes.len() > 0 ==> (r matches
            ChunkAction::Deliver(b) && held(b) == bytes),
        resp matches Some(frame) ==> carries(frame, bytes) && bytes.len() == 0 ==> r is KeepReading,
        resp matches Some(frame) ==> frame.chunk is None || frame.chunk->0.data is None ==> r
            is KeepReading,
{
}

/// Reads in progress are counted up and down, but never below none.
pub proof fn law_reads_in_progress_are_counted(n: i64, more: i64, less: i64, back: i64)
    requires
        call_ensures(one_more_in_progress, (n,), more),
        call_ensures(one_less_in_progress, (more,), back),
        call_ensures(one_less_in_progress, (n,), less),
        0 <= n < i64::MAX,
    ensures
        more == n + 1,
        back == n,
        n > 0 ==> less == n - 1,
        n == 0 ==> less == 0,
{
}

/// After an acknowledgement was sent, bytes and chunks are counted anew, and what was
/// received stays.
pub proof fn law_acknowledged_bytes_are_counted_anew(
    b: &mut GrpcBlockReader,
    read: &mut BlockRead,
)
    requires
        call_ensures(GrpcBlockReader::ack_sent, (b,), ()),
        call_ensures(BlockRead::ack_sent, (read,), ()),
    ensures
        final(b).bytes_since_last_ack == 0 && final(b).chunks_since_last_ack == 0,
        final(b).bytes_received == old(b).bytes_received && final(b).block_id == old(b).block_id
            && final(b).offset == old(b).offset && final(b).length == old(b).length,
        final(read).reader.bytes_since_last_ack == 0 && final(read).reader.chunks_since_last_ack
            == 0,
        final(read).buffer == old(read).buffer && final(read).reader.bytes_received
            == old(read).reader.bytes_received,
{
}

} // verus!
