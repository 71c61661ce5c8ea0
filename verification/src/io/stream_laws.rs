//! Laws of the seekable stream.

use vstd::prelude::*;

use crate::buffer::{held, joined_buffers};
use crate::error::Result;
use crate::io::file_in_stream::{
    block_end_at, block_index_at, block_offset_at, clamped, lemma_block_arithmetic,
    GooseFsFileInStream,
};
use crate::io::reader::{payload, GrpcBlockReader, StreamItem};
use crate::io::stream_read::{
    hands_out, in_range, item_comes, range_comes, read_starts, stream_opens, ReadAction, ReadOp,
};
use crate::io::stream_seek::{
    item_skipped, part_comes, seek_starts, segment_end, ReadAtOp, SeekAction, SeekOp, SeekPhase,
};

verus! {

/// The sequential stream is where the reads are: the next byte that it brings
/// is the one behind those that were handed out and carried over.
pub proof fn law_stream_is_aligned(s: GooseFsFileInStream, reader: GrpcBlockReader)
    requires
        s.wf(),
        s.block_in_stream == Some(reader),
    ensures
        block_index_at(s.pos as int, s.status.block_size_bytes as int) * s.status.block_size_bytes
            + reader.offset + reader.bytes_received == s.pos + held(s.carry_over).len(),
{
    let size = s.status.block_size_bytes as int;
    if size <= 0 {
        assert(block_index_at(s.pos as int, size) * size == 0) by (nonlinear_arith)
            requires
                block_index_at(s.pos as int, size) == 0,
        ;
    }
}

/// No byte is lost or doubled. Where the bytes that are there are those of the
/// file from the position on, a read hands out the bytes of the file between
/// its old and its new position, and carries over those behind.
pub proof fn law_read_hands_out_the_bytes_of_the_file(
    content: Seq<u8>,
    s0: GooseFsFileInStream,
    there: Seq<u8>,
    reader: Option<GrpcBlockReader>,
    want: usize,
    s1: GooseFsFileInStream,
    out: bytes::Bytes,
)
    requires
        0 <= s0.pos,
        s0.pos + there.len() <= content.len(),
        there == content.subrange(s0.pos as int, s0.pos + there.len()),
        hands_out(s0, there, reader, want, s1, out),
    ensures
        held(out) == content.subrange(s0.pos as int, s1.pos as int),
        held(s1.carry_over) == content.subrange(
            s1.pos as int,
            s1.pos + held(s1.carry_over).len(),
        ),
        held(out).len() <= want,
{
    assert(held(out) =~= content.subrange(s0.pos as int, s1.pos as int));
    assert(held(s1.carry_over) =~= content.subrange(
        s1.pos as int,
        s1.pos + held(s1.carry_over).len(),
    ));
}

/// A chunk that a worker sends of its block is the part of the file from the
/// position on, when nothing was carried over.
pub proof fn law_chunk_is_next_in_the_file(
    content: Seq<u8>,
    s: GooseFsFileInStream,
    reader: GrpcBlockReader,
    chunk: Seq<u8>,
)
    requires
        s.wf(),
        s.block_in_stream == Some(reader),
        held(s.carry_over).len() == 0,
        content.len() == s.file_end(),
        ({
            let from = block_index_at(s.pos as int, s.status.block_size_bytes as int)
                * s.status.block_size_bytes + reader.offset + reader.bytes_received;
            in_range(reader, chunk) == content.subrange(
                from,
                from + in_range(reader, chunk).len(),
            )
        }),
    ensures
        in_range(reader, chunk) == content.subrange(
            s.pos as int,
            s.pos + in_range(reader, chunk).len(),
        ),
        s.pos + in_range(reader, chunk).len() <= content.len(),
{
    law_stream_is_aligned(s, reader);
}

/// What comes of an action of a read.
pub enum ReadEvent {
    /// The sequential stream was opened or not.
    Opened(Result<()>),
    /// An item of the sequential stream.
    Item(StreamItem),
    /// The bytes of the range that was asked for.
    Positioned(Result<bytes::Bytes>),
}

/// A moment of a read: what it asks for, the stream then, and what comes of it.
pub struct ReadMoment {
    /// The read.
    pub op: ReadOp,
    /// The stream.
    pub s: GooseFsFileInStream,
    /// What is asked for.
    pub asked: ReadAction,
    /// What comes of it.
    pub event: ReadEvent,
}

/// The bytes that were carried over are those of the file from the position on.
pub open spec fn faithful(s: GooseFsFileInStream, content: Seq<u8>) -> bool {
    let carried = held(s.carry_over);
    &&& content.len() == s.file_end()
    &&& carried == content.subrange(s.pos as int, s.pos + carried.len())
}

/// Whether `bytes` are those of the file from `at` on.
pub open spec fn stands_at(content: Seq<u8>, at: int, bytes: Seq<u8>) -> bool {
    &&& 0 <= at <= at + bytes.len() <= content.len()
    &&& bytes == content.subrange(at, at + bytes.len())
}

/// The bytes that a worker sends are those of the file: a chunk of the sequential
/// stream those that follow in its block, and a range those from the position on.
pub open spec fn from_the_file(content: Seq<u8>, m: ReadMoment) -> bool {
    match m.event {
        ReadEvent::Item(StreamItem::Data(frame)) => m.s.block_in_stream matches Some(reader)
            && stands_at(
            content,
            block_index_at(m.s.pos as int, m.s.status.block_size_bytes as int)
                * m.s.status.block_size_bytes + reader.offset + reader.bytes_received,
            in_range(reader, payload(frame)),
        ),
        ReadEvent::Positioned(Ok(data)) => stands_at(content, m.s.pos as int, held(data)),
        _ => true,
    }
}

/// The read goes on from one moment to the next.
pub open spec fn read_follows(m0: ReadMoment, m1: ReadMoment) -> bool {
    match m0.event {
        ReadEvent::Opened(outcome) => stream_opens(m0.op, m0.s, outcome, m1.op, m1.s, m1.asked),
        ReadEvent::Item(item) => m0.op.phase is Item && item_comes(
            m0.op,
            m0.s,
            item,
            m1.op,
            m1.s,
            m1.asked,
        ),
        ReadEvent::Positioned(outcome) => range_comes(
            m0.op,
            m0.s,
            outcome,
            m1.op,
            m1.s,
            m1.asked,
        ),
    }
}

/// The moments of a read of up to `want` bytes of a file with the given content.
pub open spec fn read_run(
    content: Seq<u8>,
    s: GooseFsFileInStream,
    want: usize,
    run: Seq<ReadMoment>,
) -> bool {
    &&& run.len() > 0
    &&& read_starts(s, want, run[0].s, run[0].op, run[0].asked)
    &&& forall|i: int|
        0 <= i < run.len() ==> (#[trigger] run[i]).s.wf() && run[i].op.wf(run[i].s)
    &&& forall|i: int|
        0 < i < run.len() ==> read_follows(run[i - 1], #[trigger] run[i]) && from_the_file(
            content,
            run[i - 1],
        )
}

/// What a read has come to: it has handed out the bytes of the file between the old
/// and the new position, or is still under way at the old one.
pub open spec fn reads_the_file(
    content: Seq<u8>,
    pos: int,
    want: usize,
    m: ReadMoment,
) -> bool {
    &&& faithful(m.s, content)
    &&& m.op.want == want
    &&& match m.asked {
        ReadAction::Done { ack: _, result: Ok(out) } => {
            &&& pos <= m.s.pos
            &&& held(out) == content.subrange(pos, m.s.pos as int)
            &&& held(out).len() <= want
        },
        _ => m.s.pos == pos,
    }
}

proof fn lemma_read_starts(
    content: Seq<u8>,
    s: GooseFsFileInStream,
    want: usize,
    m: ReadMoment,
)
    requires
        s.wf(),
        faithful(s, content),
        read_starts(s, want, m.s, m.op, m.asked),
    ensures
        reads_the_file(content, s.pos as int, want, m),
{
    if let ReadAction::Done { ack, result } = m.asked {
        if let Ok(out) = result {
            if s.pos >= s.file_length || want == 0 {
                assert(held(out) =~= content.subrange(s.pos as int, m.s.pos as int));
            } else {
                law_read_hands_out_the_bytes_of_the_file(
                    content,
                    s,
                    held(s.carry_over),
                    s.block_in_stream,
                    want,
                    m.s,
                    out,
                );
            }
        }
    }
}

proof fn lemma_read_goes_on(content: Seq<u8>, pos: int, want: usize, m0: ReadMoment, m1: ReadMoment)
    requires
        0 <= pos,
        m0.s.wf(),
        m0.op.wf(m0.s),
        !(m0.asked is Done),
        reads_the_file(content, pos, want, m0),
        from_the_file(content, m0),
        read_follows(m0, m1),
    ensures
        reads_the_file(content, pos, want, m1),
{
    match m0.event {
        ReadEvent::Item(StreamItem::Data(frame)) => {
            if payload(frame).len() > 0 {
                let reader = m0.s.block_in_stream->0;
                law_stream_is_aligned(m0.s, reader);
                law_read_hands_out_the_bytes_of_the_file(
                    content,
                    m0.s,
                    in_range(reader, payload(frame)),
                    crate::io::stream_read::reader_behind(reader, payload(frame)),
                    want,
                    m1.s,
                    m1.asked->result->Ok_0,
                );
            }
        },
        ReadEvent::Positioned(Ok(data)) => {
            let n = m1.s.pos - m0.s.pos;
            assert(held(data).take(n) =~= content.subrange(pos, m1.s.pos as int));
            assert(held(m1.s.carry_over) =~= content.subrange(m1.s.pos as int, m1.s.pos as int));
        },
        _ => {
            assert(forall|none: Seq<u8>| #[trigger]
                none.len() == 0 ==> none =~= content.subrange(pos, pos));
        },
    }
}

/// A read of a file gives its bytes: where workers send the bytes of the file, a read
/// that succeeds hands out those between the old and the new position, and one that
/// fails does not move.
pub proof fn law_read_gives_the_bytes_of_the_file(
    content: Seq<u8>,
    s: GooseFsFileInStream,
    want: usize,
    run: Seq<ReadMoment>,
)
    requires
        s.wf(),
        faithful(s, content),
        read_run(content, s, want, run),
        forall|i: int| 0 <= i < run.len() - 1 ==> !((#[trigger] run[i]).asked is Done),
    ensures
        reads_the_file(content, s.pos as int, want, run.last()),
    decreases run.len(),
{
    if run.len() == 1 {
        lemma_read_starts(content, s, want, run[0]);
    } else {
        let earlier = run.drop_last();
        assert(forall|i: int| 0 <= i < earlier.len() ==> earlier[i] == run[i]);
        law_read_gives_the_bytes_of_the_file(content, s, want, earlier);
        let m0 = run[run.len() - 2];
        lemma_read_goes_on(content, s.pos as int, want, m0, run[run.len() - 1]);
    }
}

/// The stream before the `k`-th of the reads in `runs`, the first of which starts at `s`.
pub open spec fn before_read(
    s: GooseFsFileInStream,
    runs: Seq<Seq<ReadMoment>>,
    k: int,
) -> GooseFsFileInStream {
    if k == 0 {
        s
    } else {
        runs[k - 1].last().s
    }
}

/// The bytes that a read has handed out.
pub open spec fn outcome_of(run: Seq<ReadMoment>) -> bytes::Bytes {
    run.last().asked->result->Ok_0
}

/// The `k`-th of the reads in `runs` is a read of up to `want` bytes from where the one
/// before it ended, and it succeeds.
pub open spec fn read_succeeds(
    content: Seq<u8>,
    s: GooseFsFileInStream,
    want: usize,
    runs: Seq<Seq<ReadMoment>>,
    k: int,
) -> bool {
    &&& read_run(content, before_read(s, runs, k), want, runs[k])
    &&& forall|i: int| 0 <= i < runs[k].len() - 1 ==> !((#[trigger] runs[k][i]).asked is Done)
    &&& runs[k].last().asked is Done
    &&& runs[k].last().asked->result is Ok
}

/// The `k`-th of the reads in `runs` has handed out up to `want` bytes, those of the file
/// from the position before it to the one behind it.
pub open spec fn read_is_there(
    content: Seq<u8>,
    s: GooseFsFileInStream,
    want: usize,
    runs: Seq<Seq<ReadMoment>>,
    k: int,
) -> bool {
    let from = before_read(s, runs, k).pos;
    let to = runs[k].last().s.pos;
    &&& from <= to <= content.len()
    &&& held(outcome_of(runs[k])) == content.subrange(from as int, to as int)
    &&& held(outcome_of(runs[k])).len() <= want
}

/// Reads one after the other skip no byte of the file and lose none: where workers send
/// the bytes of the file, each hands out those behind the ones of the read before it,
/// however small the buffers and however the bytes are cut into chunks.
pub proof fn law_successive_reads_lose_no_byte(
    content: Seq<u8>,
    s: GooseFsFileInStream,
    wants: Seq<usize>,
    runs: Seq<Seq<ReadMoment>>,
)
    requires
        s.wf(),
        faithful(s, content),
        runs.len() == wants.len(),
        forall|k: int|
            0 <= k < runs.len() ==> #[trigger] read_succeeds(content, s, wants[k], runs, k),
    ensures
        forall|k: int|
            0 <= k < runs.len() ==> #[trigger] read_is_there(content, s, wants[k], runs, k),
        ({
            let last = before_read(s, runs, runs.len() as int);
            &&& last.wf()
            &&& faithful(last, content)
            &&& s.pos <= last.pos <= content.len()
            &&& joined_buffers(runs.map_values(|run: Seq<ReadMoment>| outcome_of(run)))
                == content.subrange(s.pos as int, last.pos as int)
        }),
    decreases runs.len(),
{
    let outcomes = |run: Seq<ReadMoment>| outcome_of(run);
    if runs.len() == 0 {
        assert(runs.map_values(outcomes) =~= Seq::empty());
        assert(content.subrange(s.pos as int, s.pos as int) =~= Seq::empty());
    } else {
        let n = runs.len() - 1;
        let earlier = runs.drop_last();
        assert forall|k: int| 0 <= k < earlier.len() implies #[trigger] read_succeeds(
            content,
            s,
            wants.drop_last()[k],
            earlier,
            k,
        ) by {
            assert(read_succeeds(content, s, wants[k], runs, k));
        }
        law_successive_reads_lose_no_byte(content, s, wants.drop_last(), earlier);
        let here = before_read(s, runs, n);
        assert(here == before_read(s, earlier, n));
        assert(read_succeeds(content, s, wants[n], runs, n));
        law_read_gives_the_bytes_of_the_file(content, here, wants[n], runs[n]);
        let m = runs[n].last();
        assert(m == runs[n][runs[n].len() - 1]);
        assert forall|k: int| 0 <= k < runs.len() implies #[trigger] read_is_there(
            content,
            s,
            wants[k],
            runs,
            k,
        ) by {
            if k < n {
                assert(read_is_there(content, s, wants.drop_last()[k], earlier, k));
            }
        }
        let parts = runs.map_values(outcomes);
        assert(parts.drop_last() =~= earlier.map_values(outcomes));
        assert(content.subrange(s.pos as int, here.pos as int) + content.subrange(
            here.pos as int,
            m.s.pos as int,
        ) =~= content.subrange(s.pos as int, m.s.pos as int));
    }
}

/// The parts of a read at a position follow on one another, stay within one
/// block each, and make progress, so that they cover the range exactly once.
pub proof fn law_parts_tile_the_range(cur: int, end: int, block_size: int)
    requires
        block_size > 0,
        0 <= cur < end,
    ensures
        cur < segment_end(cur, end, block_size) <= end,
        block_offset_at(cur, block_size) >= 0,
        block_offset_at(cur, block_size) + (segment_end(cur, end, block_size) - cur) <= block_size,
        segment_end(cur, end, block_size) < end ==> block_offset_at(
            segment_end(cur, end, block_size),
            block_size,
        ) == 0,
{
    lemma_block_arithmetic(cur, block_size);
    let next = block_end_at(cur, block_size);
    let q = block_index_at(cur, block_size) + 1;
    assert(next == q * block_size) by (nonlinear_arith)
        requires
            next == (q - 1) * block_size + block_size,
    ;
    assert(q >= 0);
    vstd::arithmetic::div_mod::lemma_fundamental_div_mod_converse(next, block_size, q, 0);
}

/// What a read at a position has come to: the bytes of the file from `offset` up to
/// where it stands.
pub open spec fn has_read(content: Seq<u8>, offset: int, op: ReadAtOp) -> bool {
    &&& 0 <= offset <= op.cur <= op.end <= content.len()
    &&& joined_buffers(op.parts@) == content.subrange(offset, op.cur as int)
}

/// A read at a position gives the bytes of the file: where a worker sends those of the
/// part that was asked for, the read has come to them too, and once it stands at its
/// end the parts are the bytes of the whole range.
pub proof fn law_read_at_gives_the_bytes_of_the_file(
    content: Seq<u8>,
    s: GooseFsFileInStream,
    offset: int,
    op0: ReadAtOp,
    data: bytes::Bytes,
    op1: ReadAtOp,
)
    requires
        has_read(content, offset, op0),
        part_comes(op0, s, data, op1),
        held(data) == content.subrange(op0.cur as int, op0.cur + op0.part_length(s)),
    ensures
        has_read(content, offset, op1),
        op1.cur == op1.end ==> joined_buffers(op1.parts@) == content.subrange(
            offset,
            op1.end as int,
        ),
{
    assert(held(op1.parts@.last()) =~= content.subrange(op0.cur as int, op1.cur as int));
    assert(content.subrange(offset, op0.cur as int) + content.subrange(
        op0.cur as int,
        op1.cur as int,
    ) =~= content.subrange(offset, op1.cur as int));
}

/// A moment of a seek: what it asks for, the stream then, and the item that comes.
pub struct SeekMoment {
    /// The seek.
    pub op: SeekOp,
    /// The stream.
    pub s: GooseFsFileInStream,
    /// What is asked for.
    pub asked: SeekAction,
    /// The item that comes.
    pub item: StreamItem,
}

/// The bytes of an item that is skipped are those that follow in its block.
pub open spec fn skipped_from_the_file(content: Seq<u8>, m: SeekMoment) -> bool {
    m.item matches StreamItem::Data(frame) ==> (m.s.block_in_stream matches Some(reader)
        && stands_at(
        content,
        block_index_at(m.s.pos as int, m.s.status.block_size_bytes as int)
            * m.s.status.block_size_bytes + reader.offset + reader.bytes_received,
        in_range(reader, payload(frame)),
    ))
}

/// The seek goes on from one moment to the next.
pub open spec fn seek_follows(content: Seq<u8>, m0: SeekMoment, m1: SeekMoment) -> bool {
    &&& item_skipped(m0.op, m0.s, m0.item, m1.op, m1.s, m1.asked)
    &&& skipped_from_the_file(content, m0)
}

/// The moments of a seek to `target` in a file with the given content.
pub open spec fn seek_run(
    content: Seq<u8>,
    s: GooseFsFileInStream,
    target: int,
    run: Seq<SeekMoment>,
) -> bool {
    &&& run.len() > 0
    &&& seek_starts(s, target, run[0].s, run[0].op, run[0].asked)
    &&& forall|i: int|
        0 <= i < run.len() ==> (#[trigger] run[i]).s.wf() && run[i].op.wf(run[i].s)
    &&& forall|i: int|
        0 < i < run.len() ==> seek_follows(content, run[i - 1], #[trigger] run[i])
}

/// What a seek has come to: the stream is at the target, or, if the seek failed, where
/// it was, and holds the bytes that follow there.
pub open spec fn seeks_in_the_file(
    content: Seq<u8>,
    origin: int,
    target: int,
    m: SeekMoment,
) -> bool {
    &&& faithful(m.s, content)
    &&& match m.asked {
        SeekAction::Done { ack: _, result: Ok(pos) } => pos == target && m.s.pos == target,
        SeekAction::Done { ack: _, result: Err(_) } => m.s.pos == origin,
        SeekAction::Item { ack: _ } => m.op.phase matches SeekPhase::Skip {
            origin: from,
            target: to,
        } && from == origin && to == target,
    }
}

proof fn lemma_moved_on(
    content: Seq<u8>,
    s0: GooseFsFileInStream,
    there: Seq<u8>,
    s1: GooseFsFileInStream,
    n: int,
)
    requires
        content.len() == s0.file_end(),
        stands_at(content, s0.pos as int, there),
        0 <= n <= there.len(),
        held(s1.carry_over) == there.skip(n),
        s1.pos == s0.pos + n,
        s1.file_length == s0.file_length,
    ensures
        faithful(s1, content),
{
    assert(held(s1.carry_over) =~= content.subrange(
        s1.pos as int,
        s1.pos + held(s1.carry_over).len(),
    ));
}

proof fn lemma_seek_starts(
    content: Seq<u8>,
    s: GooseFsFileInStream,
    target: int,
    m: SeekMoment,
)
    requires
        s.wf(),
        faithful(s, content),
        0 <= target <= s.file_length,
        seek_starts(s, target, m.s, m.op, m.asked),
    ensures
        seeks_in_the_file(content, s.pos as int, target, m),
{
    assert(forall|none: Seq<u8>| #[trigger]
        none.len() == 0 ==> none =~= content.subrange(m.s.pos as int, m.s.pos as int));
    let carried = held(s.carry_over);
    if m.s.pos >= s.pos && m.s.pos - s.pos <= carried.len() && held(m.s.carry_over) == carried.skip(
        m.s.pos - s.pos,
    ) {
        lemma_moved_on(content, s, carried, m.s, m.s.pos - s.pos);
    }
}

proof fn lemma_seek_goes_on(
    content: Seq<u8>,
    origin: int,
    target: int,
    m0: SeekMoment,
    m1: SeekMoment,
)
    requires
        m0.s.wf(),
        m0.op.wf(m0.s),
        0 <= origin,
        0 <= target <= m0.s.file_length,
        m0.asked is Item,
        seeks_in_the_file(content, origin, target, m0),
        seek_follows(content, m0, m1),
    ensures
        seeks_in_the_file(content, origin, target, m1),
        m1.s.file_length == m0.s.file_length,
{
    match m0.item {
        StreamItem::Data(frame) => {
            if payload(frame).len() > 0 {
                let reader = m0.s.block_in_stream->0;
                law_stream_is_aligned(m0.s, reader);
                lemma_moved_on(
                    content,
                    m0.s,
                    in_range(reader, payload(frame)),
                    m1.s,
                    m1.s.pos - m0.s.pos,
                );
            }
        },
        _ => {
            assert(forall|none: Seq<u8>| #[trigger]
                none.len() == 0 ==> none =~= content.subrange(m1.s.pos as int, m1.s.pos as int));
        },
    }
}

proof fn lemma_earlier_seek_run(
    content: Seq<u8>,
    s: GooseFsFileInStream,
    target: int,
    run: Seq<SeekMoment>,
)
    requires
        seek_run(content, s, target, run),
        run.len() > 1,
    ensures
        seek_run(content, s, target, run.drop_last()),
        seek_follows(content, run.drop_last().last(), run.last()),
{
    let earlier = run.drop_last();
    assert(seek_follows(content, run[run.len() - 2], run[run.len() - 1]));
    assert forall|i: int| 0 < i < earlier.len() implies seek_follows(
        content,
        earlier[i - 1],
        #[trigger] earlier[i],
    ) by {
        assert(seek_follows(content, run[i - 1], run[i]));
    }
}

proof fn lemma_seek_run(
    content: Seq<u8>,
    s: GooseFsFileInStream,
    target: int,
    run: Seq<SeekMoment>,
)
    requires
        s.wf(),
        faithful(s, content),
        0 <= target <= s.file_length,
        seek_run(content, s, target, run),
        forall|i: int| 0 <= i < run.len() - 1 ==> (#[trigger] run[i]).asked is Item,
    ensures
        seeks_in_the_file(content, s.pos as int, target, run.last()),
        run.last().s.file_length == s.file_length,
    decreases run.len(),
{
    if run.len() == 1 {
        lemma_seek_starts(content, s, target, run[0]);
    } else {
        let earlier = run.drop_last();
        lemma_earlier_seek_run(content, s, target, run);
        lemma_seek_run(content, s, target, earlier);
        lemma_seek_goes_on(content, s.pos as int, target, earlier.last(), run.last());
    }
}

/// A seek that succeeds leaves the stream at its target, brought between the start and
/// the end of the file, and one that fails leaves it where it was. Either way the next
/// read gives the bytes that follow there.
pub proof fn law_seek_leads_to_its_target(
    content: Seq<u8>,
    s: GooseFsFileInStream,
    wanted: int,
    run: Seq<SeekMoment>,
)
    requires
        s.wf(),
        faithful(s, content),
        0 <= s.file_length,
        seek_run(content, s, clamped(wanted, s.file_length as int), run),
        forall|i: int| 0 <= i < run.len() - 1 ==> (#[trigger] run[i]).asked is Item,
    ensures
        seeks_in_the_file(
            content,
            s.pos as int,
            clamped(wanted, s.file_length as int),
            run.last(),
        ),
        0 <= wanted <= s.file_length ==> clamped(wanted, s.file_length as int) == wanted,
{
    lemma_seek_run(content, s, clamped(wanted, s.file_length as int), run);
}

} // verus!
