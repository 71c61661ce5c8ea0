//! What becomes of the bytes of a block and of its replicas.
//!
//! `call_ensures(f, args, r)` says that `r` is a result of the call of `f` with `args`.

use vstd::prelude::*;

use crate::buffer::{concat, held};
use crate::error::{Error, Result};
use crate::io::active_block::{close_outcome, ActiveBlockWriter, Fanout, ReplicaWriter, SendMode};
use crate::io::async_reader::{
    bytes_to_copy, reported_position, GoosefsAsyncReader, PollRead, PollSeek, State,
};
use crate::io::chunking::{
    append_range, chunk_views, full_chunks, joined_chunks, next_chunk, owned_chunk,
    take_full_chunks,
};
use crate::io::crc32::{crc32, crc32_append};
use crate::io::crc32c::{crc32c, crc32c_append};
use crate::io::replica_opening::{worker_address, ReplicaOpening};
use crate::io::replica_write::ReplicaWritePlan;
use crate::io::writer::{FlushReply, GrpcBlockWriter};
use crate::proto::{WorkerInfo, WorkerNetAddress};

verus! {

/// Cutting a stream into chunks keeps every byte in its place: the chunks, all of one
/// length, and the shorter rest are what was pending and what came in.
pub proof fn law_chunks_and_rest_are_the_stream(
    pending: &mut Vec<u8>,
    incoming: &[u8],
    size: usize,
    r: Vec<Vec<u8>>,
)
    requires
        call_ensures(take_full_chunks, (pending, incoming, size), r),
        size > 0,
    ensures
        joined_chunks(chunk_views(r@)) + final(pending)@ == old(pending)@ + incoming@,
        forall|i: int| 0 <= i < r@.len() ==> (#[trigger] r@[i])@.len() == size,
        final(pending)@.len() < size,
{
    let stream = old(pending)@ + incoming@;
    crate::io::chunking::law_chunks_keep_the_stream(stream, size as nat);
    let v = chunk_views(r@);
    assert(v.len() == r@.len());
    assert forall|i: int| 0 <= i < r@.len() implies (#[trigger] r@[i])@.len() == size by {
        assert(v[i] == r@[i]@);
        assert(full_chunks(stream, size as nat)[i].len() == size);
    }
}

/// The next chunk is the first bytes of what is pending and coming in; if these are too
/// few they are all kept for later.
pub proof fn law_next_chunk_comes_first(
    pending: &mut Vec<u8>,
    incoming: &[u8],
    from: usize,
    size: usize,
    r: (Option<Vec<u8>>, usize),
)
    requires
        call_ensures(next_chunk, (pending, incoming, from, size), r),
        from <= incoming@.len() <= usize::MAX,
        old(pending)@.len() < size,
    ensures
        r.0 matches Some(c) ==> c@.len() == size && c@ + incoming@.skip(r.1 as int) == old(pending)@
            + incoming@.skip(from as int),
        r.0 is None ==> final(pending)@ == old(pending)@ + incoming@.skip(from as int)
            && final(pending)@.len() < size,
        (r.0 is Some) == (old(pending)@.len() + incoming@.len() - from >= size),
{
    let stream = old(pending)@ + incoming@.skip(from as int);
    if r.0 is Some {
        assert(stream.take(size as int) + stream.skip(size as int) =~= stream);
    }
}

/// A range of bytes is appended, or taken, as it stands in the data.
pub proof fn law_ranges_are_copied(
    out: &mut Vec<u8>,
    data: &[u8],
    from: usize,
    end: usize,
    r: Vec<u8>,
    i: int,
)
    requires
        call_ensures(append_range, (out, data, from, end), ()),
        call_ensures(owned_chunk, (data, from, end), r),
        from <= end <= data@.len(),
        0 <= i < end - from,
    ensures
        final(out)@.len() == old(out)@.len() + (end - from),
        final(out)@.take(old(out)@.len() as int) == old(out)@,
        final(out)@[old(out)@.len() + i] == data@[from + i],
        r@.len() == end - from,
        r@[i] == data@[from + i],
{
    assert(final(out)@.take(old(out)@.len() as int) =~= old(out)@);
}

/// The pieces of the data follow each other without a gap: a piece is a whole chunk, or
/// all that is left.
pub proof fn law_piece_is_next_in_the_data(
    data: &[u8],
    offset: usize,
    size: usize,
    r: Option<bytes::Bytes>,
)
    requires
        call_ensures(GrpcBlockWriter::next_piece, (data, offset, size), r),
        size > 0,
        offset <= data@.len(),
    ensures
        (r is None) == (offset == data@.len()),
        r matches Some(p) ==> held(p) + data@.skip(offset + held(p).len()) == data@.skip(
            offset as int,
        ) && (held(p).len() == size || offset + held(p).len() == data@.len()) && 0 < held(p).len()
            <= size,
{
    if let Some(p) = r {
        let n = held(p).len();
        assert(held(p) + data@.skip(offset + n) =~= data@.skip(offset as int));
    }
}

/// A block writer counts what was sent, and only that; a chunk that cannot be sent is an
/// error.
pub proof fn law_block_writer_counts_what_is_sent(
    w: &mut GrpcBlockWriter,
    len: usize,
    sent: bool,
    r: Result<()>,
    before: i64,
    after: i64,
)
    requires
        call_ensures(GrpcBlockWriter::write_chunk, (w, len, sent), r),
        call_ensures(GrpcBlockWriter::bytes_written, (old(w),), before),
        call_ensures(GrpcBlockWriter::bytes_written, (final(w),), after),
        0 <= before,
        before + len <= i64::MAX,
    ensures
        (r is Ok) == sent,
        sent ==> after == before + len,
        !sent ==> after == before && (r matches Err(e) && e is BlockIoError),
        final(w).block_id == old(w).block_id,
{
}

/// A new block writer belongs to its block and has written nothing; a flush tells the
/// offset that was acknowledged, or what was written if none was told, and fails if
/// nothing was acknowledged.
pub proof fn law_flush_tells_what_is_acknowledged(
    id: i64,
    fresh: GrpcBlockWriter,
    w: GrpcBlockWriter,
    reply: FlushReply,
    r: Result<i64>,
    told: i64,
    own: i64,
)
    requires
        call_ensures(GrpcBlockWriter::open, (id,), fresh),
        call_ensures(GrpcBlockWriter::block_id, (&fresh,), own),
        call_ensures(GrpcBlockWriter::bytes_written, (&w,), told),
        call_ensures(GrpcBlockWriter::flush, (&w, reply), r),
    ensures
        own == id,
        fresh.bytes_written == 0,
        reply matches FlushReply::Acknowledged(Some(n)) ==> r == Ok::<i64, Error>(n),
        reply matches FlushReply::Acknowledged(None) ==> r == Ok::<i64, Error>(told),
        reply matches FlushReply::Failed(e) ==> r == Err::<i64, Error>(e),
        reply is ChannelClosed || reply is Ended ==> (r matches Err(e) && e is BlockIoError),
{
}

/// Buffers are put together in their order.
pub proof fn law_buffers_are_put_together_in_order(
    parts: Vec<bytes::Bytes>,
    more: Vec<bytes::Bytes>,
    last: bytes::Bytes,
    r: bytes::Bytes,
    s: bytes::Bytes,
)
    requires
        call_ensures(concat, (&parts,), r),
        call_ensures(concat, (&more,), s),
        more@ == parts@.push(last),
    ensures
        held(s) == held(r) + held(last),
        parts@.len() == 0 ==> held(r).len() == 0,
{
    assert(more@.drop_last() =~= parts@);
    assert(more@.last() == last);
}

/// Checking the data in two parts gives the check value of the whole, and nothing
/// changes no check value.
pub proof fn law_check_values_continue(
    a: &[u8],
    b: &[u8],
    ab: &[u8],
    none: &[u8],
    x: u32,
    y: u32,
    whole: u32,
    xc: u32,
    yc: u32,
    whole_c: u32,
    zero: u32,
    zero_c: u32,
)
    requires
        ab@ == a@ + b@,
        none@.len() == 0,
        call_ensures(crc32, (a,), x),
        call_ensures(crc32_append, (x, b), y),
        call_ensures(crc32, (ab,), whole),
        call_ensures(crc32, (none,), zero),
        call_ensures(crc32c, (a,), xc),
        call_ensures(crc32c_append, (xc, b), yc),
        call_ensures(crc32c, (ab,), whole_c),
        call_ensures(crc32c, (none,), zero_c),
    ensures
        y == whole,
        yc == whole_c,
        zero == 0,
        zero_c == 0,
{
    crate::io::crc32::law_crc32_append(a@, b@);
    crate::io::crc32c::law_crc32c_append(a@, b@);
    assert(none@ =~= Seq::<u8>::empty());
    assert(!(!0u32) == 0) by (bit_vector);
}

/// The replicas of a block are sent to one after the other, and all lose the block as
/// soon as one of them fails: those that were sent to are handed back to be cancelled.
pub proof fn law_one_failed_replica_ends_the_block(
    block: &mut ActiveBlockWriter,
    failure: Option<(usize, Error)>,
    r: (Vec<ReplicaWriter>, Result<()>),
)
    requires
        call_ensures(ActiveBlockWriter::settle_sequential, (block, failure), r),
        failure matches Some(f) ==> f.0 < old(block).replicas@.len(),
    ensures
        failure is None ==> r.1 is Ok && r.0@.len() == 0 && final(block).replicas
            == old(block).replicas,
        failure matches Some((i, e)) ==> r.1 == Err::<(), Error>(e) && final(block).replicas@.len() == 0 && r.0@.len() == i + 1,
        failure matches Some((i, e)) ==> forall|k: int|
            0 <= k <= i ==> #[trigger] r.0@[k] == old(block).replicas@[k],
        final(block).bytes_written == old(block).bytes_written && final(block).block_id == old(block).block_id && final(block).pending_chunk == old(block).pending_chunk,
{
}

/// A chunk is sent to all replicas at once only if there are as many as are needed, and
/// then to every one of them.
pub proof fn law_parallel_send_takes_every_replica(
    block: &mut ActiveBlockWriter,
    r: Result<(Fanout, Vec<ReplicaWriter>)>,
)
    requires
        call_ensures(ActiveBlockWriter::begin_parallel, (block,), r),
    ensures
        (r is Ok) == (old(block).replicas@.len() >= old(block).min_needed),
        r matches Ok((f, taken)) ==> taken == old(block).replicas && final(block).replicas@.len() == 0 && f.writer_size == taken@.len() && f.min_needed == old(block).min_needed && f.kept@.len() == 0 && f.failures == 0 && f.block_id == old(block).block_id,
        r matches Err(e) ==> e is ResourceExhausted && final(block).replicas == old(block).replicas,
{
}

/// The block goes on with the replicas that took the chunk, if these are as many as are
/// needed; else it has none left, and they are handed back to be cancelled.
pub proof fn law_enough_replicas_carry_on(
    block: &mut ActiveBlockWriter,
    fanout: Fanout,
    r: (Vec<ReplicaWriter>, Result<()>),
)
    requires
        call_ensures(ActiveBlockWriter::settle_parallel, (block, fanout), r),
    ensures
        (r.1 is Ok) == (fanout.kept@.len() >= fanout.min_needed),
        r.1 is Ok ==> final(block).replicas == fanout.kept && r.0@.len() == 0,
        r.1 matches Err(e) ==> e is ResourceExhausted && final(block).replicas@.len() == 0 && r.0
            == fanout.kept,
        final(block).bytes_written == old(block).bytes_written && final(block).block_id == old(block).block_id && final(block).pending_chunk == old(block).pending_chunk,
{
}

/// A replica that took the chunk is kept with the others, in the order of opening.
pub proof fn law_successful_replicas_are_kept_in_order(f: &mut Fanout, replica: ReplicaWriter)
    requires
        call_ensures(Fanout::succeeded, (f, replica), ()),
    ensures
        final(f).kept@.len() == old(f).kept@.len() + 1,
        final(f).kept@.contains(replica),
        forall|x: ReplicaWriter| #[trigger] old(f).kept@.contains(x) ==> final(f).kept@.contains(x),
        forall|i: int, j: int|
            0 <= i < j < final(f).kept@.len() ==> (#[trigger] final(f).kept@[i]).ordinal <= (
            #[trigger] final(f).kept@[j]).ordinal,
        final(f).failures == old(f).failures && final(f).min_needed == old(f).min_needed && final(f).writer_size == old(f).writer_size,
{
    broadcast use vstd::seq_lib::group_to_multiset_ensures;

    let new = final(f).kept@;
    assert(new.to_multiset().count(replica) > 0);
    assert(new.contains(replica));
    assert forall|x: ReplicaWriter| #[trigger] old(f).kept@.contains(x) implies new.contains(x) by {
        assert(old(f).kept@.to_multiset().count(x) > 0);
        assert(new.to_multiset().count(x) > 0);
    }
}

/// A failed replica is counted, and the others are given up exactly if the rest can no
/// longer be as many as are needed.
pub proof fn law_failed_replicas_are_counted(f: &mut Fanout, r: bool)
    requires
        call_ensures(Fanout::failed, (f,), r),
    ensures
        final(f).failures == old(f).failures + 1,
        final(f).kept == old(f).kept,
        r == (final(f).writer_size - final(f).failures < final(f).min_needed),
{
}

/// Closing the replicas succeeds if all of them were closed, and fails with the first
/// failure otherwise.
pub proof fn law_first_failure_to_close_is_told(outcomes: Vec<Result<()>>, r: Result<()>, i: int)
    requires
        call_ensures(close_outcome, (outcomes,), r),
    ensures
        (forall|k: int| 0 <= k < outcomes@.len() ==> (#[trigger] outcomes@[k]) is Ok) ==> r is Ok,
        0 <= i < outcomes@.len() && outcomes@[i] is Err && (forall|k: int|
            0 <= k < i ==> (#[trigger] outcomes@[k]) is Ok) ==> r == outcomes@[i],
{
    lemma_first_error(outcomes@, i);
}

proof fn lemma_first_error(s: Seq<Result<()>>, i: int)
    ensures
        (forall|k: int| 0 <= k < s.len() ==> (#[trigger] s[k]) is Ok)
            ==> crate::io::active_block::first_error(s) is Ok,
        0 <= i < s.len() && s[i] is Err && (forall|k: int|
            0 <= k < i ==> (#[trigger] s[k]) is Ok) ==> crate::io::active_block::first_error(s)
            == s[i],
    decreases s.len(),
{
    if s.len() > 0 {
        let t = s.drop_first();
        lemma_first_error(t, i - 1);
        assert(forall|k: int| 0 <= k < t.len() ==> (#[trigger] t[k]) == s[k + 1]);
    }
}

/// A flush goes to the replicas as a chunk does, and nowhere if there are none.
pub proof fn law_flush_goes_to_the_replicas(block: ActiveBlockWriter, r: Option<SendMode>)
    requires
        call_ensures(ActiveBlockWriter::flush_mode, (&block,), r),
    ensures
        (r is None) == (block.replicas@.len() == 0),
        r == Some(SendMode::Parallel) <==> block.parallel && block.replicas@.len() > 1,
{
}

/// Workers are tried in their order until as many replicas are open as are wanted; each
/// one is tried once.
pub proof fn law_workers_are_tried_in_order(
    o: &mut ReplicaOpening,
    p: &mut ReplicaOpening,
    ordinal: usize,
    e: Error,
)
    requires
        call_ensures(ReplicaOpening::worker_opened, (o,), ordinal),
        call_ensures(ReplicaOpening::worker_failed, (p, e), ()),
        old(o).next < usize::MAX && old(o).opened < usize::MAX && old(p).next < usize::MAX,
    ensures
        ordinal == old(o).opened,
        final(o).opened == old(o).opened + 1 && final(o).next == old(o).next + 1,
        final(o).last_error == old(o).last_error && final(o).min_needed == old(o).min_needed,
        final(p).opened == old(p).opened && final(p).next == old(p).next + 1,
        final(p).last_error == Some(e),
{
}

/// An opening starts with the first of the workers, and only if there is one.
pub proof fn law_opening_starts_with_the_first(
    through: bool,
    id: i64,
    plan: ReplicaWritePlan,
    n: usize,
    r: Result<ReplicaOpening>,
)
    requires
        call_ensures(ReplicaOpening::start, (through, id, &plan, n), r),
        plan.initial_replicas > 0,
    ensures
        (r is Ok) == (n > 0),
        r matches Ok(o) ==> o.next == 0 && o.opened == 0 && o.block_id == id && o.pool_len == n
            && 0 < o.initial <= n && o.last_error is None,
        r matches Err(e) ==> e is NoWorkerAvailable,
{
}

/// A worker is reached at the address that it has.
pub proof fn law_worker_is_reached_at_its_address(worker: WorkerInfo, r: Result<WorkerNetAddress>)
    requires
        call_ensures(worker_address, (&worker,), r),
    ensures
        (r is Ok) == (worker.address is Some),
        r matches Ok(a) ==> worker.address == Some(a),
{
}

/// An idle reader lends out its stream for a read or a seek, and refuses both until the
/// stream has come back.
pub proof fn law_stream_is_lent_to_one_at_a_time<S>(
    stream: S,
    idle: GoosefsAsyncReader<S>,
    reading: &mut GoosefsAsyncReader<S>,
    seeking: &mut GoosefsAsyncReader<S>,
    room: usize,
    r: PollRead<S>,
    s: std::result::Result<S, &'static str>,
)
    requires
        call_ensures(GoosefsAsyncReader::<S>::new, (stream,), idle),
        *old(reading) == idle,
        *old(seeking) == idle,
        call_ensures(GoosefsAsyncReader::<S>::poll_read, (reading, room), r),
        call_ensures(GoosefsAsyncReader::<S>::start_seek, (seeking,), s),
    ensures
        room > 0 ==> r == (PollRead::Start { stream, cap: room }) && final(reading).state
            is Reading,
        room == 0 ==> r is Nothing && *final(reading) == idle,
        s == Ok::<S, &'static str>(stream) && final(seeking).state is Seeking,
{
}

/// While a read or a seek is under way, the other is refused, and the stream cannot be
/// taken out; when it has come back, it can.
pub proof fn law_busy_reader_refuses<S>(
    a: &mut GoosefsAsyncReader<S>,
    b: &mut GoosefsAsyncReader<S>,
    c: &mut GoosefsAsyncReader<S>,
    room: usize,
    stream: S,
    ra: PollRead<S>,
    rb: std::result::Result<S, &'static str>,
    polled: PollSeek,
    out: std::result::Result<S, GoosefsAsyncReader<S>>,
    back: std::result::Result<S, GoosefsAsyncReader<S>>,
)
    requires
        call_ensures(GoosefsAsyncReader::<S>::poll_read, (a, room), ra),
        call_ensures(GoosefsAsyncReader::<S>::start_seek, (b,), rb),
        call_ensures(GoosefsAsyncReader::<S>::poll_complete, (old(a),), polled),
        call_ensures(GoosefsAsyncReader::<S>::into_inner, (*old(a),), out),
        call_ensures(GoosefsAsyncReader::<S>::finished, (c, stream), ()),
        call_ensures(GoosefsAsyncReader::<S>::into_inner, (*final(c),), back),
    ensures
        old(a).state is Seeking ==> ra is Refuse && polled is Poll,
        old(a).state is Reading ==> ra is Poll && polled is Refuse,
        old(a).state is Idle ==> polled is Position && out is Ok,
        old(b).state is Reading || old(b).state is Seeking ==> rb is Err && *final(b) == *old(b),
        !(old(a).state is Idle) ==> out == Err::<S, GoosefsAsyncReader<S>>(*old(a)),
        back == Ok::<S, GoosefsAsyncReader<S>>(stream),
{
}

/// No more is copied than was read and than there is room for, and no less than the
/// smaller of both; a position is told as it is.
pub proof fn law_as_much_is_copied_as_fits(read: usize, room: usize, r: usize, pos: i64, p: u64)
    requires
        call_ensures(bytes_to_copy, (read, room), r),
        call_ensures(reported_position, (pos,), p),
    ensures
        r <= read && r <= room,
        r == read || r == room,
        pos >= 0 ==> p == pos,
        pos < 0 ==> p == 0,
{
}

/// Sending to all replicas begins with as many as are needed, and ends well with as many.
pub proof fn law_fanout_needs_enough_replicas(
    n: usize,
    needed: usize,
    id: i64,
    begun: Result<Fanout>,
    f: Fanout,
    ended: (Vec<ReplicaWriter>, Result<()>),
)
    requires
        call_ensures(Fanout::start, (n, needed, id), begun),
        call_ensures(Fanout::finish, (f,), ended),
    ensures
        (begun is Ok) == (n >= needed),
        begun matches Ok(g) ==> g.writer_size == n && g.min_needed == needed && g.block_id == id
            && g.kept@.len() == 0 && g.failures == 0,
        begun matches Err(e) ==> e is ResourceExhausted,
        ended.0 == f.kept,
        (ended.1 is Ok) == (f.kept@.len() >= f.min_needed),
        ended.1 matches Err(e) ==> e is ResourceExhausted,
{
}

/// There is a next worker exactly while replicas are wanted and workers are untried, and
/// it is the first of these.
pub proof fn law_next_worker_is_the_first_untried(o: ReplicaOpening, next: Option<usize>)
    requires
        call_ensures(ReplicaOpening::next_worker, (&o,), next),
    ensures
        (next is Some) == (o.opened < o.initial && o.next < o.pool_len),
        next matches Some(i) ==> i == o.next,
{
}

} // verus!
