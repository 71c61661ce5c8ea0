//! What the operations of a read promise: laws on their arguments and results.
//!
//! `call_ensures(f, args, r)` says that `r` is a result of the call of `f` with `args`.

use vstd::prelude::*;

use crate::buffer::{held, held_mut, joined_buffers};
use crate::config::settings::GoosefsConfig;
use crate::error::{Error, Result};
use crate::fs::options::OpenFileOptions;
use crate::fs::uri_status::URIStatus;
use crate::io::connect::{worker_endpoint, ConnectAction, ConnectOp, ConnectPhase};
use crate::io::file_in_stream::{
    check_readable, lemma_block_arithmetic, GooseFsFileInStream, ReadToEnd, SeekFrom,
};
use crate::io::file_reader::{
    first_readable, law_no_readable_part_is_left_out, resolved_id, BlockAction, BlockPhase,
    BlockReadOp, BlockReadPlan, GoosefsFileReader,
};
use crate::io::reader::{
    check_positioned_read_complete, should_send_ack, BlockRead, GrpcBlockReader, ReadAllStep, ReadStep, ReadTuning,
    StreamItem,
};
use crate::io::stream_read::{ReadAction, ReadOp};
use crate::io::stream_seek::ReadAtOp;
use crate::proto::{
    FileBlockInfo, FileInfo, OpenUfsBlockOptions, ReadResponse, WorkerInfo, WorkerNetAddress,
};
use crate::text::decimal_int;

verus! {

/// A product that fits is not wrapped.
pub proof fn lemma_product_fits(a: int, b: int)
    requires
        0 <= a,
        0 < b,
        a * b <= i64::MAX,
    ensures
        a <= i64::MAX,
        a <= a * b,
        b <= i64::MAX || a == 0,
        b <= i64::MAX ==> i64::wrapping_mul(a as i64, b as i64) == a * b,
        a == 0 ==> i64::wrapping_mul(a as i64, b as i64) == 0,
{
    assert(a <= a * b) by (nonlinear_arith)
        requires
            0 <= a,
            0 < b,
    ;
    assert(a > 0 ==> b <= a * b) by (nonlinear_arith)
        requires
            0 <= a,
            0 < b,
    ;
    assert(0int * (b as i64) == 0) by (nonlinear_arith);
}

/// A worker finds a block in the storage behind the bytes of the blocks before it, and
/// reads it up to the next block or the end of the file.
pub proof fn law_block_is_read_from_its_place(
    s: GoosefsFileReader,
    plan: BlockReadPlan,
    size: i64,
    r: Option<OpenUfsBlockOptions>,
)
    requires
        call_ensures(GoosefsFileReader::build_ufs_read_options, (&s, &plan), r),
        size > 0,
        s.file_info.block_size_bytes == Some(size) || (s.file_info.block_size_bytes is None
            && size == 67108864),
    ensures
        r is Some <==> s.file_info.ufs_path is Some && s.file_info.ufs_path->0@.len() > 0,
        r matches Some(o) ==> o.ufs_path matches Some(p) && p@ == s.file_info.ufs_path->0@,
        r matches Some(o) ==> plan.block_index * size <= i64::MAX ==> o.offset_in_file == Some(
            (plan.block_index * size) as i64,
        ),
        r matches Some(o) ==> s.file_info.length matches Some(n) ==> {
            &&& (plan.block_index + 1) * size <= n ==> o.block_size == Some(size)
            &&& plan.block_index * size < n < (plan.block_index + 1) * size ==> o.block_size
                == Some((n - plan.block_index * size) as i64)
            &&& n <= plan.block_index * size ==> o.block_size == Some(0i64)
        },
        r matches Some(o) ==> o.mount_id == s.file_info.mount_id,
        r matches Some(o) ==> o.no_cache == Some(s.file_info.cacheable == Some(false)),
        r matches Some(o) ==> o.user is None && o.max_ufs_read_concurrency is None,
{
    assert((plan.block_index + 1) * size == plan.block_index * size + size) by (nonlinear_arith);
    assert(plan.block_index * size >= 0) by (nonlinear_arith)
        requires
            size > 0,
            plan.block_index >= 0,
    ;
    if plan.block_index * size <= i64::MAX {
        lemma_product_fits(plan.block_index as int, size as int);
    }
}

/// Blocks that follow on one another tile the file in the storage: where a full block
/// ends the next one starts.
pub proof fn law_blocks_tile_the_stored_file(
    s: GoosefsFileReader,
    plan: BlockReadPlan,
    next: BlockReadPlan,
    size: i64,
    a: OpenUfsBlockOptions,
    b: OpenUfsBlockOptions,
)
    requires
        call_ensures(GoosefsFileReader::build_ufs_read_options, (&s, &plan), Some(a)),
        call_ensures(GoosefsFileReader::build_ufs_read_options, (&s, &next), Some(b)),
        s.file_info.block_size_bytes == Some(size),
        size > 0,
        next.block_index == plan.block_index + 1,
        s.file_info.length is Some,
        next.block_index * size <= s.file_info.length->0,
    ensures
        a.offset_in_file is Some && a.block_size is Some && b.offset_in_file is Some,
        b.offset_in_file->0 == a.offset_in_file->0 + a.block_size->0,
        plan.block_index == 0 ==> a.offset_in_file == Some(0i64),
{
    law_block_is_read_from_its_place(s, plan, size, Some(a));
    law_block_is_read_from_its_place(s, next, size, Some(b));
    assert(next.block_index * size == plan.block_index * size + size) by (nonlinear_arith)
        requires
            next.block_index == plan.block_index + 1,
    ;
    assert(plan.block_index * size >= 0) by (nonlinear_arith)
        requires
            size > 0,
            plan.block_index >= 0,
    ;
    assert(0 * size == 0);
}

/// A stream finds a block in the storage behind the bytes of the blocks before it, and
/// reads it up to the next block or the end of the file.
pub proof fn law_stream_reads_a_block_from_its_place(
    s: GooseFsFileInStream,
    place: usize,
    r: Option<OpenUfsBlockOptions>,
)
    requires
        call_ensures(GooseFsFileInStream::build_ufs_opts, (&s, place), r),
        s.status.block_size_bytes > 0,
        s.status.length >= 0,
    ensures
        r is Some <==> s.status.ufs_path@.len() > 0,
        r matches Some(o) ==> o.ufs_path matches Some(p) && p@ == s.status.ufs_path@,
        r matches Some(o) ==> place * s.status.block_size_bytes <= i64::MAX ==> o.offset_in_file
            == Some((place * s.status.block_size_bytes) as i64),
        r matches Some(o) ==> (place + 1) * s.status.block_size_bytes <= s.status.length
            ==> o.block_size == Some(s.status.block_size_bytes),
        r matches Some(o) ==> place * s.status.block_size_bytes < s.status.length && s.status.length
            < (place + 1) * s.status.block_size_bytes ==> o.block_size == Some(
            (s.status.length - place * s.status.block_size_bytes) as i64,
        ),
        r matches Some(o) ==> o.mount_id == Some(s.status.mount_id) && o.no_cache == Some(
            !s.status.cacheable,
        ) && o.max_ufs_read_concurrency == Some(s.options.max_ufs_read_concurrency) && o.user
            is None,
{
    let size = s.status.block_size_bytes;
    assert((place + 1) * size == place * size + size) by (nonlinear_arith);
    assert(place * size >= 0) by (nonlinear_arith)
        requires
            size > 0,
            place >= 0,
    ;
    if place * size <= i64::MAX {
        lemma_product_fits(place as int, size as int);
    }
}

/// The identifier that is read: the one that the master reported for the place of the
/// block, if it is a usable one, and else the one of the plan.
pub proof fn law_reported_block_is_read(s: GoosefsFileReader, plan: BlockReadPlan, r: i64)
    requires
        call_ensures(GoosefsFileReader::resolve_block_id, (&s, &plan), r),
    ensures
        plan.block_index >= s.file_info.file_block_infos@.len() ==> r == plan.block_id,
        plan.block_index < s.file_info.file_block_infos@.len() ==> match s.file_info.file_block_infos@[plan.block_index as int].block_info {
            Some(b) => match b.block_id {
                Some(id) => r == (if id > 0 {
                    id
                } else {
                    plan.block_id
                }),
                None => r == plan.block_id,
            },
            None => r == plan.block_id,
        },
{
}

/// The next part whose block can be read is read, and no such part is passed over; when
/// none is left, the read has ended.
pub proof fn law_next_part_is_read(
    s: &mut GoosefsFileReader,
    r: (BlockReadOp, BlockAction),
    i: int,
)
    requires
        call_ensures(BlockReadOp::start, (s,), r),
        old(s).wf(),
    ensures
        final(s).plans == old(s).plans,
        final(s).file_info == old(s).file_info,
        final(s).total_bytes_read == old(s).total_bytes_read,
        old(s).current_plan_index <= final(s).current_plan_index,
        old(s).current_plan_index <= i < final(s).current_plan_index && i < old(s).plans@.len()
            ==> resolved_id(old(s).file_info, old(s).plans@[i]) <= 0,
        final(s).current_plan_index < old(s).plans@.len() ==> r.1 is Select && r.0.block_id
            == resolved_id(
            old(s).file_info,
            old(s).plans@[final(s).current_plan_index as int],
        ) && r.0.block_id > 0,
        final(s).current_plan_index >= old(s).plans@.len() ==> r.1 == BlockAction::Done(Ok(None)),
{
    let from = old(s).current_plan_index as int;
    assert(old(s).plans.len() == old(s).plans@.len());
    lemma_first_readable(old(s).file_info, old(s).plans@, from);
    let next = first_readable(old(s).file_info, old(s).plans@, from);
    if from <= i < next && i < old(s).plans@.len() {
        law_no_readable_part_is_left_out(old(s).file_info, old(s).plans@, from, i);
    }
}

proof fn lemma_first_readable(info: FileInfo, plans: Seq<BlockReadPlan>, from: int)
    requires
        0 <= from <= plans.len(),
    ensures
        from <= first_readable(info, plans, from) <= plans.len(),
        first_readable(info, plans, from) < plans.len() ==> resolved_id(
            info,
            plans[first_readable(info, plans, from)],
        ) > 0,
    decreases plans.len() - from,
{
    if from < plans.len() && resolved_id(info, plans[from]) <= 0 {
        lemma_first_readable(info, plans, from + 1);
    }
}

/// Once a worker is connected to, it is asked for the part of the plan, no more and no
/// less, of the block that the worker was selected for.
pub proof fn law_part_of_the_plan_is_asked_for(
    op: BlockReadOp,
    s: GoosefsFileReader,
    r: (BlockReadOp, BlockAction),
)
    requires
        call_ensures(BlockReadOp::connected, (op, &s, Ok(())), r),
        s.current_plan_index < s.plans@.len(),
        s.plans@[s.current_plan_index as int].offset_in_block <= i64::MAX,
        s.plans@[s.current_plan_index as int].length <= i64::MAX,
        s.chunk_size <= i64::MAX,
    ensures
        r.0.block_id == op.block_id,
        r.0.endpoint@ == op.endpoint@,
        r.1 matches BlockAction::Read { block_id, offset, length, chunk_size, .. } && block_id
            == op.block_id && offset == s.plans@[s.current_plan_index as int].offset_in_block
            && length == s.plans@[s.current_plan_index as int].length && chunk_size == s.chunk_size,
        op.phase is Refresh ==> r.0.phase is ReadAgain,
        !(op.phase is Refresh) ==> r.0.phase is Read,
{
}

/// The part is read from the place of its block in the storage.
pub proof fn law_part_is_located_in_the_storage(
    op: BlockReadOp,
    s: GoosefsFileReader,
    r: (BlockReadOp, BlockAction),
    located: Option<OpenUfsBlockOptions>,
)
    requires
        call_ensures(BlockReadOp::connected, (op, &s, Ok(())), r),
        call_ensures(
            GoosefsFileReader::build_ufs_read_options,
            (&s, &s.plans@[s.current_plan_index as int]),
            located,
        ),
        s.current_plan_index < s.plans@.len(),
    ensures
        r.1 matches BlockAction::Read { ufs_options, .. } && ufs_options == located,
{
}

/// A worker that rejects the credentials is connected to anew, at the same endpoint; one
/// that cannot be reached counts as failed, and another one is selected; a second failure
/// is handed on.
pub proof fn law_failed_connection_is_dealt_with(
    op: BlockReadOp,
    s: GoosefsFileReader,
    e: Error,
    r: (BlockReadOp, BlockAction),
)
    requires
        call_ensures(BlockReadOp::connected, (op, &s, Err(e)), r),
    ensures
        op.phase is Connect && e is AuthenticationFailed ==> r.0.block_id == op.block_id
            && r.0.phase is Reconnect && (r.1 matches BlockAction::Reconnect(t) && t@
            == op.endpoint@),
        op.phase matches BlockPhase::Connect(a) ==> !(e is AuthenticationFailed) ==> r.0.block_id
            == op.block_id && r.0.phase == BlockPhase::SelectAgain(e) && r.1
            == BlockAction::FailAndSelect(a),
        op.phase is Reconnect || op.phase is ConnectAgain || op.phase is Refresh ==> r.1
            == BlockAction::Done(Err(e)),
{
}

/// The worker that was selected is connected to at its endpoint; without another worker
/// the first failure is handed on.
pub proof fn law_selected_worker_is_connected_to(
    op: BlockReadOp,
    outcome: Result<WorkerInfo>,
    r: (BlockReadOp, BlockAction),
    endpoint: String,
)
    requires
        call_ensures(BlockReadOp::selected, (op, outcome), r),
        outcome is Ok && outcome->Ok_0.address is Some ==> call_ensures(
            worker_endpoint,
            (&outcome->Ok_0.address->0,),
            endpoint,
        ),
    ensures
        outcome is Ok && outcome->Ok_0.address is Some ==> r.0.block_id == op.block_id
            && r.0.endpoint@ == endpoint@ && (r.1 matches BlockAction::Connect(t) && t@
            == endpoint@),
        outcome is Ok && outcome->Ok_0.address is Some && op.phase is Select ==> r.0.phase
            == BlockPhase::Connect(outcome->Ok_0.address->0),
        outcome is Ok && outcome->Ok_0.address is Some && op.phase is SelectAgain ==> r.0.phase
            is ConnectAgain,
        outcome is Ok && outcome->Ok_0.address is None ==> (r.1 matches BlockAction::Done(Err(e))
            && e is Internal),
        outcome matches Err(e) ==> op.phase is Select ==> r.1 == BlockAction::Done(Err(e)),
        op.phase matches BlockPhase::SelectAgain(first) ==> outcome is Err ==> r.1
            == BlockAction::Done(Err(first)),
{
}

/// The bytes of a part are handed out and counted, and the next part follows; rejected
/// credentials are renewed once, and any other failure is handed on.
pub proof fn law_part_is_handed_out(
    op: BlockReadOp,
    s: &mut GoosefsFileReader,
    outcome: Result<bytes::Bytes>,
    r: (BlockReadOp, BlockAction),
)
    requires
        call_ensures(BlockReadOp::read_done, (op, s, outcome), r),
        old(s).current_plan_index < old(s).plans@.len(),
        op.phase is Read || op.phase is ReadAgain,
    ensures
        outcome matches Ok(data) ==> r.1 == BlockAction::Done(Ok(Some(data)))
            && final(s).current_plan_index == old(s).current_plan_index + 1,
        outcome matches Ok(data) ==> old(s).total_bytes_read + held(data).len() <= u64::MAX
            ==> final(s).total_bytes_read == old(s).total_bytes_read + held(data).len(),
        outcome is Err ==> *final(s) == *old(s),
        outcome matches Err(e) ==> op.phase is Read && e is AuthenticationFailed ==> (r.1 matches
            BlockAction::Refresh(t) && t@ == op.endpoint@) && r.0.block_id == op.block_id
            && r.0.phase is Refresh,
        outcome matches Err(e) ==> op.phase is Read && !(e is AuthenticationFailed) ==> r.1
            == BlockAction::Done(Err(e)),
        outcome matches Err(e) ==> op.phase is ReadAgain ==> r.1 == BlockAction::Done(Err(e)),
{
    assert(old(s).plans.len() == old(s).plans@.len());
}

/// The endpoint of a worker is its host and its port, with a colon between them.
pub proof fn law_endpoint_is_host_and_port(addr: WorkerNetAddress, r: String)
    requires
        call_ensures(worker_endpoint, (&addr,), r),
    ensures
        addr.host matches Some(h) ==> addr.rpc_port matches Some(p) ==> r@ == h@ + seq![':']
            + decimal_int(p as int),
        addr.host is None ==> (addr.rpc_port matches Some(p) ==> r@ == "127.0.0.1"@ + seq![':']
            + decimal_int(p as int)),
        addr.host matches Some(h) ==> addr.rpc_port is None ==> r@ == h@ + seq![':'] + decimal_int(
            9203,
        ),
{
}

/// Connecting for a stream retries once: with another worker, which counts the first as
/// failed, unless that one only rejected the credentials.
pub proof fn law_stream_connects_with_one_retry(
    op: ConnectOp,
    outcome: Result<()>,
    r: (ConnectOp, ConnectAction),
)
    requires
        call_ensures(ConnectOp::connected, (op, outcome), r),
    ensures
        outcome is Ok ==> r.1 is Connected,
        op.phase matches ConnectPhase::Connect(a) ==> outcome matches Err(e) ==> r.0.phase
            is SelectAgain && r.1 == (if e is AuthenticationFailed {
            ConnectAction::SelectAgain
        } else {
            ConnectAction::FailAndSelect(a)
        }),
        op.phase is ConnectAgain ==> (outcome matches Err(e) ==> r.1 == ConnectAction::Fail(e)),
{
}

/// The worker that was selected for a stream is connected to at its endpoint.
pub proof fn law_stream_connects_to_the_selected_worker(
    op: ConnectOp,
    outcome: Result<WorkerInfo>,
    r: (ConnectOp, ConnectAction),
    endpoint: String,
)
    requires
        call_ensures(ConnectOp::selected, (op, outcome), r),
        outcome is Ok && outcome->Ok_0.address is Some ==> call_ensures(
            worker_endpoint,
            (&outcome->Ok_0.address->0,),
            endpoint,
        ),
    ensures
        outcome is Ok && outcome->Ok_0.address is Some ==> (r.1 matches ConnectAction::Connect(t)
            && t@ == endpoint@),
        outcome is Ok && outcome->Ok_0.address is Some && op.phase is Select ==> r.0.phase
            == ConnectPhase::Connect(outcome->Ok_0.address->0),
        outcome is Ok && outcome->Ok_0.address is None ==> (r.1 matches ConnectAction::Fail(e) && e
            is Internal),
        outcome matches Err(e) ==> r.1 == ConnectAction::Fail(e),
{
}

/// Whether `bytes` is what the frame carries.
pub open spec fn carries(frame: ReadResponse, bytes: Seq<u8>) -> bool {
    frame.chunk is Some && frame.chunk->0.data is Some && frame.chunk->0.data->0@ == bytes
}

/// A frame with bytes hands them out and counts them; one without is waited past, a
/// declared end ends the data, and a stream that fails or is cut off is an error.
pub proof fn law_frames_are_handed_out(
    reader: &mut GrpcBlockReader,
    item: StreamItem,
    r: ReadStep,
)
    requires
        call_ensures(GrpcBlockReader::read_chunk, (reader, item), r),
    ensures
        item matches StreamItem::Data(frame) ==> forall|bytes: Seq<u8>| #[trigger]
            carries(frame, bytes) && bytes.len() > 0 ==> (r matches ReadStep::Chunk { data, .. }
                && held(data) == bytes) && (old(reader).bytes_received + bytes.len() <= i64::MAX
                && old(reader).bytes_received >= 0 ==> final(reader).bytes_received == old(reader).bytes_received + bytes.len()),
        item matches StreamItem::Data(frame) ==> (frame.chunk is None || frame.chunk->0.data is None
            || frame.chunk->0.data->0@.len() == 0) ==> r is Wait && *final(reader) == *old(reader),
        item is End ==> r is End,
        item matches StreamItem::Failed(e) ==> r == ReadStep::Fail(e),
        item is Lost ==> (r matches ReadStep::Fail(e) && e is Internal),
        final(reader).block_id == old(reader).block_id,
        final(reader).offset == old(reader).offset,
        final(reader).length == old(reader).length,
{
}

/// What is acknowledged is how far the block has been received: after so many bytes, or
/// so many chunks, or all.
pub proof fn law_progress_is_acknowledged(
    reader: &mut GrpcBlockReader,
    delta: i64,
    r: Option<i64>,
)
    requires
        call_ensures(GrpcBlockReader::maybe_send_ack, (reader, delta), r),
        0 <= old(reader).offset,
        0 <= old(reader).bytes_received,
        old(reader).offset + old(reader).bytes_received <= i64::MAX,
        0 <= delta,
        0 <= old(reader).bytes_since_last_ack,
        old(reader).bytes_since_last_ack + delta <= i64::MAX,
        old(reader).chunks_since_last_ack < u32::MAX,
    ensures
        r is Some <==> old(reader).bytes_since_last_ack + delta >= old(reader).ack_interval_bytes
            || old(reader).chunks_since_last_ack + 1 >= old(reader).ack_interval_chunks || old(reader).bytes_received >= old(reader).length,
        r matches Some(at) ==> at == old(reader).offset + old(reader).bytes_received,
{
}

/// Reading a whole range collects the bytes of the frames in order, and ends with all of
/// them as soon as there are as many as were asked for; a stream that ends before, fails
/// or is cut off fails the read.
pub proof fn law_range_is_collected(
    read: &mut BlockRead,
    item: StreamItem,
    r: ReadAllStep,
)
    requires
        call_ensures(BlockRead::step, (read, item), r),
        old(read).wf(),
        held_mut(old(read).buffer).len() <= i64::MAX,
        old(read).reader.bytes_received < old(read).reader.length,
    ensures
        item matches StreamItem::Data(frame) ==> forall|bytes: Seq<u8>| #[trigger]
            carries(frame, bytes) && bytes.len() > 0 && held_mut(old(read).buffer).len()
                + bytes.len() <= i64::MAX ==> {
                let all = held_mut(old(read).buffer) + bytes;
                if all.len() >= old(read).reader.length {
                    r matches ReadAllStep::AckThenDone(_, Ok(b)) && held(b) == all
                } else {
                    (r is Next || r is AckThenNext) && held_mut(final(read).buffer) == all
                }
            },
        item is End ==> (r matches ReadAllStep::Done(Err(e)) && e is Internal),
        item matches StreamItem::Failed(e) ==> r == ReadAllStep::Done(Err(e)),
        item is Lost ==> (r matches ReadAllStep::Done(Err(e)) && e is Internal),
{
}

/// A range is read completely or not at all.
pub proof fn law_short_reads_are_errors(block_id: i64, received: i64, length: i64, r: Result<()>)
    requires
        call_ensures(check_positioned_read_complete, (block_id, received, length), r),
    ensures
        r is Ok <==> received >= length,
        r matches Err(e) ==> e is Internal,
{
}

/// The block of a position starts no later and ends behind it; the offset in it, and what
/// is left of it in the file, follow.
pub proof fn law_position_lies_in_its_block(
    s: GooseFsFileInStream,
    pos: i64,
    place: usize,
    within: i64,
    left: i64,
)
    requires
        call_ensures(GooseFsFileInStream::block_index_for_pos, (&s, pos), place),
        call_ensures(GooseFsFileInStream::offset_in_block, (&s, pos), within),
        call_ensures(GooseFsFileInStream::remaining_in_block, (&s, pos), left),
        s.status.block_size_bytes > 0,
        0 <= pos < s.file_length,
        pos / s.status.block_size_bytes <= usize::MAX,
    ensures
        place * s.status.block_size_bytes <= pos < (place + 1) * s.status.block_size_bytes,
        within == pos - place * s.status.block_size_bytes,
        0 < left <= s.file_length - pos,
        (place + 1) * s.status.block_size_bytes <= s.file_length ==> pos + left == (place + 1)
            * s.status.block_size_bytes,
        s.file_length <= (place + 1) * s.status.block_size_bytes ==> pos + left == s.file_length,
{
    let size = s.status.block_size_bytes as int;
    lemma_block_arithmetic(pos as int, size);
    assert((place + 1) * size == place * size + size) by (nonlinear_arith);
}

/// A block that the master listed is found under its place.
pub proof fn law_listed_block_is_read(s: GooseFsFileInStream, place: usize, r: Result<i64>)
    requires
        call_ensures(GooseFsFileInStream::block_id_at, (&s, place), r),
    ensures
        place < s.status.block_ids@.len() && s.status.block_ids@[place as int] > 0 ==> r == Ok::<
            i64,
            Error,
        >(s.status.block_ids@[place as int]),
        r matches Ok(id) ==> id > 0,
        r matches Err(e) ==> e is Internal,
        !(place < s.status.block_ids@.len() && s.status.block_ids@[place as int] > 0)
            && r is Ok ==> exists|info: FileBlockInfo|
            #![trigger s.status.block_infos@.contains_value(info)]
            s.status.block_infos@.contains_value(info) && info.block_info is Some
                && info.block_info->0.block_id == Some(r->Ok_0) && info.offset is Some
                && info.offset->0 == place * s.status.block_size_bytes,
{
    if place < s.status.block_ids@.len() && s.status.block_ids@[place as int] > 0 {
        assert(s.names_block(place, s.status.block_ids@[place as int]));
    }
}

/// A seek leads where it is asked to, but never before the start or behind the end.
pub proof fn law_seek_target_lies_in_the_file(
    s: GooseFsFileInStream,
    from: SeekFrom,
    r: i64,
)
    requires
        call_ensures(GooseFsFileInStream::seek_target, (&s, from), r),
        0 <= s.pos,
        0 <= s.file_length,
    ensures
        0 <= r <= s.file_length,
        from matches SeekFrom::Start(n) ==> (n <= s.file_length ==> r == n) && (n > s.file_length
            ==> r == s.file_length),
        from matches SeekFrom::Current(n) ==> (0 <= s.pos + n <= s.file_length ==> r == s.pos + n)
            && (s.pos + n < 0 ==> r == 0) && (s.pos + n > s.file_length ==> r == s.file_length),
        from matches SeekFrom::End(n) ==> (0 <= s.file_length + n <= s.file_length ==> r
            == s.file_length + n) && (s.file_length + n < 0 ==> r == 0) && (n > 0 ==> r
            == s.file_length),
{
}

/// Only a completed file is opened for reading.
pub proof fn law_only_completed_files_are_opened(status: URIStatus, path: &str, r: Result<()>)
    requires
        call_ensures(check_readable, (&status, path), r),
    ensures
        r is Ok <==> !status.folder && status.completed,
        status.folder ==> (r matches Err(e) && e is OpenDirectory),
        !status.folder && !status.completed ==> (r matches Err(e) && e is FileIncomplete),
{
}

/// A new stream is at the start of the file that the status describes.
pub proof fn law_stream_starts_at_the_start(
    status: URIStatus,
    chunk_size: u64,
    options: OpenFileOptions,
    s: GooseFsFileInStream,
    eof: bool,
    left: i64,
)
    requires
        call_ensures(GooseFsFileInStream::new, (status, chunk_size, options), s),
        call_ensures(GooseFsFileInStream::is_eof, (&s,), eof),
        call_ensures(GooseFsFileInStream::remaining, (&s,), left),
    ensures
        s.status == status,
        s.pos == 0,
        s.file_length == status.length,
        s.chunk_size == chunk_size,
        s.options == options.in_stream_options,
        held(s.carry_over).len() == 0 && s.block_in_stream is None,
        eof <==> status.length <= 0,
        status.length >= 0 ==> left == status.length,
        status.length < 0 ==> left == 0,
{
}

/// A read at the end, or of no bytes, gives nothing; bytes that were carried over are
/// handed out before any are asked for; else a stream over the rest of the block is
/// opened, or, behind a far seek, just the bytes are asked for.
pub proof fn law_read_takes_the_nearest_bytes(
    s: &mut GooseFsFileInStream,
    want: usize,
    r: (ReadOp, ReadAction),
    left: i64,
)
    requires
        call_ensures(ReadOp::start, (s, want), r),
        call_ensures(GooseFsFileInStream::remaining_in_block, (old(s), old(s).pos), left),
        old(s).wf(),
    ensures
        old(s).pos >= old(s).file_length || want == 0 ==> *final(s) == *old(s) && (r.1 matches
            ReadAction::Done { ack: None, result: Ok(b) } && held(b).len() == 0),
        old(s).pos < old(s).file_length && want > 0 && held(old(s).carry_over).len() > 0 ==> (r.1
            matches ReadAction::Done { ack: None, result: Ok(b) } && held(b).len() > 0 && held(b)
            == held(old(s).carry_over).take(held(b).len() as int) && held(b).len() <= want
            && final(s).pos == old(s).pos + held(b).len() && held(final(s).carry_over) == held(
            old(s).carry_over,
        ).skip(held(b).len() as int)),
        old(s).pos < old(s).file_length && want > 0 && held(old(s).carry_over).len() == 0 && old(s).block_in_stream is Some ==> r.1 is Item && *final(s) == *old(s),
        r.1 matches ReadAction::Open(q) ==> q.length == left && final(s).pos == old(s).pos
            && !(old(s).positioned_next && left > 0),
        r.1 matches ReadAction::Positioned(q) ==> old(s).positioned_next && q.length <= want
            && q.length <= left && (q.length == want || q.length == left) && final(s).pos == old(s).pos,
        r.1 is Open || r.1 is Positioned ==> !final(s).positioned_next,
{
}

/// What is asked for is the range at the position: its block, and its offset there.
pub proof fn law_read_asks_for_the_position(
    s: &mut GooseFsFileInStream,
    want: usize,
    r: (ReadOp, ReadAction),
    within: i64,
    located: Option<OpenUfsBlockOptions>,
    place: usize,
)
    requires
        call_ensures(ReadOp::start, (s, want), r),
        call_ensures(GooseFsFileInStream::block_index_for_pos, (old(s), old(s).pos), place),
        call_ensures(GooseFsFileInStream::offset_in_block, (old(s), old(s).pos), within),
        call_ensures(GooseFsFileInStream::build_ufs_opts, (old(s), place), located),
        old(s).chunk_size <= i64::MAX,
    ensures
        r.1 matches ReadAction::Open(q) ==> q.offset == within && q.chunk_size == old(s).chunk_size
            && q.ufs_options == located,
        r.1 matches ReadAction::Positioned(q) ==> q.offset == within && q.chunk_size == old(s).chunk_size && q.ufs_options == located,
        place < old(s).status.block_ids@.len() && old(s).status.block_ids@[place as int] > 0 ==> (
        r.1 matches ReadAction::Open(q) ==> q.block_id == old(s).status.block_ids@[place as int]),
        place < old(s).status.block_ids@.len() && old(s).status.block_ids@[place as int] > 0 ==> (
        r.1 matches ReadAction::Positioned(q) ==> q.block_id == old(s).status.block_ids@[place as int]),
{
}

/// A read at a position covers the bytes that the file has of it.
pub proof fn law_read_at_covers_the_request(
    s: GooseFsFileInStream,
    offset: i64,
    n: usize,
    r: ReadAtOp,
)
    requires
        call_ensures(ReadAtOp::start, (&s, offset, n), r),
    ensures
        r.cur == offset,
        r.parts@.len() == 0,
        offset >= s.file_length || n == 0 ==> r.end == offset,
        offset < s.file_length && offset + n <= s.file_length ==> r.end == offset + n,
        offset < s.file_length && offset + n > s.file_length && n > 0 ==> r.end == s.file_length,
{
}

/// Reading to the end goes on until a read gives nothing, and then hands out all that was
/// read, in order.
pub proof fn law_read_to_end_keeps_every_byte(
    all: &mut ReadToEnd,
    data: bytes::Bytes,
    r: Option<bytes::Bytes>,
)
    requires
        call_ensures(ReadToEnd::step, (all, data), r),
    ensures
        r is Some <==> held(data).len() == 0,
        r is None ==> joined_buffers(final(all).parts@) == joined_buffers(old(all).parts@) + held(
            data,
        ),
        r matches Some(b) ==> held(b) == joined_buffers(old(all).parts@),
{
    if r is None {
        assert(final(all).parts@.drop_last() =~= old(all).parts@);
    }
}

/// The settings of a sequential read are those of the configuration, raised to values
/// that work.
pub proof fn law_read_settings_are_configured(config: GoosefsConfig, r: ReadTuning)
    requires
        call_ensures(ReadTuning::from_config, (&config,), r),
    ensures
        r.prefetch_window == config.prefetch_window,
        config.read_buffer_messages >= 1 ==> r.buffer_messages == config.read_buffer_messages,
        r.buffer_messages >= 1,
        config.ack_interval_bytes >= 0 ==> r.ack_interval_bytes == config.ack_interval_bytes,
        r.ack_interval_bytes >= 0,
        config.ack_interval_chunks >= 1 ==> r.ack_interval_chunks == config.ack_interval_chunks,
        r.ack_interval_chunks >= 1,
{
}

/// A reader that was just opened has received nothing of its range.
pub proof fn law_opened_reader_is_at_its_start(
    block_id: i64,
    offset: i64,
    length: i64,
    tuning: ReadTuning,
    plain: GrpcBlockReader,
    tuned: GrpcBlockReader,
)
    requires
        call_ensures(GrpcBlockReader::open, (block_id, offset, length), plain),
        call_ensures(GrpcBlockReader::open_sequential, (block_id, offset, length, tuning), tuned),
    ensures
        plain.block_id == block_id && plain.offset == offset && plain.length == length,
        plain.bytes_received == 0 && plain.bytes_since_last_ack == 0
            && plain.chunks_since_last_ack == 0,
        plain.ack_interval_bytes == 0 && plain.ack_interval_chunks == 1,
        tuned.block_id == block_id && tuned.offset == offset && tuned.length == length,
        tuned.bytes_received == 0 && tuned.bytes_since_last_ack == 0
            && tuned.chunks_since_last_ack == 0,
        tuned.ack_interval_bytes == tuning.ack_interval_bytes,
        tuned.ack_interval_chunks == tuning.ack_interval_chunks,
{
}

/// An acknowledgement is due after so many bytes, or so many chunks, or at the end.
pub proof fn law_acknowledgement_is_due(
    bytes: i64,
    chunks: u32,
    every_bytes: i64,
    every_chunks: u32,
    received: i64,
    length: i64,
    r: bool,
)
    requires
        call_ensures(
            should_send_ack,
            (bytes, chunks, every_bytes, every_chunks, received, length),
            r,
        ),
    ensures
        bytes >= every_bytes ==> r,
        chunks >= every_chunks ==> r,
        received >= length ==> r,
        bytes < every_bytes && chunks < every_chunks && received < length ==> !r,
{
}

/// A reader tells its range, what it has read of it and how long the file is.
pub proof fn law_reader_tells_its_state(
    s: GoosefsFileReader,
    len: u64,
    read: u64,
    at: usize,
    complete: bool,
    offset: u64,
    length: u64,
)
    requires
        call_ensures(GoosefsFileReader::file_length, (&s,), len),
        call_ensures(GoosefsFileReader::bytes_read, (&s,), read),
        call_ensures(GoosefsFileReader::current_block_index, (&s,), at),
        call_ensures(GoosefsFileReader::is_complete, (&s,), complete),
        call_ensures(GoosefsFileReader::offset, (&s,), offset),
        call_ensures(GoosefsFileReader::length, (&s,), length),
    ensures
        s.file_info.length matches Some(n) ==> n >= 0 ==> len == n,
        s.file_info.length is None ==> len == 0,
        read == s.total_bytes_read,
        at == s.current_plan_index,
        complete == (at >= s.plans@.len()),
        offset == s.offset && length == s.length,
{
}

/// A range without bytes is read at once.
pub proof fn law_empty_range_is_read_at_once(read: BlockRead, r: Option<Result<bytes::Bytes>>)
    requires
        call_ensures(BlockRead::first_step, (&read,), r),
    ensures
        (r is Some) == (read.reader.length <= 0),
        r matches Some(done) ==> (done matches Ok(b) && held(b).len() == 0),
{
}

/// A new reader has read nothing of the range and the parts that it is given.
pub proof fn law_new_reader_starts_afresh(
    path: &str,
    info: FileInfo,
    chunk_size: u64,
    plans: Vec<BlockReadPlan>,
    offset: u64,
    length: u64,
    r: GoosefsFileReader,
    n: usize,
)
    requires
        call_ensures(GoosefsFileReader::new, (path, info, chunk_size, plans, offset, length), r),
        call_ensures(GoosefsFileReader::block_count, (&r,), n),
    ensures
        r.path@ == path@ && r.file_info == info && r.chunk_size == chunk_size,
        r.plans == plans && n == plans@.len(),
        r.current_plan_index == 0 && r.total_bytes_read == 0,
        r.offset == offset && r.length == length,
{
}

/// Parts whose block has no usable identifier are passed over, and no others.
pub proof fn law_only_unreadable_parts_are_passed_over(
    s: &mut GoosefsFileReader,
    r: Option<i64>,
    i: int,
    id: i64,
)
    requires
        old(s).wf(),
        call_ensures(GoosefsFileReader::skip_unreadable, (s,), r),
        0 <= i < old(s).plans@.len(),
        call_ensures(GoosefsFileReader::resolve_block_id, (old(s), &old(s).plans@[i]), id),
    ensures
        final(s).plans == old(s).plans && final(s).total_bytes_read == old(s).total_bytes_read,
        old(s).current_plan_index <= final(s).current_plan_index <= old(s).plans@.len(),
        old(s).current_plan_index <= i < final(s).current_plan_index ==> id <= 0,
        i == final(s).current_plan_index ==> id > 0 && r == Some(id),
        (r is None) == (final(s).current_plan_index == old(s).plans@.len()),
{
    lemma_passed_over(old(s).file_info, old(s).plans@, old(s).current_plan_index as int, i);
}

proof fn lemma_passed_over(info: FileInfo, plans: Seq<BlockReadPlan>, from: int, i: int)
    requires
        0 <= from <= plans.len(),
    ensures
        from <= first_readable(info, plans, from) <= plans.len(),
        from <= i < first_readable(info, plans, from) ==> resolved_id(info, plans[i]) <= 0,
        first_readable(info, plans, from) < plans.len() ==> resolved_id(
            info,
            plans[first_readable(info, plans, from)],
        ) > 0,
    decreases plans.len() - from,
{
    if from < plans.len() && resolved_id(info, plans[from]) <= 0 {
        lemma_passed_over(info, plans, from + 1, i);
    }
}

/// Connecting starts with the selection of a worker.
pub proof fn law_connecting_starts_with_the_selection(r: (ConnectOp, ConnectAction))
    requires
        call_ensures(ConnectOp::start, (), r),
    ensures
        r.1 is Select && r.0.phase is Select,
{
}

} // verus!
