//! What the operations of a write promise: laws on their arguments and results.
//!
//! `call_ensures(f, args, r)` says that `r` is a result of the call of `f` with `args`.

use vstd::prelude::*;

use crate::config::kinds::WriteType;
use crate::error::{Error, Result};
use crate::fs::options::DeleteOptions;
use crate::io::active_block::{ActiveBlockWriter, ReplicaWriter, SendMode};
use crate::io::file_writer::{
    GoosefsFileWriter, WriteAction, WriteOp, WritePhase,
};
use crate::io::replica_opening::{eligible_workers, ReplicaOpening};
use crate::io::replica_write::{
    degrade_replicas, enough_replicas, filter_no_space_workers, replica_write_plan, should_abort_remaining,
    worker_has_persist_space, ReplicaWritePlan,
};
use crate::io::write_strategy::{
    cache_write_failure_is_fatal, complete_create_options, complete_file_locations,
    compute_block_id, block_sequence_number, fs_op_pid, is_credentials_rejected,
    resolve_persist_options, resolve_write_strategy,
    was_drawn, WritePolicy, WriteStrategy,
};
use crate::io::writer_blocks::{
    FillAction, FillOp, OpenBlockAction, OpenBlockOp, OpenBlockPhase,
};
use crate::io::writer_close::{CloseBlockAction, CloseBlockOp, CloseBlockPhase};
use crate::io::writer_end::{
    CancelAction, CancelOp, CleanupAction, CleanupOp, CloseAction, CloseOp, ClosePhase,
    RecoverAction, RecoverOp, RecoverPhase, Remains,
};
use crate::io::writer_streams::{
    address_of_endpoint, CreateAction, CreateOp, FlushAction, FlushOp, FlushPhase, OpenUfsAction, OpenUfsOp,
    OpenUfsPhase,
};
use crate::proto::{
    CreateFilePOptions, FileInfo, FileLocation, FsOpPId, LoadMetadataPType, PMode,
    ScheduleAsyncPersistencePOptions, WorkerInfo, WorkerNetAddress,
};
use crate::text::decimal;

verus! {

/// The streams of a file follow from its write type: it is cached unless it goes to the
/// storage only, it goes to the storage at once exactly where the type says so, and the
/// master persists it later exactly where the type says so. The file in the storage is
/// the one that the master reported, with its owner, group and mode.
pub proof fn law_streams_follow_the_write_type(
    t: WriteType,
    info: FileInfo,
    r: WriteStrategy,
)
    requires
        call_ensures(resolve_write_strategy, (Some(t.proto().number()), &info), r),
    ensures
        r.cache_stream <==> !(t is Through),
        r.ufs_stream <==> t is CacheThrough || t is Through,
        r.need_async_persist <==> t is AsyncThrough,
        r.create_ufs_file_options is Some <==> t is CacheThrough || t is Through
            || t is AsyncThrough,
        r.create_ufs_file_options matches Some(o) ==> o.ufs_path == info.ufs_path && o.owner
            == info.owner && o.group == info.group && o.mode == info.mode && o.mount_id
            == info.mount_id,
{
}

/// Without a write type a file is in the cache alone.
pub proof fn law_untyped_file_is_cached_only(info: FileInfo, r: WriteStrategy)
    requires
        call_ensures(resolve_write_strategy, (None, &info), r),
    ensures
        r.cache_stream,
        !r.ufs_stream,
        !r.need_async_persist,
        r.create_ufs_file_options is None,
{
}

/// A new writer is for the file that the master created, and has written nothing; its
/// first streams are those of the write type.
pub proof fn law_new_writer_starts_afresh(
    path: &str,
    info: FileInfo,
    policy: WritePolicy,
    t: WriteType,
    w: GoosefsFileWriter,
)
    requires
        policy.chunk_size <= usize::MAX,
        call_ensures(
            GoosefsFileWriter::new,
            (path, info, policy, Some(t.proto().number())),
            w,
        ),
    ensures
        w.path@ == path@,
        w.file_info == info,
        w.policy == policy,
        w.total_bytes_written == 0,
        w.committed_block_ids@.len() == 0,
        w.current_block is None,
        !w.flags.cancelled && !w.flags.closed && !w.flags.completed,
        !w.flags.block_opened && !w.flags.ufs_stream_open && !w.flags.ufs_stream_completed,
        w.flags.router_needs_init,
        was_drawn(w.operation_id),
        w.flags.should_cache <==> !(t is Through),
        w.flags.ufs_write_enabled <==> t is CacheThrough || t is Through,
        w.strategy.need_async_persist <==> t is AsyncThrough,
{
}

/// The blocks of a file have the size that the master reported for it; where it reported
/// none, the size of the settings.
pub open spec fn has_size_of_file(w: GoosefsFileWriter, action: OpenBlockAction) -> bool {
    action matches OpenBlockAction::OpenReplicas { block_size, .. } ==> {
        &&& w.file_info.block_size_bytes matches Some(n) ==> n > 0 ==> block_size == n
        &&& w.file_info.block_size_bytes is None ==> block_size == w.policy.block_size
    }
}

proof fn lemma_same_as_unsigned(n: u64)
    ensures
        n as i64 as u64 == n,
{
    assert(n as i64 as u64 == n) by (bit_vector);
}

/// Every block that a writer opens has the size that the master reported for the file,
/// whatever the settings say; only where the master reported none it is theirs.
pub proof fn law_first_block_has_the_reported_size(
    w: GoosefsFileWriter,
    r: (OpenBlockOp, OpenBlockAction),
)
    requires
        call_ensures(OpenBlockOp::start, (&w,), r),
    ensures
        has_size_of_file(w, r.1),
        w.current_block is None ==> r.1 is OpenReplicas || r.1 is Done,
        w.current_block is Some ==> r.1 is ClosePrevious,
{
    lemma_same_as_unsigned(w.policy.block_size);
}

/// Every block that a writer opens has the size that the master reported for the file,
/// also where a block before it had to be closed, or workers had to be tried again.
pub proof fn law_every_block_has_the_reported_size(
    op: OpenBlockOp,
    w: &mut GoosefsFileWriter,
    outcome: Result<Option<ActiveBlockWriter>>,
    r: (OpenBlockOp, OpenBlockAction),
)
    requires
        call_ensures(OpenBlockOp::step, (op, w, outcome), r),
    ensures
        has_size_of_file(*old(w), r.1),
{
    lemma_same_as_unsigned(old(w).policy.block_size);
}

/// The size that a writer tells is that of its blocks.
pub proof fn law_writer_tells_the_reported_size(w: GoosefsFileWriter, r: u64)
    requires
        call_ensures(GoosefsFileWriter::block_size, (&w,), r),
    ensures
        w.file_info.block_size_bytes matches Some(n) ==> n > 0 ==> r == n,
        w.file_info.block_size_bytes is None ==> r == w.policy.block_size,
{
    lemma_same_as_unsigned(w.policy.block_size);
}

/// Whether the identifier of a block that is opened is that of the file's next block: it
/// names the file, and as many blocks before it as were committed.
pub open spec fn is_next_of_file(w: GoosefsFileWriter, action: OpenBlockAction) -> bool {
    action matches OpenBlockAction::OpenReplicas { block_id, .. } ==> {
        &&& w.file_info.file_id matches Some(f) ==> block_id >> 24 == f >> 24
        &&& w.committed_block_ids@.len() < 0x100_0000 ==> (block_id as u64) & 0xff_ffff
            == w.committed_block_ids@.len()
    }
}

proof fn lemma_low_bits(n: u64)
    requires
        n < 0x100_0000,
    ensures
        n & 0xff_ffff == n,
{
    assert(n & 0xff_ffff == n) by (bit_vector)
        requires
            n < 0x100_0000,
    ;
}

/// The block that is opened is the next one of the file, on the picked workers first,
/// and once more on all workers if that failed.
pub proof fn law_next_block_is_opened(
    op: OpenBlockOp,
    w: &mut GoosefsFileWriter,
    outcome: Result<Option<ActiveBlockWriter>>,
    r: (OpenBlockOp, OpenBlockAction),
)
    requires
        call_ensures(OpenBlockOp::step, (op, w, outcome), r),
    ensures
        is_next_of_file(*old(w), r.1),
        op.phase is Picked && outcome is Err ==> r.1 is OpenReplicas || r.1 is Done,
        op.phase is Picked && outcome is Err ==> (r.1 matches OpenBlockAction::OpenReplicas {
            use_all_workers,
            ..
        } ==> use_all_workers),
        op.phase is ClosePrevious && outcome is Ok ==> (r.1 matches OpenBlockAction::OpenReplicas {
            use_all_workers,
            ..
        } ==> !use_all_workers),
        op.phase is AnyWorker && outcome is Err ==> r.1 == OpenBlockAction::Done(
            Err(outcome->Err_0),
        ),
        (op.phase is Picked || op.phase is AnyWorker) && outcome is Ok && outcome->Ok_0 is Some
            ==> final(w).current_block == outcome->Ok_0 && final(w).flags.block_opened && r.1 == OpenBlockAction::Done(Ok(())),
        outcome is Err ==> *final(w) == *old(w),
{
    if old(w).committed_block_ids@.len() < 0x100_0000 {
        lemma_low_bits(old(w).committed_block_ids@.len() as u64);
    }
}

/// The first block that a writer opens is the next one of its file.
pub proof fn law_started_block_is_the_next(
    w: GoosefsFileWriter,
    r: (OpenBlockOp, OpenBlockAction),
)
    requires
        call_ensures(OpenBlockOp::start, (&w,), r),
    ensures
        is_next_of_file(w, r.1),
        r.1 matches OpenBlockAction::OpenReplicas { use_all_workers, .. } ==> !use_all_workers,
{
    if w.committed_block_ids@.len() < 0x100_0000 {
        lemma_low_bits(w.committed_block_ids@.len() as u64);
    }
}

/// Blocks of one file have different identifiers, blocks of different containers too,
/// and the place of a block is read back from its identifier.
pub proof fn law_block_ids_tell_blocks_apart(
    file: i64,
    other: i64,
    i: u64,
    k: u64,
    a: i64,
    b: i64,
    place: u64,
)
    requires
        call_ensures(compute_block_id, (file, i), a),
        call_ensures(compute_block_id, (other, k), b),
        call_ensures(block_sequence_number, (a,), place),
        i < 0x100_0000,
        k < 0x100_0000,
    ensures
        a == b ==> i == k && file >> 24 == other >> 24,
        file >> 24 == other >> 24 && i == k ==> a == b,
        place == i,
{
    lemma_low_bits(i);
    lemma_low_bits(k);
    if file >> 24 == other >> 24 && i == k {
        crate::io::write_strategy::law_block_id_is_unique(a, b);
    }
}

/// As many replicas are opened as the settings ask for, at least one; all of them must
/// succeed, but for a file that is persisted later, which may have more replicas and
/// needs only the durable ones.
pub proof fn law_replica_counts_follow_the_settings(
    number: i32,
    durable: i32,
    durable_min: i32,
    retry: i32,
    plain: Result<ReplicaWritePlan>,
    later: Result<ReplicaWritePlan>,
)
    requires
        call_ensures(replica_write_plan, (false, number, durable, durable_min, retry), plain),
        call_ensures(replica_write_plan, (true, number, durable, durable_min, retry), later),
    ensures
        plain matches Ok(p) && p.initial_replicas >= 1 && p.min_needed_replicas
            == p.initial_replicas && p.max_retry_node >= p.initial_replicas,
        number >= 1 ==> plain->Ok_0.initial_replicas == number,
        number < 1 ==> plain->Ok_0.initial_replicas == 1,
        retry >= plain->Ok_0.initial_replicas ==> plain->Ok_0.max_retry_node == retry,
        retry < plain->Ok_0.initial_replicas ==> plain->Ok_0.max_retry_node
            == plain->Ok_0.initial_replicas,
        later matches Ok(p) ==> p.initial_replicas >= plain->Ok_0.initial_replicas
            && p.initial_replicas >= durable && (p.initial_replicas
            == plain->Ok_0.initial_replicas || p.initial_replicas == durable)
            && p.min_needed_replicas >= 1 && p.min_needed_replicas <= p.initial_replicas,
        later is Ok && durable_min >= 1 ==> later->Ok_0.min_needed_replicas == durable_min,
        later is Ok && durable_min < 1 ==> later->Ok_0.min_needed_replicas == 1,
        later is Err <==> durable_min > 1 && durable_min > durable && durable_min > number,
{
}

/// The replica counts of a block are those of the writer's settings.
pub proof fn law_block_gets_the_planned_replicas(
    w: GoosefsFileWriter,
    r: (OpenBlockOp, OpenBlockAction),
    plan: Result<ReplicaWritePlan>,
)
    requires
        call_ensures(OpenBlockOp::start, (&w,), r),
        call_ensures(
            replica_write_plan,
            (
                w.strategy.need_async_persist,
                w.policy.file_replication_number,
                w.policy.file_replication_durable,
                w.policy.file_replication_durable_min,
                w.policy.file_write_max_node_retry,
            ),
            plan,
        ),
    ensures
        r.1 matches OpenBlockAction::OpenReplicas { plan: p, .. } ==> plan == Ok::<
            ReplicaWritePlan,
            Error,
        >(p),
        w.current_block is None && plan is Err ==> r.1 is Done,
{
}

/// With fewer workers than replicas are wanted, as many are opened as there are workers;
/// what a file that is persisted later needs is never lowered.
pub proof fn law_replicas_are_lowered_to_the_workers(
    later: bool,
    initial: usize,
    needed: usize,
    alive: usize,
    r: (usize, usize),
)
    requires
        call_ensures(degrade_replicas, (later, initial, needed, alive), r),
    ensures
        initial <= alive ==> r == (initial, needed),
        initial > alive ==> r.0 == alive,
        later ==> r.1 == needed,
        !later && initial > alive ==> r.1 == alive,
{
}

/// The remaining replicas are given up exactly when their success could not be enough
/// any more.
pub proof fn law_hopeless_writes_are_given_up(
    failures: usize,
    writers: usize,
    needed: usize,
    r: bool,
)
    requires
        call_ensures(should_abort_remaining, (failures, writers, needed), r),
        failures <= writers,
        needed <= writers,
    ensures
        r <==> writers - failures < needed,
{
}

/// Where more writers are needed than there are, the first failure is one too many.
pub proof fn law_first_failure_among_too_few_is_fatal(
    failures: usize,
    writers: usize,
    needed: usize,
    r: bool,
)
    requires
        call_ensures(should_abort_remaining, (failures, writers, needed), r),
        needed > writers,
    ensures
        r <==> failures > 0,
{
}

/// A worker has room for bytes that wait for persistence if it takes writes, has a
/// capacity, and what is free of it is large enough; more free room never hurts.
pub proof fn law_room_is_what_is_free(
    worker: WorkerInfo,
    min_remain: i64,
    capacity: i64,
    share: bool,
    r: bool,
)
    requires
        call_ensures(worker_has_persist_space, (&worker, min_remain, capacity, share), r),
    ensures
        worker.forbid_write == Some(true) ==> !r,
        !share || capacity <= 0 ==> !r,
        worker.capacity_bytes matches Some(c) ==> c <= 0 ==> !r,
        worker.capacity_bytes is None ==> !r,
        r ==> (worker.persist_used_bytes matches Some(used) ==> capacity - used >= min_remain),
        worker.forbid_write != Some(true) && share && capacity > 0 && worker.capacity_bytes
            is Some && worker.capacity_bytes->0 > 0 && worker.persist_used_bytes is Some && capacity
            - worker.persist_used_bytes->0 >= min_remain ==> r,
{
}

/// The candidates of a plain block are all kept, in their order; those of a block that
/// is persisted later all take writes.
pub proof fn law_candidates_can_be_written(
    later: bool,
    candidates: Vec<WorkerInfo>,
    has_space: Vec<bool>,
    block_id: i64,
    plan: ReplicaWritePlan,
    r: Vec<WorkerInfo>,
)
    requires
        call_ensures(eligible_workers, (later, candidates, &has_space, block_id, &plan), r),
    ensures
        !later ==> r@ == candidates@,
        later ==> forall|w: WorkerInfo| #[trigger]
            r@.contains(w) ==> w.forbid_write != Some(true) && candidates@.contains(w),
{
    crate::io::replica_write::law_filter_keeps_only_writable(
        candidates@,
        has_space@,
        (block_id as u64) & 0xff_ffff > 0,
        plan.min_needed_replicas as int,
    );
}

proof fn lemma_chosen_keeps(
    all: Seq<WorkerInfo>,
    workers: Seq<WorkerInfo>,
    keep: spec_fn(int) -> bool,
    i: int,
)
    requires
        workers.len() <= all.len(),
        workers == all.take(workers.len() as int),
        0 <= i < workers.len(),
        keep(i),
    ensures
        crate::io::replica_write::chosen(workers, keep).contains(all[i]),
    decreases workers.len(),
{
    let n = workers.len() - 1;
    let rest = crate::io::replica_write::chosen(workers.drop_last(), keep);
    let whole = crate::io::replica_write::chosen(workers, keep);
    assert(workers.drop_last() =~= all.take(n));
    if i < n {
        lemma_chosen_keeps(all, workers.drop_last(), keep, i);
        let k = rest.index_of(all[i]);
        assert(whole[k] == rest[k]);
    } else {
        assert(whole.last() == all[i]);
        assert(whole[whole.len() - 1] == all[i]);
    }
}

/// A worker that takes writes and has room stays a candidate, unless too few have room
/// and all that take writes stand in; then it stays as well.
pub proof fn law_workers_with_room_are_kept(
    workers: Vec<WorkerInfo>,
    has_space: Vec<bool>,
    allow_fallback: bool,
    needed: usize,
    r: Vec<WorkerInfo>,
    i: int,
)
    requires
        call_ensures(filter_no_space_workers, (workers, &has_space, allow_fallback, needed), r),
        workers@.len() == has_space@.len(),
        0 <= i < workers@.len(),
        workers@[i].forbid_write != Some(true),
    ensures
        has_space@[i] ==> r@.contains(workers@[i]),
        allow_fallback && !r@.contains(workers@[i]) ==> r@.len() >= needed,
{
    assert(workers@.take(workers@.len() as int) =~= workers@);
    let spacious = crate::io::replica_write::at_spacious(workers@, has_space@);
    let writable = crate::io::replica_write::at_writable(workers@);
    if has_space@[i] {
        lemma_chosen_keeps(workers@, workers@, spacious, i);
    }
    lemma_chosen_keeps(workers@, workers@, writable, i);
}

/// A block is open on as many workers as are wanted, or all were tried; it is refused
/// exactly if fewer are open than are needed.
pub proof fn law_opening_ends_by_its_count(opening: ReplicaOpening, r: Result<usize>)
    requires
        call_ensures(ReplicaOpening::finish, (opening,), r),
        opening.wf(),
        !opening.wants_more(),
    ensures
        r is Ok <==> opening.opened > 0 && opening.opened >= opening.min_needed,
        r matches Ok(n) ==> n == opening.min_needed,
        opening.opened < opening.initial ==> opening.next == opening.pool_len,
{
}

/// The location of a block names the block, where it starts in the file, the bytes that
/// it has accepted, and the worker of each replica in order.
pub proof fn law_location_names_every_replica(
    block: ActiveBlockWriter,
    offset: i64,
    r: Option<FileLocation>,
)
    requires
        call_ensures(ActiveBlockWriter::file_location, (&block, offset), r),
    ensures
        r is Some <==> block.replicas@.len() > 0,
        r matches Some(loc) ==> loc.block_id == Some(block.block_id) && loc.offset == Some(offset)
            && loc.worker_id@.len() == block.replicas@.len(),
        r matches Some(loc) ==> block.bytes_written <= i64::MAX ==> (loc.length matches Some(n)
            && n == block.bytes_written),
        r matches Some(loc) ==> forall|i: int|
            0 <= i < block.replicas@.len() ==> loc.worker_id@[i] == (
            #[trigger] block.replicas@[i]).worker_id,
{
}

/// A block starts without bytes, with all the replicas that were opened.
pub proof fn law_opened_block_is_empty(
    replicas: Vec<ReplicaWriter>,
    block_id: i64,
    block_size: u64,
    later: bool,
    needed: usize,
    b: ActiveBlockWriter,
    room: u64,
)
    requires
        call_ensures(
            ActiveBlockWriter::new,
            (replicas, block_id, block_size, later, needed),
            b,
        ),
        call_ensures(ActiveBlockWriter::remaining, (&b,), room),
    ensures
        b.replicas@ == replicas@,
        b.block_id == block_id,
        b.bytes_written == 0,
        b.pending_chunk@.len() == 0,
        b.min_needed == needed,
        room == block_size,
        b.parallel ==> later,
        later && replicas@.len() > 1 ==> b.parallel,
{
}

/// A chunk goes to replicas only, one after the other unless they are written all at
/// once.
pub proof fn law_chunks_need_replicas(block: ActiveBlockWriter, r: Result<SendMode>)
    requires
        call_ensures(ActiveBlockWriter::send_mode, (&block,), r),
    ensures
        r is Ok <==> block.replicas@.len() > 0,
        r == Ok::<SendMode, Error>(SendMode::Parallel) ==> block.parallel,
        !block.parallel ==> r != Ok::<SendMode, Error>(SendMode::Parallel),
        block.parallel && block.replicas@.len() > 1 ==> r == Ok::<SendMode, Error>(
            SendMode::Parallel,
        ),
        r matches Err(e) ==> e is BlockIoError,
{
}

/// A block is closed, and the next one opened, only when it is full: no block but the
/// last is shorter than its size.
pub proof fn law_only_full_blocks_are_followed(
    w: &mut GoosefsFileWriter,
    data: &[u8],
    r: (FillOp, FillAction),
)
    requires
        call_ensures(FillOp::start, (w, data), r),
        old(w).wf(),
        old(w).policy.chunk_size > 0,
        data@.len() <= usize::MAX,
    ensures
        r.1 is OpenBlock ==> old(w).current_block is None || old(w).current_block->0.bytes_written
            == old(w).current_block->0.block_size,
        r.1 is CloseBlock ==> final(w).current_block is Some
            && final(w).current_block->0.bytes_written == final(w).current_block->0.block_size,
        r.1 == FillAction::Done(Ok(())) ==> r.0.accepted == data@.len(),
        data@.len() > 0 && old(w).current_block is None ==> r.1 is OpenBlock,
{
}

/// The same of every further step of filling blocks.
pub proof fn law_filling_ends_with_every_byte(
    op: FillOp,
    w: &mut GoosefsFileWriter,
    data: &[u8],
    r: (FillOp, FillAction),
)
    requires
        call_ensures(FillOp::step, (op, w, data, Ok(())), r),
        old(w).wf(),
        op.wf(*old(w), data@),
        !(op.phase is Ended),
        old(w).policy.chunk_size > 0,
        data@.len() <= usize::MAX,
    ensures
        r.1 is OpenBlock ==> old(w).current_block is None || old(w).current_block->0.bytes_written
            == old(w).current_block->0.block_size,
        r.1 is CloseBlock ==> final(w).current_block is Some
            && final(w).current_block->0.bytes_written == final(w).current_block->0.block_size,
        r.1 == FillAction::Done(Ok(())) ==> r.0.accepted == data@.len(),
        r.0.accepted >= op.accepted,
{
}

/// A failure while blocks are filled ends the filling with that failure.
pub proof fn law_filling_fails_with_the_failure(
    op: FillOp,
    w: &mut GoosefsFileWriter,
    data: &[u8],
    e: Error,
    r: (FillOp, FillAction),
)
    requires
        call_ensures(FillOp::step, (op, w, data, Err(e)), r),
    ensures
        r.1 == FillAction::Done(Err(e)),
        *final(w) == *old(w),
{
}

/// Bytes are handed to the cache first, if the file is cached, and to the storage
/// otherwise; nothing is asked for to write no bytes, and a writer that has ended
/// refuses.
pub proof fn law_write_starts_with_its_first_stream(
    w: &mut GoosefsFileWriter,
    len: usize,
    r: (WriteOp, WriteAction),
)
    requires
        call_ensures(WriteOp::start, (w, len), r),
        old(w).wf(),
    ensures
        old(w).flags.closed || old(w).flags.cancelled ==> *final(w) == *old(w) && (r.1 matches
            WriteAction::Done(Err(e)) && e is BlockIoError),
        !(old(w).flags.closed || old(w).flags.cancelled) && len == 0 ==> r.1 == WriteAction::Done(
            Ok(()),
        ) && *final(w) == *old(w),
        !(old(w).flags.closed || old(w).flags.cancelled) && len > 0 ==> r.0.len == len
            && final(w).total_bytes_written == old(w).total_bytes_written && if old(w).flags.router_needs_init {
            r.1 is InitRouter
        } else if old(w).flags.should_cache {
            r.1 is WriteCache && final(w).tally.local == i64::wrapping_add(
                old(w).tally.local,
                len as i64,
            )
        } else if old(w).flags.ufs_stream_open {
            r.1 is SendUfs
        } else {
            r.1 is OpenUfs
        },
{
}

/// Bytes that the cache has taken go to the storage as well where the file goes there,
/// and are then counted; a stream to the storage is opened once.
pub proof fn law_write_reaches_every_stream(
    op: WriteOp,
    w: &mut GoosefsFileWriter,
    r: (WriteOp, WriteAction),
)
    requires
        call_ensures(WriteOp::step, (op, w, Ok(())), r),
        old(w).wf(),
        op.wf(*old(w)),
    ensures
        op.phase is Router ==> if old(w).flags.should_cache {
            r.1 is WriteCache
        } else {
            r.1 is SendUfs || r.1 is OpenUfs
        },
        op.phase is Cache && old(w).flags.ufs_write_enabled ==> if old(w).flags.ufs_stream_open {
            r.1 is SendUfs
        } else {
            r.1 is OpenUfs
        },
        op.phase is Cache && !old(w).flags.ufs_write_enabled ==> r.1 == WriteAction::Done(Ok(()))
            && final(w).total_bytes_written == old(w).total_bytes_written + op.len,
        op.phase is OpenUfs ==> r.1 is SendUfs && *final(w) == *old(w),
        op.phase is SendUfs ==> r.1 == WriteAction::Done(Ok(())) && final(w).total_bytes_written
            == old(w).total_bytes_written + op.len && final(w).tally.ufs == i64::wrapping_add(
            old(w).tally.ufs,
            op.len as i64,
        ),
        !(r.1 is Done) ==> r.0.len == op.len,
{
}

/// A cache write that fails gives up its block, and then either the whole write, with
/// that error and for good, or only the cache: the bytes then go to the storage.
pub proof fn law_failed_cache_write_is_dealt_with(
    op: WriteOp,
    w: &mut GoosefsFileWriter,
    e: Error,
    r: (WriteOp, WriteAction),
)
    requires
        call_ensures(WriteOp::step, (op, w, Err(e)), r),
        old(w).wf(),
        op.wf(*old(w)),
    ensures
        op.phase is Cache ==> final(w).current_block is None && (r.1 matches
            WriteAction::TearDownBlock { block, blacklist } && block == old(w).current_block
            && blacklist == !(e is AuthenticationFailed || e is PermissionDenied)),
        op.phase is Router || op.phase is OpenUfs ==> r.1 == WriteAction::Done(Err(e)) && *final(w)
            == *old(w),
        op.phase is SendUfs ==> !final(w).flags.ufs_stream_open && final(w).ufs_worker_addr is None
            && (r.1 matches WriteAction::TearDownUfs { worker_addr } && worker_addr == old(w).ufs_worker_addr),
        op.phase matches WritePhase::TearDownUfs(first) ==> r.1 == WriteAction::Done(Err(first)),
        op.phase matches WritePhase::TearDown(first, fatal) ==> fatal ==> r.1 == WriteAction::Done(
            Err(first),
        ) && final(w).flags.cancelled,
        op.phase matches WritePhase::TearDown(_, fatal) ==> !fatal ==> !final(w).flags.cancelled
            && !final(w).flags.should_cache && final(w).flags.ufs_write_enabled && (r.1 is SendUfs
            || r.1 is OpenUfs) && final(w).tally.degraded == i64::wrapping_add(
            old(w).tally.degraded,
            1,
        ),
        final(w).total_bytes_written == old(w).total_bytes_written,
{
}

/// A file that is in the cache alone fails with its cache write; one that goes to the
/// storage as well outlives it, unless the credentials or the settings are at fault, or
/// the first block could not be opened and the settings make that an error; one that is
/// persisted later outlives it only while no block was opened.
pub proof fn law_cache_failure_is_fatal_without_a_way_out(
    t: WriteType,
    info: FileInfo,
    strategy: WriteStrategy,
    err: Error,
    opened: bool,
    ignore: bool,
    r: bool,
)
    requires
        call_ensures(resolve_write_strategy, (Some(t.proto().number()), &info), strategy),
        call_ensures(cache_write_failure_is_fatal, (&err, &strategy, opened, ignore), r),
    ensures
        t is MustCache || t is TryCache ==> r,
        t is AsyncThrough && opened ==> r,
        err is AuthenticationFailed || err is PermissionDenied ==> r,
        err is ResourceExhausted || err is InvalidArgument ==> r,
        !opened && !ignore ==> r,
        (t is CacheThrough || t is Through) && (opened || ignore) && !(err
            is AuthenticationFailed || err is PermissionDenied || err is ResourceExhausted || err
            is InvalidArgument) ==> !r,
        t is AsyncThrough && !opened && ignore && !(err is AuthenticationFailed || err
            is PermissionDenied || err is ResourceExhausted || err is InvalidArgument) ==> !r,
{
}

/// The stream to the storage is opened with the options of the file in the storage, as a
/// stream over the whole file.
pub proof fn law_storage_stream_is_opened_for_the_file(
    op: OpenUfsOp,
    w: &mut GoosefsFileWriter,
    endpoint: &str,
    r: (OpenUfsOp, OpenUfsAction),
)
    requires
        call_ensures(OpenUfsOp::step, (op, w, endpoint, Ok(())), r),
    ensures
        op.phase is Acquire ==> (r.1 matches OpenUfsAction::OpenStream { block_id, length, options }
            && block_id == -1 && length == i64::MAX && options == old(w).strategy.create_ufs_file_options) && *final(w) == *old(w),
        op.phase is OpenStream ==> r.1 == OpenUfsAction::Done(Ok(()))
            && final(w).flags.ufs_stream_open && (final(w).ufs_worker_addr matches Some(s) && s@
            == endpoint@) && final(w).total_bytes_written == old(w).total_bytes_written,
{
}

/// A worker on which the stream to the storage could not be opened counts as failed, and
/// the failure is handed on.
pub proof fn law_failed_storage_stream_is_handed_on(
    op: OpenUfsOp,
    w: &mut GoosefsFileWriter,
    endpoint: &str,
    e: Error,
    r: (OpenUfsOp, OpenUfsAction),
)
    requires
        call_ensures(OpenUfsOp::step, (op, w, endpoint, Err(e)), r),
    ensures
        *final(w) == *old(w),
        op.phase matches OpenUfsPhase::Acquire(a) ==> r.1 == OpenUfsAction::MarkFailed(a)
            && r.0.phase == OpenUfsPhase::Failed(e),
        op.phase matches OpenUfsPhase::OpenStream(a) ==> r.1 == OpenUfsAction::MarkFailed(a)
            && r.0.phase == OpenUfsPhase::Failed(e),
        op.phase matches OpenUfsPhase::Failed(first) ==> r.1 == OpenUfsAction::Done(Err(first)),
{
}

/// A file that goes to the storage at once gets its stream there before it is handed
/// out, so that it comes to be there even if nothing is written; where that fails, the
/// writer is cancelled and the failure handed on.
pub proof fn law_creation_opens_the_storage_stream(
    op: CreateOp,
    w: &mut GoosefsFileWriter,
    outcome: Result<()>,
    r: (CreateOp, CreateAction),
)
    requires
        call_ensures(CreateOp::step, (op, w, outcome), r),
    ensures
        op.phase is Invalidate ==> r.1 is InitRouter == old(w).strategy.ufs_stream,
        op.phase is Invalidate && !old(w).strategy.ufs_stream ==> r.1 == CreateAction::Done(Ok(())),
        op.phase is Router && outcome is Ok ==> r.1 is OpenUfs,
        op.phase is OpenUfs && outcome is Ok ==> r.1 == CreateAction::Done(Ok(()))
            && !(final(w).flags.cancelled && !old(w).flags.cancelled),
        (op.phase is Router || op.phase is OpenUfs) && outcome is Err ==> r.1 == CreateAction::Done(
            Err(outcome->Err_0),
        ) && final(w).flags.cancelled,
{
}

/// A flush reaches the stream to the storage where it is open, and after it the block of
/// a file that is persisted later, whose pending bytes go before.
pub proof fn law_flush_reaches_what_is_open(
    w: &mut GoosefsFileWriter,
    r: (FlushOp, FlushAction),
)
    requires
        call_ensures(FlushOp::start, (w,), r),
    ensures
        old(w).flags.closed || old(w).flags.cancelled ==> (r.1 matches FlushAction::Done(Err(e))
            && e is BlockIoError) && *final(w) == *old(w),
        !(old(w).flags.closed || old(w).flags.cancelled) && old(w).flags.ufs_stream_open
            ==> r.1 is FlushUfs,
        r.1 matches FlushAction::WriteTail(tail) ==> old(w).current_block is Some && tail@ == old(w).current_block->0.pending_chunk@ && final(w).current_block->0.pending_chunk@.len() == 0,
        !(old(w).flags.closed || old(w).flags.cancelled) && !old(w).flags.ufs_stream_open && old(w).strategy.need_async_persist && old(w).policy.file_async_persist_flush_enabled && old(w).current_block is Some && old(w).current_block->0.bytes_written > 0 ==> r.1 is FlushBlock
            || r.1 is WriteTail,
        r.1 is FlushBlock ==> old(w).current_block is Some
            && old(w).current_block->0.pending_chunk@.len() == 0,
        !(old(w).flags.closed || old(w).flags.cancelled) && !old(w).flags.ufs_stream_open && (!old(w).strategy.need_async_persist || !old(w).policy.file_async_persist_flush_enabled || old(w).current_block is None || old(w).current_block->0.bytes_written == 0) ==> r.1
            == FlushAction::Done(Ok(())) && *final(w) == *old(w),
{
}

/// A flush that fails ends with that failure, and pending bytes that were sent are
/// flushed after.
pub proof fn law_flush_goes_on(
    op: FlushOp,
    w: &mut GoosefsFileWriter,
    outcome: Result<()>,
    r: (FlushOp, FlushAction),
)
    requires
        call_ensures(FlushOp::step, (op, w, outcome), r),
    ensures
        outcome matches Err(e) ==> r.1 == FlushAction::Done(Err(e)),
        op.phase is Tail && outcome is Ok ==> r.1 is FlushBlock,
        op.phase is FlushBlock && outcome is Ok ==> (r.1 matches FlushAction::Done(Ok(_))),
        r.1 matches FlushAction::WriteTail(tail) ==> old(w).current_block is Some && tail@ == old(w).current_block->0.pending_chunk@,
{
}

/// Closing a block sends its pending bytes, or flushes it, or cancels it if it has no
/// bytes; where it starts in the file is the size of a block times the blocks before it.
pub proof fn law_block_is_closed_where_it_lies(
    w: &mut GoosefsFileWriter,
    report: bool,
    r: (CloseBlockOp, CloseBlockAction),
)
    requires
        call_ensures(CloseBlockOp::start, (w, report), r),
        old(w).current_block is Some,
    ensures
        final(w).current_block is None,
        r.0.block_id == old(w).current_block->0.block_id,
        r.0.location is None && r.0.commit_location == report,
        old(w).committed_block_ids@.len() * old(w).current_block->0.block_size <= i64::MAX && old(w).current_block->0.block_size > 0 ==> r.0.block_offset == old(w).committed_block_ids@.len() * old(w).current_block->0.block_size,
        old(w).current_block->0.bytes_written == 0 ==> r.1 is Cancel,
        old(w).current_block->0.bytes_written > 0 && old(w).current_block->0.pending_chunk@.len() > 0 ==> (r.1 matches CloseBlockAction::WriteTail(
            tail,
        ) && tail@ == old(w).current_block->0.pending_chunk@),
        old(w).current_block->0.bytes_written > 0 && old(w).current_block->0.pending_chunk@.len() == 0 ==> r.1 is Flush,
        r.0.block matches Some(b) && b.replicas == old(w).current_block->0.replicas
            && b.bytes_written == old(w).current_block->0.bytes_written,
{
    let place = old(w).committed_block_ids@.len();
    let size = old(w).current_block->0.block_size;
    if place * size <= i64::MAX && size > 0 {
        crate::io::read_laws::lemma_product_fits(place as int, size as int);
    }
}

/// A block that was flushed is located, its streams are closed, and it is noted; the
/// master is told where it is if that was asked for and the file is persisted later.
pub proof fn law_flushed_block_is_noted(
    op: CloseBlockOp,
    w: &mut GoosefsFileWriter,
    r: (CloseBlockOp, CloseBlockAction),
)
    requires
        call_ensures(CloseBlockOp::step, (op, w, Ok(())), r),
    ensures
        op.phase is Tail ==> r.1 is Flush,
        op.phase is Flush ==> r.1 is CloseStreams && op.block is Some && (r.0.location is Some <==>
            op.block->0.replicas@.len() > 0),
        op.phase is Flush && r.0.location is Some ==> r.0.location->0.block_id == Some(
            op.block->0.block_id,
        ) && r.0.location->0.offset == Some(op.block_offset) && r.0.location->0.worker_id@.len()
            == op.block->0.replicas@.len() && (op.block->0.bytes_written <= i64::MAX
            ==> r.0.location->0.length == Some(op.block->0.bytes_written as i64)),
        op.phase is Flush && r.0.location is Some ==> forall|i: int|
            0 <= i < op.block->0.replicas@.len() ==> r.0.location->0.worker_id@[i] == (
            #[trigger] op.block->0.replicas@[i]).worker_id,
        op.phase is Streams && op.commit_location && old(w).strategy.need_async_persist
            && op.location is Some ==> (r.1 matches CloseBlockAction::CommitLocation {
            block_id,
            location,
        } && block_id == op.block_id && location.block_id == op.location->0.block_id
            && location.offset == op.location->0.offset && location.length
            == op.location->0.length && location.worker_id@ == op.location->0.worker_id@),
        op.phase is Streams && !(op.commit_location && old(w).strategy.need_async_persist
            && op.location is Some) ==> r.1 == CloseBlockAction::Done(Ok(op.location))
            && final(w).committed_block_ids@ == old(w).committed_block_ids@.push(op.block_id),
        op.phase is Commit ==> r.1 == CloseBlockAction::Done(Ok(op.location))
            && final(w).committed_block_ids@ == old(w).committed_block_ids@.push(op.block_id),
        op.phase == CloseBlockPhase::Cancel(None) ==> r.1 == CloseBlockAction::Done(Ok(None)),
        op.phase matches CloseBlockPhase::Cancel(Some(e)) ==> r.1 == CloseBlockAction::Done(Err(e)),
{
}

/// A block that could not be written or flushed is cancelled, and the failure handed on.
pub proof fn law_failed_block_is_cancelled(
    op: CloseBlockOp,
    w: &mut GoosefsFileWriter,
    e: Error,
    r: (CloseBlockOp, CloseBlockAction),
)
    requires
        call_ensures(CloseBlockOp::step, (op, w, Err(e)), r),
    ensures
        op.phase is Tail || op.phase is Flush ==> r.1 is Cancel && r.0.phase
            == CloseBlockPhase::Cancel(Some(e)),
        op.phase is Streams || op.phase is Commit ==> r.1 == CloseBlockAction::Done(Err(e)),
        op.phase is Streams ==> final(w).committed_block_ids@ == old(w).committed_block_ids@.push(
            op.block_id,
        ),
        op.phase is Commit ==> final(w).committed_block_ids@ == old(w).committed_block_ids@,
{
}

/// Closing ends the writer; it deals with the stream to the storage first and with the
/// block then.
pub proof fn law_close_starts_with_the_storage(
    w: &mut GoosefsFileWriter,
    r: (CloseOp, CloseAction),
)
    requires
        call_ensures(CloseOp::start, (w,), r),
    ensures
        final(w).flags.closed,
        old(w).flags.closed || old(w).flags.cancelled ==> r.1 == CloseAction::Done(Ok(())),
        !(old(w).flags.closed || old(w).flags.cancelled) ==> if old(w).flags.ufs_stream_open {
            r.1 is FlushUfs
        } else {
            r.1 is CloseBlock
        },
        !(old(w).flags.closed || old(w).flags.cancelled) ==> !final(w).flags.ufs_stream_open,
        final(w).current_block == old(w).current_block,
        final(w).committed_block_ids == old(w).committed_block_ids,
        final(w).total_bytes_written == old(w).total_bytes_written,
        final(w).flags.completed == old(w).flags.completed,
{
}

/// What succeeded leads on to the completion by the master, and that to success: the
/// stream to the storage is flushed and closed, then the block is closed, then the file
/// is completed and what is cached of it dropped.
pub proof fn law_close_leads_to_completion(
    op: CloseOp,
    w: &mut GoosefsFileWriter,
    last: Option<FileLocation>,
    r: (CloseOp, CloseAction),
)
    requires
        call_ensures(CloseOp::step, (op, w, Ok(last)), r),
    ensures
        op.phase is FlushUfs ==> r.1 is CloseUfs,
        op.phase is CloseUfs ==> r.1 is CloseBlock && final(w).flags.ufs_stream_completed,
        op.phase is CloseBlock ==> r.1 is Complete,
        op.phase is Complete || op.phase is Recover ==> r.1 is Invalidate,
        op.phase is Invalidate ==> r.1 == CloseAction::Done(Ok(())) && final(w).flags.completed,
        op.phase matches ClosePhase::Cleanup(e) ==> r.1 == CloseAction::Done(Err(e)),
        op.phase matches ClosePhase::CancelUfs(e) ==> r.1 is Cleanup && r.0.phase
            == ClosePhase::Cleanup(e),
        r.1 matches CloseAction::Complete(options) ==> old(w).total_bytes_written <= i64::MAX
            ==> (options.ufs_length matches Some(n) && n == old(w).total_bytes_written),
        r.1 matches CloseAction::Complete(options) ==> (old(w).strategy.need_async_persist && last
            is Some ==> options.locations@.len() == 1 && options.locations@[0] == last->0),
        r.1 matches CloseAction::Complete(options) ==> (!old(w).strategy.need_async_persist || last
            is None ==> options.locations@.len() == 0),
        r.1 matches CloseAction::Complete(options) ==> (old(w).strategy.need_async_persist && old(w).flags.ufs_stream_completed ==> options.force_persisted == Some(true)
            && options.async_persist_options is None),
        r.1 matches CloseAction::Complete(options) ==> (old(w).strategy.need_async_persist && !old(w).flags.ufs_stream_completed && old(w).policy.file_persistence_initial_wait_time_ms != -1
            ==> options.force_persisted is None && (options.async_persist_options matches Some(p)
            && p.persistence_wait_time == Some(
            old(w).policy.file_persistence_initial_wait_time_ms,
        ))),
        r.1 matches CloseAction::Complete(options) ==> (!old(w).strategy.need_async_persist
            ==> options.force_persisted is None && options.async_persist_options is None),
        !(op.phase is Invalidate) ==> final(w).flags.completed == old(w).flags.completed,
{
}

/// What failed before the completion is cleaned up, with all that the writer has left,
/// and then handed on; a failed completion is recovered from, and fails if that fails.
pub proof fn law_failed_close_is_cleaned_up(
    op: CloseOp,
    w: &mut GoosefsFileWriter,
    e: Error,
    r: (CloseOp, CloseAction),
)
    requires
        call_ensures(CloseOp::step, (op, w, Err(e)), r),
    ensures
        op.phase is FlushUfs ==> r.1 is CancelUfs && r.0.phase == ClosePhase::CancelUfs(e),
        op.phase is CloseUfs || op.phase is CloseBlock ==> r.0.phase == ClosePhase::Cleanup(e) && (
        r.1 matches CloseAction::Cleanup(rest) && rest.block == old(w).current_block
            && rest.committed_block_ids@ == old(w).committed_block_ids@ && rest.ufs_stream_open
            == old(w).flags.ufs_stream_open),
        op.phase is Complete ==> r.1 == CloseAction::Recover(e),
        op.phase is Recover ==> r.1 == CloseAction::Done(Err(e)),
        op.phase matches ClosePhase::Cleanup(first) ==> r.1 == CloseAction::Done(Err(first)),
        !(op.phase is Invalidate) ==> final(w).flags.completed == old(w).flags.completed,
{
}

/// A file that is in the storage is recovered from there: the master's entry alone is
/// deleted, and the file is read anew. Any other failed completion stands.
pub proof fn law_stored_file_is_recovered(
    w: GoosefsFileWriter,
    err: Error,
    r: (RecoverOp, RecoverAction),
)
    requires
        call_ensures(RecoverOp::start, (&w, err), r),
    ensures
        !w.flags.ufs_stream_completed ==> r.1 == RecoverAction::Done(Err(err)),
        w.flags.ufs_stream_completed && (w.strategy.ufs_stream || w.strategy.need_async_persist)
            ==> (r.1 matches RecoverAction::DeleteEntry(o) && o.goosefs_only && !o.recursive)
            && r.0.phase == RecoverPhase::Delete(err),
{
}

/// A recovery succeeds exactly if the entry was deleted and the file read anew; else the
/// error of the completion stands.
pub proof fn law_recovery_succeeds_or_keeps_the_error(
    op: RecoverOp,
    outcome: Result<()>,
    r: (RecoverOp, RecoverAction),
)
    requires
        call_ensures(RecoverOp::step, (op, outcome), r),
    ensures
        op.phase matches RecoverPhase::Delete(e) ==> outcome is Ok ==> r.0.phase
            == RecoverPhase::Reload(e) && (r.1 matches RecoverAction::Reload {
            load_type,
            sync_interval_ms,
        } && load_type is Always && sync_interval_ms == 0),
        op.phase matches RecoverPhase::Delete(e) ==> outcome is Err ==> r.1 == RecoverAction::Done(
            Err(e),
        ),
        op.phase matches RecoverPhase::Reload(e) ==> outcome is Err ==> r.1 == RecoverAction::Done(
            Err(e),
        ),
        op.phase is Reload && outcome is Ok ==> r.1 is Invalidate,
        op.phase is Invalidate ==> r.1 == RecoverAction::Done(Ok(())),
{
}

/// Cancelling gives up all that the writer has left, once.
pub proof fn law_cancel_gives_up_everything(
    w: &mut GoosefsFileWriter,
    r: (CancelOp, CancelAction),
)
    requires
        call_ensures(CancelOp::start, (w,), r),
    ensures
        old(w).flags.closed || old(w).flags.cancelled ==> r.1 is Done && *final(w) == *old(w),
        !(old(w).flags.closed || old(w).flags.cancelled) ==> final(w).flags.cancelled
            && final(w).current_block is None && !final(w).flags.ufs_stream_open && (r.1 matches
            CancelAction::Cleanup(rest) && rest.block == old(w).current_block
            && rest.committed_block_ids@ == old(w).committed_block_ids@ && rest.ufs_stream_open
            == old(w).flags.ufs_stream_open),
{
}

/// What is cached of a cancelled file is dropped after the clean-up.
pub proof fn law_cancel_invalidates(op: CancelOp, r: (CancelOp, CancelAction))
    requires
        call_ensures(CancelOp::step, (op,), r),
    ensures
        op.phase is Cleanup ==> r.1 is Invalidate && r.0.phase is Invalidate,
        op.phase is Invalidate ==> r.1 is Done,
{
}

/// A writer that goes out of use gives up all that it has left, unless it was closed or
/// cancelled.
pub proof fn law_dropped_writer_gives_up_everything(
    w: &mut GoosefsFileWriter,
    r: Option<Remains>,
)
    requires
        call_ensures(GoosefsFileWriter::perform_drop_cleanup, (w,), r),
    ensures
        r is None <==> old(w).flags.closed || old(w).flags.cancelled,
        r is None ==> *final(w) == *old(w),
        r matches Some(rest) ==> rest.block == old(w).current_block && rest.committed_block_ids@
            == old(w).committed_block_ids@ && rest.ufs_stream_open == old(w).flags.ufs_stream_open
            && final(w).flags.cancelled && !final(w).flags.ufs_stream_open && final(w).current_block
            is None && final(w).committed_block_ids@.len() == 0,
{
}

/// The clean-up cancels the stream to the storage, then the open block, then has every
/// committed block removed.
pub proof fn law_clean_up_leaves_nothing(
    rest: Remains,
    r: (CleanupOp, CleanupAction),
)
    requires
        call_ensures(CleanupOp::start, (rest,), r),
    ensures
        rest.ufs_stream_open ==> r.1 is CancelUfs && r.0.rest == rest,
        !rest.ufs_stream_open && rest.block is Some ==> r.1 == CleanupAction::CancelBlock(
            rest.block->0,
        ) && r.0.rest.committed_block_ids@ == rest.committed_block_ids@,
        !rest.ufs_stream_open && rest.block is None && rest.committed_block_ids@.len() > 0 ==> (r.1
            matches CleanupAction::RemoveBlocks(v) && v@ == rest.committed_block_ids@),
        !rest.ufs_stream_open && rest.block is None && rest.committed_block_ids@.len() == 0 ==> r.1
            is Done,
{
}

/// The same of every further step; the file itself is deleted exactly if its blocks
/// could not be removed.
pub proof fn law_clean_up_goes_on(
    op: CleanupOp,
    outcome: Result<()>,
    r: (CleanupOp, CleanupAction),
)
    requires
        call_ensures(CleanupOp::step, (op, outcome), r),
    ensures
        op.phase is Ufs && op.rest.block is Some ==> r.1 == CleanupAction::CancelBlock(
            op.rest.block->0,
        ) && r.0.rest.committed_block_ids@ == op.rest.committed_block_ids@,
        (op.phase is Block || (op.phase is Ufs && op.rest.block is None))
            && op.rest.committed_block_ids@.len() > 0 ==> (r.1 matches CleanupAction::RemoveBlocks(
            v,
        ) && v@ == op.rest.committed_block_ids@),
        op.phase is Remove ==> (r.1 is DeleteFile <==> outcome is Err),
        r.1 matches CleanupAction::DeleteFile(o) ==> op.phase is Remove && o.unchecked
            && !o.recursive && !o.goosefs_only,
{
}

/// A field of the options that the caller gave is kept, and one that was left out comes
/// from the settings; a block size of zero counts as left out.
pub proof fn law_given_options_are_kept(
    given: CreateFilePOptions,
    policy: WritePolicy,
    mode: PMode,
    r: CreateFilePOptions,
)
    requires
        call_ensures(complete_create_options, (Some(given), &policy, mode), r),
    ensures
        given.recursive is Some ==> r.recursive == given.recursive,
        given.recursive is None ==> r.recursive == Some(true),
        given.block_size_bytes matches Some(n) ==> n != 0 ==> r.block_size_bytes == Some(n),
        given.block_size_bytes is None || given.block_size_bytes == Some(0i64)
            ==> policy.block_size <= i64::MAX ==> r.block_size_bytes == Some(
            policy.block_size as i64,
        ),
        given.mode is Some ==> r.mode == given.mode,
        given.mode is None ==> r.mode == Some(mode),
        given.write_type is Some ==> r.write_type == given.write_type,
        given.write_type is None ==> r.write_type == policy.write_type,
        r.replication_max == given.replication_max,
{
}

/// Without options every field comes from the settings.
pub proof fn law_missing_options_come_from_the_settings(
    policy: WritePolicy,
    mode: PMode,
    r: CreateFilePOptions,
)
    requires
        call_ensures(complete_create_options, (None, &policy, mode), r),
    ensures
        r.recursive == Some(true),
        policy.block_size <= i64::MAX ==> r.block_size_bytes == Some(policy.block_size as i64),
        r.mode == Some(mode),
        r.write_type == policy.write_type,
        r.replication_max is None,
{
}

/// A file that is persisted later is declared persisted if it is in the storage already,
/// and else scheduled after the given wait, unless that keeps it from being persisted; of
/// any other file nothing is said.
pub proof fn law_persistence_is_declared_or_scheduled(
    later: bool,
    stored: bool,
    wait: i64,
    r: (Option<bool>, Option<ScheduleAsyncPersistencePOptions>),
)
    requires
        call_ensures(resolve_persist_options, (later, stored, wait), r),
    ensures
        r.0 is Some <==> later && stored,
        r.0 matches Some(b) ==> b,
        r.1 is Some <==> later && !stored && wait != -1,
        r.1 matches Some(p) ==> p.persistence_wait_time == Some(wait),
{
}

/// The location of the last block goes to the master with the completion of a file that
/// is persisted later, and with no other.
pub proof fn law_last_location_goes_along(
    later: bool,
    last: Option<FileLocation>,
    r: Vec<FileLocation>,
)
    requires
        call_ensures(complete_file_locations, (later, last), r),
    ensures
        r@.len() == 1 <==> later && last is Some,
        r@.len() <= 1,
        r@.len() == 1 ==> r@[0] == last->0,
{
}

/// Without workers nothing can be written to the cache; with some the router is ready.
pub proof fn law_router_needs_workers(w: &mut GoosefsFileWriter, n: usize, r: Result<()>)
    requires
        call_ensures(GoosefsFileWriter::router_ready, (w, n), r),
    ensures
        (r is Ok) == (n > 0),
        r is Ok ==> !final(w).flags.router_needs_init,
        r matches Err(e) ==> e is NoWorkerAvailable && *final(w) == *old(w),
        final(w).total_bytes_written == old(w).total_bytes_written && final(w).file_info == old(w).file_info && final(w).current_block == old(w).current_block,
{
}

/// An opened stream to the storage is noted with its worker.
pub proof fn law_opened_storage_stream_is_noted(w: &mut GoosefsFileWriter, addr: String)
    requires
        call_ensures(GoosefsFileWriter::ufs_opened, (w, addr), ()),
    ensures
        final(w).flags.ufs_stream_open && final(w).ufs_worker_addr == Some(addr),
        final(w).total_bytes_written == old(w).total_bytes_written && final(w).current_block
            == old(w).current_block && final(w).file_info == old(w).file_info,
{
}

/// A writer tells what was written and how it ended.
pub proof fn law_writer_tells_its_state(
    w: GoosefsFileWriter,
    n: u64,
    completed: bool,
    cancelled: bool,
)
    requires
        call_ensures(GoosefsFileWriter::bytes_written, (&w,), n),
        call_ensures(GoosefsFileWriter::is_completed, (&w,), completed),
        call_ensures(GoosefsFileWriter::is_cancelled, (&w,), cancelled),
    ensures
        n == w.total_bytes_written,
        completed == w.flags.completed,
        cancelled == w.flags.cancelled,
{
}

/// What is left to clean up is what was open and what was committed, and the writer has
/// nothing open any more.
pub proof fn law_remains_are_taken_out(w: &mut GoosefsFileWriter, r: Remains)
    requires
        call_ensures(GoosefsFileWriter::take_remains, (w,), r),
    ensures
        r.ufs_stream_open == old(w).flags.ufs_stream_open,
        r.block == old(w).current_block,
        r.committed_block_ids@ == old(w).committed_block_ids@,
        !final(w).flags.ufs_stream_open && final(w).current_block is None && final(w).ufs_worker_addr is None,
        final(w).committed_block_ids == old(w).committed_block_ids && final(w).total_bytes_written
            == old(w).total_bytes_written,
{
}

/// An endpoint is the host before the colon and the port behind it.
pub proof fn law_endpoint_gives_host_and_port(
    endpoint: &str,
    host: Seq<char>,
    port: nat,
    r: WorkerNetAddress,
)
    requires
        call_ensures(address_of_endpoint, (endpoint,), r),
        endpoint@ == host.push(':') + decimal(port),
        forall|i: int| 0 <= i < host.len() ==> host[i] != ':',
        port <= i32::MAX,
    ensures
        r.host matches Some(h) && h@ == host,
        r.rpc_port == Some(port as i32),
{
    crate::text_laws::law_decimal_numeral_has_its_value(port, i32::MAX as int);
    crate::text_laws::lemma_first_behind(host, ':', decimal(port));
    let d = decimal(port);
    crate::text::lemma_first_from(d, ':', 0);
    let f = crate::text::first_from(d, ':', 0);
    if f < d.len() {
        assert(crate::text::is_digit(d[f]));
    }
    assert(crate::text::pieces(d, ':') =~= seq![d]);
    assert(crate::text::pieces(endpoint@, ':')[0] == host);
    assert(crate::text::pieces(endpoint@, ':')[1] == d);
    assert(crate::text::is_digit(d[0]));
}

/// Credentials are rejected by a failed login and by a denied permission.
pub proof fn law_rejected_credentials(e: Error, r: bool)
    requires
        call_ensures(is_credentials_rejected, (&e,), r),
    ensures
        r == (e is AuthenticationFailed || e is PermissionDenied),
{
}

/// An operation is named by both halves of its identifier, and a write has enough
/// replicas if it has as many as are needed.
pub proof fn law_operation_is_named_by_both_halves(
    high: u64,
    low: u64,
    r: FsOpPId,
    success: usize,
    needed: usize,
    enough: bool,
)
    requires
        call_ensures(fs_op_pid, (high, low), r),
        call_ensures(enough_replicas, (success, needed), enough),
    ensures
        r.most_significant_bits is Some && r.most_significant_bits->0 as u64 == high,
        r.least_significant_bits is Some && r.least_significant_bits->0 as u64 == low,
        enough == (success >= needed),
{
    let h = high as i64;
    let l = low as i64;
    assert(h as u64 == high) by (bit_vector)
        requires
            h == high as i64,
    ;
    assert(l as u64 == low) by (bit_vector)
        requires
            l == low as i64,
    ;
}

/// Creation drops what the cache knows of the path before anything else.
pub proof fn law_creation_starts_with_the_invalidation(r: (CreateOp, CreateAction))
    requires
        call_ensures(CreateOp::start, (), r),
    ensures
        r.1 is Invalidate,
{
}

/// The stream to the storage is opened on the worker that was picked, at its address.
pub proof fn law_storage_stream_goes_to_the_picked_worker(
    picked: Result<WorkerInfo>,
    r: (OpenUfsOp, OpenUfsAction),
)
    requires
        call_ensures(OpenUfsOp::start, (picked,), r),
    ensures
        picked matches Err(e) ==> r.1 == OpenUfsAction::Done(Err(e)),
        picked matches Ok(w) ==> (w.address matches Some(a) ==> r.1 == OpenUfsAction::Acquire(a)),
        picked matches Ok(w) ==> w.address is None ==> (r.1 matches OpenUfsAction::Done(Err(e)) && e
            is Internal),
{
}

/// Workers without room are taken in only where those with room are too few, and then all
/// that can be written.
pub proof fn law_workers_without_room_are_a_fallback(
    workers: Vec<WorkerInfo>,
    has_space: Vec<bool>,
    needed: usize,
    strict: Vec<WorkerInfo>,
    r: Vec<WorkerInfo>,
    i: int,
)
    requires
        call_ensures(filter_no_space_workers, (workers, &has_space, false, needed), strict),
        call_ensures(filter_no_space_workers, (workers, &has_space, true, needed), r),
        workers@.len() == has_space@.len(),
        0 <= i < workers@.len(),
    ensures
        strict@.len() >= needed ==> r@ == strict@,
        strict@.len() < needed && workers@[i].forbid_write != Some(true) ==> r@.contains(
            workers@[i],
        ),
{
    assert(workers@.take(workers@.len() as int) =~= workers@);
    if workers@[i].forbid_write != Some(true) {
        let writable = crate::io::replica_write::at_writable(workers@);
        lemma_chosen_keeps(workers@, workers@, writable, i);
    }
}

} // verus!
