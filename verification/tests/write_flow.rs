//! Writing of a file, from its creation to its end.

use goosefs_sdk::error::Error;
use goosefs_sdk::io::active_block::{
    close_outcome, ActiveBlockWriter, Fanout, ReplicaWriter, SendMode,
};
use goosefs_sdk::io::file_writer::{GoosefsFileWriter, WriteAction, WriteOp};
use goosefs_sdk::io::replica_opening::{eligible_workers, worker_address, ReplicaOpening};
use goosefs_sdk::io::replica_write::{replica_write_plan, ReplicaWritePlan};
use goosefs_sdk::io::write_strategy::WritePolicy;
use goosefs_sdk::io::writer::{FlushReply, GrpcBlockWriter};
use goosefs_sdk::io::writer_blocks::{FillAction, FillOp, OpenBlockAction, OpenBlockOp};
use goosefs_sdk::io::writer_close::{CloseBlockAction, CloseBlockOp};
use goosefs_sdk::io::writer_end::{
    CancelAction, CancelOp, CleanupAction, CleanupOp, CloseAction, CloseOp, RecoverAction,
    RecoverOp,
};
use goosefs_sdk::io::writer_streams::{
    address_of_endpoint, CreateAction, CreateOp, FlushAction, FlushOp, OpenUfsAction, OpenUfsOp,
};
use goosefs_sdk::proto::{FileInfo, LoadMetadataPType, WorkerInfo, WorkerNetAddress};

const MUST_CACHE: i32 = 1;
const CACHE_THROUGH: i32 = 3;
const THROUGH: i32 = 4;
const ASYNC_THROUGH: i32 = 5;

fn policy() -> WritePolicy {
    WritePolicy {
        block_size: 10,
        chunk_size: 4,
        write_type: None,
        file_replication_number: 1,
        file_replication_durable: 2,
        file_replication_durable_min: 2,
        file_write_max_node_retry: 3,
        file_async_persist_flush_enabled: true,
        file_persistence_initial_wait_time_ms: 0,
        local_ufs_client_ignore_block_stream_unknown_status: true,
    }
}

fn writer(write_type: i32) -> GoosefsFileWriter {
    let info = FileInfo {
        file_id: Some(3i64 << 24),
        ufs_path: Some("cosn://b/f".to_string()),
        ..Default::default()
    };
    let mut w = GoosefsFileWriter::new("/f", info, policy(), Some(write_type));
    w.router_ready(1).unwrap();
    w
}

fn failure(message: &str) -> Error {
    Error::BlockIoError {
        message: message.to_string(),
    }
}

fn replica(ordinal: usize) -> ReplicaWriter {
    ReplicaWriter {
        ordinal,
        worker_id: 100 + ordinal as i64,
        worker_addr: format!("w{}:9203", ordinal),
        net_address: WorkerNetAddress {
            host: Some(format!("w{}", ordinal)),
            rpc_port: Some(9203),
        },
    }
}

fn block(id: i64, replicas: usize, parallel: bool, min_needed: usize) -> ActiveBlockWriter {
    let all = (0..replicas).map(replica).collect();
    ActiveBlockWriter::new(all, id, 10, parallel, min_needed)
}

#[derive(Default)]
struct Store {
    chunks: Vec<(i64, Vec<u8>)>,
    blocks: Vec<i64>,
}

fn close_block(w: &mut GoosefsFileWriter, store: &mut Store) {
    let id = w.current_block.as_ref().unwrap().block_id;
    let (mut op, mut action) = CloseBlockOp::start(w, true);
    loop {
        match action {
            CloseBlockAction::WriteTail(tail) => store.chunks.push((id, tail)),
            CloseBlockAction::Done(result) => {
                result.unwrap();
                store.blocks.push(id);
                return;
            }
            _ => {}
        }
        (op, action) = op.step(w, Ok(()));
    }
}

fn open_block(w: &mut GoosefsFileWriter, store: &mut Store) {
    let (mut op, mut action) = OpenBlockOp::start(w);
    loop {
        let outcome = match action {
            OpenBlockAction::ClosePrevious => {
                close_block(w, store);
                None
            }
            OpenBlockAction::OpenReplicas { block_id, block_size, .. } => {
                assert_eq!(block_size, 10);
                Some(block(block_id, 1, false, 1))
            }
            OpenBlockAction::Done(result) => return result.unwrap(),
        };
        (op, action) = op.step(w, Ok(outcome));
    }
}

fn fill(w: &mut GoosefsFileWriter, store: &mut Store, data: &[u8]) {
    let (mut op, mut action) = FillOp::start(w, data);
    loop {
        match action {
            FillAction::OpenBlock => open_block(w, store),
            FillAction::WriteChunk(chunk) => {
                let id = w.current_block.as_ref().unwrap().block_id;
                store.chunks.push((id, chunk));
            }
            FillAction::CloseBlock => close_block(w, store),
            FillAction::Done(result) => return result.unwrap(),
        }
        (op, action) = op.step(w, data, Ok(()));
    }
}

#[test]
fn bytes_reach_the_blocks_once_and_in_order() {
    let data: Vec<u8> = (0..37u8).collect();
    for cut in [1usize, 3, 10, 11, 37] {
        let mut w = writer(MUST_CACHE);
        let mut store = Store::default();
        for part in data.chunks(cut) {
            fill(&mut w, &mut store, part);
        }
        close_block(&mut w, &mut store);
        let sent: Vec<u8> = store.chunks.iter().flat_map(|(_, c)| c.clone()).collect();
        assert_eq!(sent, data);
        for (place, id) in store.blocks.iter().enumerate() {
            let inside: usize = store
                .chunks
                .iter()
                .filter(|(b, _)| b == id)
                .map(|(_, c)| c.len())
                .sum();
            assert_eq!(*id, (3i64 << 24) + place as i64);
            assert_eq!(inside, if place == 3 { 7 } else { 10 });
        }
        assert_eq!(w.committed_block_ids, store.blocks);
        assert!(store.chunks.iter().all(|(_, c)| c.len() <= 4));
    }
}

#[test]
fn write_goes_to_cache_and_storage() {
    let mut w = writer(CACHE_THROUGH);
    let (op, action) = WriteOp::start(&mut w, 5);
    assert!(matches!(action, WriteAction::WriteCache));
    let (op, action) = op.step(&mut w, Ok(()));
    assert!(matches!(action, WriteAction::OpenUfs));
    w.ufs_opened("w0:9203".to_string());
    let (op, action) = op.step(&mut w, Ok(()));
    assert!(matches!(action, WriteAction::SendUfs));
    let (_, action) = op.step(&mut w, Ok(()));
    assert!(matches!(action, WriteAction::Done(Ok(()))));
    assert_eq!(w.bytes_written(), 5);
    assert_eq!(w.tally.local, 5);
    assert_eq!(w.tally.ufs, 5);
}

#[test]
fn write_through_skips_the_cache() {
    let mut w = writer(THROUGH);
    w.ufs_opened("w0:9203".to_string());
    let (op, action) = WriteOp::start(&mut w, 5);
    assert!(matches!(action, WriteAction::SendUfs));
    let (op, action) = op.step(&mut w, Err(failure("gone")));
    assert!(matches!(
        action,
        WriteAction::TearDownUfs { worker_addr: Some(ref a) } if a == "w0:9203"
    ));
    let (_, action) = op.step(&mut w, Ok(()));
    assert!(matches!(action, WriteAction::Done(Err(Error::BlockIoError { .. }))));
    assert_eq!(w.bytes_written(), 0);
}

#[test]
fn failed_cache_write_falls_back_to_the_storage() {
    let mut w = writer(CACHE_THROUGH);
    w.ufs_opened("w0:9203".to_string());
    let (op, _) = WriteOp::start(&mut w, 5);
    let (op, action) = op.step(&mut w, Err(failure("worker went away")));
    assert!(matches!(
        action,
        WriteAction::TearDownBlock { block: None, blacklist: true }
    ));
    let (op, action) = op.step(&mut w, Ok(()));
    assert!(matches!(action, WriteAction::SendUfs));
    let (_, action) = op.step(&mut w, Ok(()));
    assert!(matches!(action, WriteAction::Done(Ok(()))));
    assert!(!w.flags.should_cache);
    assert_eq!(w.tally.degraded, 1);
    assert_eq!(w.bytes_written(), 5);
}

#[test]
fn fatal_cache_failure_cancels_the_writer() {
    let mut w = writer(MUST_CACHE);
    let (op, _) = WriteOp::start(&mut w, 5);
    let denied = Error::AuthenticationFailed {
        message: "token".to_string(),
    };
    let (op, action) = op.step(&mut w, Err(denied));
    assert!(matches!(
        action,
        WriteAction::TearDownBlock { blacklist: false, .. }
    ));
    let (_, action) = op.step(&mut w, Ok(()));
    assert!(matches!(
        action,
        WriteAction::Done(Err(Error::AuthenticationFailed { .. }))
    ));
    assert!(w.is_cancelled());
    let (_, action) = WriteOp::start(&mut w, 1);
    assert!(matches!(
        action,
        WriteAction::Done(Err(Error::BlockIoError { message })) if message == "cannot write to a completed or cancelled file"
    ));
}

#[test]
fn workers_are_asked_for_before_the_first_write() {
    let mut w = GoosefsFileWriter::new("/f", FileInfo::default(), policy(), Some(MUST_CACHE));
    let (op, action) = WriteOp::start(&mut w, 5);
    assert!(matches!(action, WriteAction::InitRouter));
    let none = w.router_ready(0);
    assert!(matches!(none, Err(Error::NoWorkerAvailable { .. })));
    let (_, action) = op.step(&mut w, none);
    assert!(matches!(action, WriteAction::Done(Err(_))));
    let (_, action) = WriteOp::start(&mut w, 0);
    assert!(matches!(action, WriteAction::Done(Ok(()))));
}

#[test]
fn chunk_size_of_zero_is_refused() {
    let info = FileInfo::default();
    let mut w = GoosefsFileWriter::new("/f", info, WritePolicy { chunk_size: 0, ..policy() }, None);
    w.current_block = Some(block(1, 1, false, 1));
    w.flags.block_opened = true;
    let (_, action) = FillOp::start(&mut w, b"ab");
    assert!(matches!(
        action,
        FillAction::Done(Err(Error::InvalidArgument { message })) if message == "chunk_size must be > 0"
    ));
}

#[test]
fn block_is_tried_on_all_workers_once_more() {
    let mut w = writer(MUST_CACHE);
    let (op, action) = OpenBlockOp::start(&w);
    assert!(matches!(
        action,
        OpenBlockAction::OpenReplicas { use_all_workers: false, .. }
    ));
    let (op, action) = op.step(&mut w, Err(failure("a")));
    assert!(matches!(
        action,
        OpenBlockAction::OpenReplicas { use_all_workers: true, .. }
    ));
    let (_, action) = op.step(&mut w, Err(failure("b")));
    assert!(matches!(
        action,
        OpenBlockAction::Done(Err(Error::BlockIoError { message })) if message == "b"
    ));
    assert!(!w.flags.block_opened);
}

#[test]
fn durable_minimum_that_cannot_be_met_is_refused() {
    let bad = WritePolicy {
        file_replication_durable: 1,
        ..policy()
    };
    let w = GoosefsFileWriter::new("/f", FileInfo::default(), bad, Some(ASYNC_THROUGH));
    let (_, action) = OpenBlockOp::start(&w);
    assert!(matches!(
        action,
        OpenBlockAction::Done(Err(Error::InvalidArgument { .. }))
    ));
}

#[test]
fn location_of_an_asynchronous_block_is_committed() {
    let mut w = writer(ASYNC_THROUGH);
    let mut b = block(3i64 << 24, 2, true, 2);
    b.bytes_written = 6;
    b.pending_chunk = vec![9, 9];
    w.current_block = Some(b);
    w.flags.block_opened = true;
    let (op, action) = CloseBlockOp::start(&mut w, true);
    assert!(matches!(action, CloseBlockAction::WriteTail(ref t) if t == &vec![9, 9]));
    let (op, action) = op.step(&mut w, Ok(()));
    assert!(matches!(action, CloseBlockAction::Flush));
    let (op, action) = op.step(&mut w, Ok(()));
    assert!(matches!(action, CloseBlockAction::CloseStreams));
    let (op, action) = op.step(&mut w, Ok(()));
    match action {
        CloseBlockAction::CommitLocation { block_id, location } => {
            assert_eq!(block_id, 3i64 << 24);
            assert_eq!(location.offset, Some(0));
            assert_eq!(location.length, Some(6));
            assert_eq!(location.worker_id, vec![100, 101]);
        }
        other => panic!("unexpected {:?}", other),
    }
    let (_, action) = op.step(&mut w, Ok(()));
    assert!(matches!(action, CloseBlockAction::Done(Ok(Some(_)))));
    assert_eq!(w.committed_block_ids, vec![3i64 << 24]);
}

#[test]
fn empty_block_is_cancelled_and_failed_flush_too() {
    let mut w = writer(MUST_CACHE);
    w.current_block = Some(block(1, 1, false, 1));
    w.flags.block_opened = true;
    let (op, action) = CloseBlockOp::start(&mut w, true);
    assert!(matches!(action, CloseBlockAction::Cancel));
    let (_, action) = op.step(&mut w, Ok(()));
    assert!(matches!(action, CloseBlockAction::Done(Ok(None))));
    let mut b = block(1, 1, false, 1);
    b.bytes_written = 4;
    w.current_block = Some(b);
    let (op, action) = CloseBlockOp::start(&mut w, true);
    assert!(matches!(action, CloseBlockAction::Flush));
    let (op, action) = op.step(&mut w, Err(failure("x")));
    assert!(matches!(action, CloseBlockAction::Cancel));
    let (_, action) = op.step(&mut w, Ok(()));
    assert!(matches!(action, CloseBlockAction::Done(Err(_))));
    assert!(w.committed_block_ids.is_empty());
}

#[test]
fn close_completes_the_file_with_its_length() {
    let mut w = writer(CACHE_THROUGH);
    w.ufs_opened("w0:9203".to_string());
    w.total_bytes_written = 42;
    let (op, action) = CloseOp::start(&mut w);
    assert!(matches!(action, CloseAction::FlushUfs));
    let (op, action) = op.step(&mut w, Ok(None));
    assert!(matches!(action, CloseAction::CloseUfs));
    let (op, action) = op.step(&mut w, Ok(None));
    assert!(matches!(action, CloseAction::CloseBlock));
    let (op, action) = op.step(&mut w, Ok(None));
    match action {
        CloseAction::Complete(options) => {
            assert_eq!(options.ufs_length, Some(42));
            let (high, low) = w.operation_id.as_u64_pair();
            let id = options.operation_id.unwrap();
            assert_eq!(id.most_significant_bits, Some(high as i64));
            assert_eq!(id.least_significant_bits, Some(low as i64));
            assert!(options.locations.is_empty());
            assert_eq!(options.force_persisted, None);
        }
        other => panic!("unexpected {:?}", other),
    }
    assert!(!w.is_completed());
    let (op, action) = op.step(&mut w, Ok(None));
    assert!(matches!(action, CloseAction::Invalidate));
    let (_, action) = op.step(&mut w, Ok(None));
    assert!(matches!(action, CloseAction::Done(Ok(()))));
    assert!(w.is_completed());
    let (_, action) = CloseOp::start(&mut w);
    assert!(matches!(action, CloseAction::Done(Ok(()))));
}

#[test]
fn failed_close_cleans_up_and_is_not_completed() {
    let mut w = writer(MUST_CACHE);
    w.committed_block_ids = vec![7, 8];
    let (op, action) = CloseOp::start(&mut w);
    assert!(matches!(action, CloseAction::CloseBlock));
    let (op, action) = op.step(&mut w, Err(failure("x")));
    match action {
        CloseAction::Cleanup(remains) => assert_eq!(remains.committed_block_ids, vec![7, 8]),
        other => panic!("unexpected {:?}", other),
    }
    let (_, action) = op.step(&mut w, Ok(None));
    assert!(matches!(action, CloseAction::Done(Err(_))));
    assert!(!w.is_completed());
}

#[test]
fn failed_completion_is_recovered_from_the_storage() {
    let mut w = writer(CACHE_THROUGH);
    w.flags.closed = true;
    w.flags.ufs_stream_completed = true;
    let (op, action) = RecoverOp::start(&w, failure("complete"));
    assert!(matches!(
        action,
        RecoverAction::DeleteEntry(ref o) if o.goosefs_only && o.unchecked && !o.recursive
    ));
    let (op, action) = op.step(Ok(()));
    assert!(matches!(
        action,
        RecoverAction::Reload { load_type: LoadMetadataPType::Always, sync_interval_ms: 0 }
    ));
    let (op, action) = op.step(Ok(()));
    assert!(matches!(action, RecoverAction::Invalidate));
    let (_, action) = op.step(Ok(()));
    assert!(matches!(action, RecoverAction::Done(Ok(()))));
    let (op, _) = RecoverOp::start(&w, failure("complete"));
    let (_, action) = op.step(Err(failure("delete")));
    assert!(matches!(
        action,
        RecoverAction::Done(Err(Error::BlockIoError { message })) if message == "complete"
    ));
    let (_, action) = RecoverOp::start(&writer(MUST_CACHE), failure("complete"));
    assert!(matches!(action, RecoverAction::Done(Err(_))));
}

#[test]
fn drop_without_close_marks_cancelled() {
    let mut w = writer(MUST_CACHE);
    assert!(!w.flags.closed);
    assert!(!w.flags.cancelled);

    let remains = w.perform_drop_cleanup();
    assert!(remains.is_some());
    assert!(
        w.flags.cancelled,
        "perform_drop_cleanup must set cancelled=true"
    );
    assert!(!w.flags.ufs_stream_open);
    assert!(w.current_block.is_none());
    assert!(w.committed_block_ids.is_empty());

    assert!(w.perform_drop_cleanup().is_none());
    assert!(w.flags.cancelled);
}

#[test]
fn drop_after_close_is_noop() {
    let mut w = writer(MUST_CACHE);
    w.flags.closed = true;
    assert!(w.perform_drop_cleanup().is_none());
    assert!(!w.flags.cancelled);
}

#[test]
fn drop_after_cancel_is_noop() {
    let mut w = writer(MUST_CACHE);
    w.flags.cancelled = true;
    assert!(w.perform_drop_cleanup().is_none());
}

#[test]
fn cancel_cleans_up_once() {
    let mut w = writer(CACHE_THROUGH);
    w.ufs_opened("w0:9203".to_string());
    w.current_block = Some(block(9, 1, false, 1));
    w.flags.block_opened = true;
    w.committed_block_ids = vec![7];
    let (op, action) = CancelOp::start(&mut w);
    let remains = match action {
        CancelAction::Cleanup(remains) => remains,
        other => panic!("unexpected {:?}", other),
    };
    let (clean, step) = CleanupOp::start(remains);
    assert!(matches!(step, CleanupAction::CancelUfs));
    let (clean, step) = clean.step(Err(failure("ignored")));
    assert!(matches!(step, CleanupAction::CancelBlock(ref b) if b.block_id == 9));
    let (clean, step) = clean.step(Ok(()));
    assert!(matches!(step, CleanupAction::RemoveBlocks(ref ids) if ids == &vec![7]));
    let (clean, step) = clean.step(Err(failure("remove")));
    assert!(matches!(step, CleanupAction::DeleteFile(_)));
    let (_, step) = clean.step(Ok(()));
    assert!(matches!(step, CleanupAction::Done));
    let (op, action) = op.step();
    assert!(matches!(action, CancelAction::Invalidate));
    let (_, action) = op.step();
    assert!(matches!(action, CancelAction::Done));
    let (_, action) = CancelOp::start(&mut w);
    assert!(matches!(action, CancelAction::Done));
}

#[test]
fn creation_opens_the_storage_stream_where_it_is_needed() {
    let mut w = writer(MUST_CACHE);
    let (op, action) = CreateOp::start();
    assert!(matches!(action, CreateAction::Invalidate));
    let (_, action) = op.step(&mut w, Ok(()));
    assert!(matches!(action, CreateAction::Done(Ok(()))));
    let mut w = writer(THROUGH);
    let (op, _) = CreateOp::start();
    let (op, action) = op.step(&mut w, Ok(()));
    assert!(matches!(action, CreateAction::InitRouter));
    let (op, action) = op.step(&mut w, Ok(()));
    assert!(matches!(action, CreateAction::OpenUfs));
    let (_, action) = op.step(&mut w, Err(failure("x")));
    assert!(matches!(action, CreateAction::Done(Err(_))));
    assert!(w.is_cancelled());
}

#[test]
fn storage_stream_is_opened_on_the_picked_worker() {
    let mut w = writer(THROUGH);
    let worker = WorkerInfo {
        address: Some(replica(4).net_address),
        ..Default::default()
    };
    let (op, action) = OpenUfsOp::start(Ok(worker.clone()));
    assert!(matches!(action, OpenUfsAction::Acquire(ref a) if a.host.as_deref() == Some("w4")));
    let (op, action) = op.step(&mut w, "w4:9203", Ok(()));
    match action {
        OpenUfsAction::OpenStream { options, .. } => {
            assert_eq!(options.unwrap().ufs_path.as_deref(), Some("cosn://b/f"))
        }
        other => panic!("unexpected {:?}", other),
    }
    let (_, action) = op.step(&mut w, "w4:9203", Ok(()));
    assert!(matches!(action, OpenUfsAction::Done(Ok(()))));
    assert!(w.flags.ufs_stream_open);
    assert_eq!(w.ufs_worker_addr.as_deref(), Some("w4:9203"));
    let (op, _) = OpenUfsOp::start(Ok(worker));
    let (op, action) = op.step(&mut w, "w4:9203", Err(failure("x")));
    assert!(matches!(action, OpenUfsAction::MarkFailed(_)));
    let (_, action) = op.step(&mut w, "w4:9203", Ok(()));
    assert!(matches!(action, OpenUfsAction::Done(Err(_))));
    let (_, action) = OpenUfsOp::start(Ok(WorkerInfo::default()));
    assert!(matches!(
        action,
        OpenUfsAction::Done(Err(Error::Internal { message, .. })) if message == "ufs-stream worker has no address"
    ));
}

#[test]
fn endpoint_is_read_as_host_and_port() {
    let a = address_of_endpoint("host-1:9203");
    assert_eq!(a.host.as_deref(), Some("host-1"));
    assert_eq!(a.rpc_port, Some(9203));
    let b = address_of_endpoint("host-1");
    assert_eq!(b.host.as_deref(), Some("host-1"));
    assert_eq!(b.rpc_port, None);
    assert_eq!(address_of_endpoint("h:x").rpc_port, None);
}

#[test]
fn flush_reaches_the_replicas_of_asynchronous_files_only() {
    let filled = || {
        let mut b = block(1, 1, false, 1);
        b.bytes_written = 3;
        b.pending_chunk = vec![1, 2, 3];
        b
    };
    let mut w = writer(MUST_CACHE);
    w.current_block = Some(filled());
    w.flags.block_opened = true;
    let (_, action) = FlushOp::start(&mut w);
    assert!(matches!(action, FlushAction::Done(Ok(()))));
    let mut w = writer(ASYNC_THROUGH);
    w.current_block = Some(filled());
    w.flags.block_opened = true;
    let (op, action) = FlushOp::start(&mut w);
    assert!(matches!(action, FlushAction::WriteTail(ref t) if t == &vec![1, 2, 3]));
    let (op, action) = op.step(&mut w, Ok(()));
    assert!(matches!(action, FlushAction::FlushBlock));
    let (_, action) = op.step(&mut w, Ok(()));
    assert!(matches!(action, FlushAction::Done(Ok(()))));
    w.flags.closed = true;
    let (_, action) = FlushOp::start(&mut w);
    assert!(matches!(
        action,
        FlushAction::Done(Err(Error::BlockIoError { message })) if message == "cannot flush a completed or cancelled file"
    ));
}

#[test]
fn replicas_are_opened_until_enough_are() {
    let plan = replica_write_plan(true, 1, 2, 2, 3).unwrap();
    let mut opening = ReplicaOpening::start(true, 5, &plan, 3).unwrap();
    assert_eq!(opening.next_worker(), Some(0));
    assert_eq!(opening.worker_opened(), 0);
    assert_eq!(opening.next_worker(), Some(1));
    opening.worker_failed(failure("x"));
    assert_eq!(opening.next_worker(), Some(2));
    assert_eq!(opening.worker_opened(), 1);
    assert_eq!(opening.next_worker(), None);
    assert_eq!(opening.finish().unwrap(), 2);
}

#[test]
fn too_few_replicas_are_an_error() {
    let plan = replica_write_plan(true, 1, 2, 2, 3).unwrap();
    let mut opening = ReplicaOpening::start(true, 5, &plan, 2).unwrap();
    opening.worker_opened();
    opening.worker_failed(failure("x"));
    match opening.finish() {
        Err(Error::ResourceExhausted { message }) => assert_eq!(
            message,
            "Not enough workers for replications of block 5, 1 workers selected but 2 required"
        ),
        other => panic!("unexpected {:?}", other),
    }
    let mut opening = ReplicaOpening::start(true, 5, &plan, 1).unwrap();
    opening.worker_failed(failure("x"));
    assert!(matches!(
        opening.finish(),
        Err(Error::BlockIoError { message }) if message == "x"
    ));
    assert!(matches!(
        ReplicaOpening::start(true, 5, &plan, 0),
        Err(Error::NoWorkerAvailable { .. })
    ));
}

#[test]
fn workers_without_room_are_left_out_of_asynchronous_blocks() {
    let plan = ReplicaWritePlan {
        initial_replicas: 1,
        min_needed_replicas: 1,
        max_retry_node: 3,
    };
    let all = vec![
        WorkerInfo { id: Some(1), ..Default::default() },
        WorkerInfo { id: Some(2), ..Default::default() },
    ];
    let room = vec![false, true];
    let kept = eligible_workers(true, all.clone(), &room, 0, &plan);
    assert_eq!(kept.len(), 1);
    assert_eq!(kept[0].id, Some(2));
    assert_eq!(eligible_workers(false, all, &room, 0, &plan).len(), 2);
    assert!(worker_address(&WorkerInfo::default()).is_err());
}

#[test]
fn fanout_keeps_the_replicas_that_succeed() {
    let mut b = block(5, 3, true, 2);
    assert_eq!(b.send_mode().unwrap(), SendMode::Parallel);
    assert_eq!(b.flush_mode(), Some(SendMode::Parallel));
    let (mut fanout, taken) = b.begin_parallel().unwrap();
    assert_eq!(taken.len(), 3);
    let mut taken = taken;
    let last = taken.pop().unwrap();
    let _middle = taken.pop().unwrap();
    let first = taken.pop().unwrap();
    fanout.succeeded(last);
    assert!(!fanout.failed());
    fanout.succeeded(first);
    let (cancelled, outcome) = b.settle_parallel(fanout);
    assert!(cancelled.is_empty());
    outcome.unwrap();
    let order: Vec<usize> = b.replicas.iter().map(|r| r.ordinal).collect();
    assert_eq!(order, vec![0, 2]);
}

#[test]
fn fanout_with_too_few_successes_fails() {
    let mut b = block(5, 2, true, 2);
    let (mut fanout, mut taken) = b.begin_parallel().unwrap();
    fanout.succeeded(taken.remove(0));
    assert!(fanout.failed());
    let (cancelled, outcome) = b.settle_parallel(fanout);
    assert_eq!(cancelled.len(), 1);
    match outcome {
        Err(Error::ResourceExhausted { message }) => assert_eq!(
            message,
            "Failed to write enough replicas. Success: 1, Required: 2 (block_id=5)"
        ),
        other => panic!("unexpected {:?}", other),
    }
    assert!(b.replicas.is_empty());
    assert!(matches!(b.send_mode(), Err(Error::BlockIoError { .. })));
    assert_eq!(b.flush_mode(), None);
    assert!(matches!(
        Fanout::start(1, 2, 5),
        Err(Error::ResourceExhausted { message }) if message == "Failed to write enough replicas. dataWriters size: 1, Required: 2"
    ));
}

#[test]
fn sequential_failure_gives_up_the_block() {
    let mut b = block(5, 3, false, 1);
    assert_eq!(b.send_mode().unwrap(), SendMode::Sequential);
    let (cancelled, outcome) = b.settle_sequential(Some((1, failure("x"))));
    assert_eq!(cancelled.len(), 2);
    assert!(outcome.is_err());
    assert!(b.replicas.is_empty());
    let mut b = block(5, 3, false, 1);
    let (cancelled, outcome) = b.settle_sequential(None);
    assert!(cancelled.is_empty() && outcome.is_ok());
    assert_eq!(b.replicas.len(), 3);
    assert_eq!(b.remaining(), 10);
}

#[test]
fn first_failed_close_counts() {
    assert!(close_outcome(vec![Ok(()), Ok(())]).is_ok());
    assert!(matches!(
        close_outcome(vec![Ok(()), Err(failure("a")), Err(failure("b"))]),
        Err(Error::BlockIoError { message }) if message == "a"
    ));
}

#[test]
fn block_writer_counts_what_was_sent() {
    let mut w = GrpcBlockWriter::open(7);
    w.write_chunk(5, true).unwrap();
    assert!(matches!(
        w.write_chunk(5, false),
        Err(Error::BlockIoError { message }) if message == "write channel closed for block_id=7"
    ));
    assert_eq!(w.bytes_written(), 5);
    assert_eq!(w.block_id(), 7);
    assert_eq!(w.flush(FlushReply::Acknowledged(Some(3))).unwrap(), 3);
    assert_eq!(w.flush(FlushReply::Acknowledged(None)).unwrap(), 5);
    assert!(matches!(
        w.flush(FlushReply::Ended),
        Err(Error::BlockIoError { message }) if message == "stream ended before flush ack for block_id=7"
    ));
    assert!(matches!(
        w.flush(FlushReply::ChannelClosed),
        Err(Error::BlockIoError { message }) if message == "flush channel closed for block_id=7"
    ));
    assert!(w.flush(FlushReply::Failed(failure("x"))).is_err());
}

#[test]
fn pieces_together_are_the_data() {
    let data: Vec<u8> = (0..11u8).collect();
    let mut sent = Vec::new();
    while let Some(piece) = GrpcBlockWriter::next_piece(&data, sent.len(), 4) {
        assert!(piece.len() <= 4);
        sent.extend_from_slice(&piece);
    }
    assert_eq!(sent, data);
}
