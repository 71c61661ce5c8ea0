//! Rules of writing: strategies, block numbers, persistence and chunks.

use goosefs_sdk::context::FileSystemContext;
use goosefs_sdk::error::Error;
use goosefs_sdk::io::chunking::{next_chunk, take_full_chunks};
use goosefs_sdk::io::write_strategy::{
    block_sequence_number, cache_write_failure_is_fatal, complete_file_locations,
    compute_block_id, fs_op_pid, resolve_persist_options, resolve_write_strategy,
    uuid_to_fs_op_pid, WriteStrategy, NO_AUTO_PERSIST,
};
use goosefs_sdk::proto::{FileInfo, FileLocation, ScheduleAsyncPersistencePOptions};
use std::sync::Arc;
use uuid::Uuid;

fn make_test_file_info() -> FileInfo {
    FileInfo {
        file_id: Some(1),
        ufs_path: Some("/ufs/data/test.txt".to_string()),
        owner: Some("hadoop".to_string()),
        group: Some("supergroup".to_string()),
        mode: Some(0o644),
        mount_id: Some(42),
        ..Default::default()
    }
}

fn cache_through() -> WriteStrategy {
    resolve_write_strategy(Some(3), &FileInfo::default())
}

fn async_through() -> WriteStrategy {
    resolve_write_strategy(Some(5), &FileInfo::default())
}

fn must_cache() -> WriteStrategy {
    resolve_write_strategy(Some(1), &FileInfo::default())
}

fn io_err() -> Error {
    Error::BlockIoError {
        message: "worker went away".to_string(),
    }
}

fn assert_pending_invariant(pending: &[u8], chunk_size: usize) {
    assert!(
        pending.len() < chunk_size,
        "pending_chunk must stay strictly below chunk_size, got {} >= {}",
        pending.len(),
        chunk_size
    );
}

#[test]
fn test_compute_block_id() {
    let inode_id = 33554431i64;
    assert_eq!(compute_block_id(inode_id, 0), 1 << 24);
    assert_eq!(compute_block_id(inode_id, 1), (1 << 24) | 1);

    let inode_id_2 = 2i64 << 24;
    assert_eq!(compute_block_id(inode_id_2, 0), 2 << 24);
}

#[test]
fn test_compute_block_id_container_extraction() {
    const SEQUENCE_NUMBER_BITS: u32 = 24;
    const CONTAINER_ID_MASK: i64 = (1i64 << 40) - 1;

    let file_id = 33554431i64;
    let block_id = compute_block_id(file_id, 3);
    let container_id = (block_id >> SEQUENCE_NUMBER_BITS) & CONTAINER_ID_MASK;
    assert_eq!(container_id, 1);
    assert_eq!(block_id & ((1 << SEQUENCE_NUMBER_BITS) - 1), 3);
}

#[test]
fn test_strategy_must_cache() {
    let fi = make_test_file_info();
    let s = resolve_write_strategy(Some(1), &fi);
    assert!(s.cache_stream);
    assert!(!s.ufs_stream);
    assert!(s.create_ufs_file_options.is_none());
    assert!(!s.need_async_persist);
}

#[test]
fn test_strategy_cache_through() {
    let fi = make_test_file_info();
    let s = resolve_write_strategy(Some(3), &fi);
    assert!(s.cache_stream, "CACHE_THROUGH must enable cache stream");
    assert!(s.ufs_stream, "CACHE_THROUGH must enable UFS stream");
    assert!(s.create_ufs_file_options.is_some());
    assert!(!s.need_async_persist);
}

#[test]
fn test_strategy_through() {
    let fi = make_test_file_info();
    let s = resolve_write_strategy(Some(4), &fi);
    assert!(!s.cache_stream, "THROUGH must NOT enable cache stream");
    assert!(s.ufs_stream);
    let ufs_opts = s.create_ufs_file_options.as_ref().unwrap();
    assert_eq!(ufs_opts.ufs_path, Some("/ufs/data/test.txt".to_string()));
    assert_eq!(ufs_opts.owner, Some("hadoop".to_string()));
    assert_eq!(ufs_opts.group, Some("supergroup".to_string()));
    assert_eq!(ufs_opts.mode, Some(0o644));
    assert_eq!(ufs_opts.mount_id, Some(42));
    assert!(!s.need_async_persist);
}

#[test]
fn test_strategy_async_through() {
    let fi = make_test_file_info();
    let s = resolve_write_strategy(Some(5), &fi);
    assert!(s.cache_stream);
    assert!(!s.ufs_stream);
    assert!(s.need_async_persist);
    assert!(s.create_ufs_file_options.is_some());
}

#[test]
fn cache_failure_degrades_on_plain_io_error() {
    assert!(!cache_write_failure_is_fatal(
        &io_err(),
        &cache_through(),
        true,
        true
    ));
    assert!(!cache_write_failure_is_fatal(
        &io_err(),
        &async_through(),
        false,
        true
    ));
}

#[test]
fn cache_failure_is_fatal_when_replication_contract_broken() {
    for err in [
        Error::ResourceExhausted {
            message: "alive < durable.min".to_string(),
        },
        Error::InvalidArgument {
            message: "durable < durable.min".to_string(),
        },
    ] {
        assert!(
            cache_write_failure_is_fatal(&err, &cache_through(), true, true),
            "{} must not degrade",
            err.to_string()
        );
    }
}

#[test]
fn cache_failure_is_fatal_without_a_ufs_destination() {
    assert!(cache_write_failure_is_fatal(
        &io_err(),
        &must_cache(),
        true,
        true
    ));
}

#[test]
fn cache_failure_is_fatal_for_async_through_past_the_first_block() {
    assert!(cache_write_failure_is_fatal(
        &io_err(),
        &async_through(),
        true,
        true
    ));
    assert!(!cache_write_failure_is_fatal(
        &io_err(),
        &cache_through(),
        true,
        true
    ));
}

#[test]
fn cache_failure_is_fatal_when_credentials_are_rejected() {
    for err in [
        Error::AuthenticationFailed {
            message: "bad token".to_string(),
        },
        Error::PermissionDenied {
            message: "no write permission".to_string(),
        },
    ] {
        assert!(
            cache_write_failure_is_fatal(&err, &cache_through(), true, true),
            "{} must not degrade",
            err.to_string()
        );
    }
}

#[test]
fn cache_failure_first_block_ambiguity_follows_the_config() {
    assert!(!cache_write_failure_is_fatal(
        &io_err(),
        &cache_through(),
        false,
        true
    ));
    assert!(cache_write_failure_is_fatal(
        &io_err(),
        &cache_through(),
        false,
        false
    ));
    assert!(!cache_write_failure_is_fatal(
        &io_err(),
        &cache_through(),
        true,
        false
    ));
}

#[test]
fn async_through_carries_ufs_options_for_the_degrade_path() {
    let info = FileInfo {
        ufs_path: Some("cosn://bucket/f".to_string()),
        ..Default::default()
    };
    let strategy = resolve_write_strategy(Some(5), &info);
    assert!(!strategy.ufs_stream);
    assert_eq!(
        strategy
            .create_ufs_file_options
            .as_ref()
            .and_then(|o| o.ufs_path.as_deref()),
        Some("cosn://bucket/f")
    );
}

#[test]
fn persist_options_force_persisted_after_degrade() {
    let (force, async_opts) = resolve_persist_options(true, true, 0);
    assert_eq!(force, Some(true));
    assert!(
        async_opts.is_none(),
        "a persisted file must not also be queued for persisting"
    );

    let (force, async_opts) = resolve_persist_options(true, true, 5_000);
    assert_eq!(force, Some(true));
    assert!(async_opts.is_none());
}

#[test]
fn persist_options_schedule_job_on_the_normal_path() {
    let (force, async_opts) = resolve_persist_options(true, false, 0);
    assert!(force.is_none());
    assert_eq!(
        async_opts,
        Some(ScheduleAsyncPersistencePOptions {
                        persistence_wait_time: Some(0),
        })
    );

    let (_, async_opts) = resolve_persist_options(true, false, 5_000);
    assert_eq!(
        async_opts.and_then(|o| o.persistence_wait_time),
        Some(5_000),
        "the configured wait time must reach the Master"
    );
}

#[test]
fn persist_options_no_auto_persist_sends_neither() {
    let (force, async_opts) = resolve_persist_options(true, false, NO_AUTO_PERSIST);
    assert!(force.is_none());
    assert!(async_opts.is_none());
}

#[test]
fn persist_options_untouched_for_non_async_write_types() {
    for ufs_completed in [false, true] {
        let (force, async_opts) = resolve_persist_options(false, ufs_completed, 0);
        assert!(force.is_none(), "ufs_completed={ufs_completed}");
        assert!(async_opts.is_none(), "ufs_completed={ufs_completed}");
    }
}

#[test]
fn complete_file_locations_only_for_async_through() {
    let loc = FileLocation {
        block_id: Some(1),
        offset: Some(0),
        length: Some(64),
        worker_id: vec![7],
    };
    assert!(complete_file_locations(false, Some(loc.clone())).is_empty());
    assert!(complete_file_locations(false, None).is_empty());
    let got = complete_file_locations(true, Some(loc.clone()));
    assert_eq!(got, vec![loc]);
    assert!(complete_file_locations(true, None).is_empty());
}

#[test]
fn test_strategy_default_unset() {
    let fi = make_test_file_info();
    let s = resolve_write_strategy(None, &fi);
    assert!(s.cache_stream);
    assert!(!s.ufs_stream);
    assert!(s.create_ufs_file_options.is_none());
    assert!(!s.need_async_persist);
}

#[test]
fn test_strategy_try_cache() {
    let fi = make_test_file_info();
    let s = resolve_write_strategy(Some(2), &fi);
    assert!(s.cache_stream);
    assert!(!s.ufs_stream);
    assert!(s.create_ufs_file_options.is_none());
    assert!(!s.need_async_persist);
}

#[test]
fn test_context_field_is_option_arc() {
    let ctx_field: Option<Arc<FileSystemContext>> = None;
    assert!(ctx_field.is_none());
}

#[test]
fn test_uuid_to_fs_op_pid_bit_layout() {
    let high_bytes: [u8; 8] = [0x00, 0x11, 0x22, 0x33, 0x44, 0x55, 0x66, 0x77];
    let low_bytes: [u8; 8] = [0x88u8, 0x99, 0xaa, 0xbb, 0xcc, 0xdd, 0xee, 0xff];
    let mut bytes = [0u8; 16];
    bytes[..8].copy_from_slice(&high_bytes);
    bytes[8..].copy_from_slice(&low_bytes);
    let uuid = Uuid::from_bytes(bytes);

    let op_id = uuid_to_fs_op_pid(&uuid);

    let expected_high = i64::from_be_bytes(high_bytes);
    let expected_low = i64::from_be_bytes(low_bytes);

    assert_eq!(op_id.most_significant_bits, Some(expected_high));
    assert_eq!(op_id.least_significant_bits, Some(expected_low));
}

#[test]
fn take_full_chunks_slices_aligned_payload_without_growing_pending() {
    let chunk_size = 1024;
    let mut pending = Vec::with_capacity(chunk_size);
    let n = 17 * chunk_size + 100;
    let incoming: Vec<u8> = (0u8..=255).cycle().take(n).collect();
    let chunks = take_full_chunks(&mut pending, &incoming, chunk_size);
    assert_eq!(chunks.len(), 17);
    assert!(chunks.iter().all(|c| c.len() == chunk_size));
    assert_eq!(&chunks[0], &incoming[..chunk_size]);
    assert_eq!(pending.len(), 100);
    assert_eq!(&pending[..], &incoming[incoming.len() - 100..]);
    assert_pending_invariant(&pending, chunk_size);
    assert!(
        pending.capacity() <= chunk_size * 2,
        "pending must not hold the whole write(); capacity={}",
        pending.capacity()
    );
}

#[test]
fn take_full_chunks_completes_existing_tail() {
    let chunk_size = 1000;
    let mut pending = vec![0u8; 400];
    let incoming = vec![1u8; 700];
    let chunks = take_full_chunks(&mut pending, &incoming, chunk_size);
    assert_eq!(chunks.len(), 1);
    assert_eq!(chunks[0].len(), 1000);
    assert_eq!(&chunks[0][..400], &[0u8; 400]);
    assert_eq!(&chunks[0][400..], &[1u8; 600]);
    assert_eq!(pending.len(), 100);
    assert_eq!(&pending[..], &[1u8; 100]);
    assert_pending_invariant(&pending, chunk_size);
}

#[test]
fn take_full_chunks_holds_short_write_in_pending() {
    let chunk_size = 1000;
    let mut pending = vec![0u8; 400];
    let incoming = vec![1u8; 200];
    let chunks = take_full_chunks(&mut pending, &incoming, chunk_size);
    assert!(chunks.is_empty());
    assert_eq!(pending.len(), 600);
    assert_pending_invariant(&pending, chunk_size);
}

#[test]
fn block_number_and_place_are_read_back() {
    for place in [0u64, 1, 7, (1 << 24) - 1] {
        let id = compute_block_id(5i64 << 24, place);
        assert_eq!(block_sequence_number(id), place);
        assert_eq!(id >> 24, 5);
    }
}

#[test]
fn operation_number_keeps_both_halves() {
    let id = fs_op_pid(u64::MAX, 1);
    assert_eq!(id.most_significant_bits, Some(-1));
    assert_eq!(id.least_significant_bits, Some(1));
}

#[test]
fn chunks_do_not_depend_on_how_writes_are_cut() {
    let data: Vec<u8> = (0..2500u32).map(|i| (i % 256) as u8).collect();
    let mut whole = Vec::new();
    let expected = take_full_chunks(&mut whole, &data, 1000);
    let mut pending = Vec::new();
    let mut got = Vec::new();
    for part in data.chunks(333) {
        got.extend(take_full_chunks(&mut pending, part, 1000));
    }
    assert_eq!(got, expected);
    assert_eq!(pending, whole);
    let mut joined = got.concat();
    joined.extend(&pending);
    assert_eq!(joined, data);
}

#[test]
fn next_chunk_takes_what_is_pending_first() {
    let mut pending = vec![1u8; 3];
    let incoming = vec![2u8; 6];
    let (chunk, from) = next_chunk(&mut pending, &incoming, 0, 4);
    assert_eq!(chunk, Some(vec![1, 1, 1, 2]));
    assert_eq!(from, 1);
    let (chunk, from) = next_chunk(&mut pending, &incoming, from, 4);
    assert_eq!(chunk, Some(vec![2, 2, 2, 2]));
    assert_eq!(from, 5);
    let (chunk, from) = next_chunk(&mut pending, &incoming, from, 4);
    assert_eq!(chunk, None);
    assert_eq!(from, 6);
    assert_eq!(pending, vec![2]);
}
