//! How many replicas a block gets, and on which workers.

use goosefs_sdk::error::Error;
use goosefs_sdk::io::replica_write::{
    degrade_replicas, enough_replicas, filter_no_space_workers, replica_write_plan,
    should_abort_remaining, worker_has_persist_space,
};
use goosefs_sdk::proto::{WorkerInfo, WorkerNetAddress};

fn worker(
    id: i64,
    host: &str,
    capacity: i64,
    persist_used: i64,
    forbid_write: bool,
) -> WorkerInfo {
    WorkerInfo {
        id: Some(id),
        address: Some(WorkerNetAddress {
            host: Some(host.to_string()),
            rpc_port: Some(9203),
        }),
        capacity_bytes: Some(capacity),
        persist_used_bytes: Some(persist_used),
        forbid_write: Some(forbid_write),
    }
}

fn room(workers: &[WorkerInfo], min_bytes: i64, min_ratio: f32, cache_ratio: f64) -> Vec<bool> {
    workers
        .iter()
        .map(|w| {
            let capacity = w.capacity_bytes.unwrap_or(0);
            let share = ((capacity as f64) * (1.0 - cache_ratio)).ceil() as i64;
            let left = share - w.persist_used_bytes.unwrap_or(0);
            let suffices = (left as f32) / (share as f32) >= min_ratio;
            worker_has_persist_space(w, min_bytes, share, suffices)
        })
        .collect()
}

fn filtered(
    workers: &[WorkerInfo],
    allow_fallback: bool,
    min_needed: usize,
    min_bytes: i64,
    min_ratio: f32,
    cache_ratio: f64,
) -> Vec<WorkerInfo> {
    let has_space = room(workers, min_bytes, min_ratio, cache_ratio);
    filter_no_space_workers(workers.to_vec(), &has_space, allow_fallback, min_needed)
}

#[test]
fn async_through_uses_durable_when_greater_than_number() {
    let plan = replica_write_plan(true, 1, 2, 2, 3).unwrap();
    assert_eq!(plan.initial_replicas, 2);
    assert_eq!(plan.min_needed_replicas, 2);
    assert_eq!(plan.max_retry_node, 3);
}

#[test]
fn async_through_keeps_number_when_durable_not_greater() {
    let plan = replica_write_plan(true, 3, 2, 2, 3).unwrap();
    assert_eq!(plan.initial_replicas, 3);
    assert_eq!(plan.min_needed_replicas, 2);
    assert_eq!(plan.max_retry_node, 3);
}

#[test]
fn must_cache_uses_replication_number() {
    let plan = replica_write_plan(false, 2, 3, 2, 3).unwrap();
    assert_eq!(plan.initial_replicas, 2);
    assert_eq!(plan.min_needed_replicas, 2);
    assert_eq!(plan.max_retry_node, 3);
}

#[test]
fn async_through_durable_below_min_is_invalid() {
    let err = replica_write_plan(true, 1, 1, 2, 3).unwrap_err();
    assert!(matches!(err, Error::InvalidArgument { .. }));
}

#[test]
fn filter_drops_forbid_write_and_low_space() {
    let tb = 1024i64 * 1024 * 1024 * 1024;
    let plenty = worker(1, "a", tb, 0, false);
    let forbidden = worker(2, "b", tb, 0, true);
    let no_cap = worker(3, "c", 0, 0, false);
    let full = worker(4, "d", tb, (tb as f64 * 0.9) as i64 - 1024, false);

    let out = filtered(
        &[plenty.clone(), forbidden, no_cap, full],
        false,
        2,
        128 * 1024 * 1024,
        0.015,
        0.1,
    );
    assert_eq!(out.len(), 1);
    assert_eq!(out[0].id, Some(1));
}

#[test]
fn later_block_falls_back_when_watermarked_set_too_small() {
    let tb = 1024i64 * 1024 * 1024 * 1024;
    let plenty = worker(1, "a", tb, 0, false);
    let full = worker(2, "b", tb, (tb as f64 * 0.9) as i64 - 1024, false);

    let first = filtered(
        &[plenty.clone(), full.clone()],
        false,
        2,
        128 * 1024 * 1024,
        0.015,
        0.1,
    );
    assert_eq!(first.len(), 1, "first block is strict");

    let later =
        filtered(&[plenty, full], true, 2, 128 * 1024 * 1024, 0.015, 0.1);
    assert_eq!(later.len(), 2, "later block falls back to writable workers");
}

#[test]
fn degrade_async_through_keeps_durable_min() {
    let (initial, min_needed) = degrade_replicas(true, 3, 2, 1);
    assert_eq!(initial, 1);
    assert_eq!(min_needed, 2);
}

#[test]
fn degrade_must_cache_lowers_min_needed() {
    let (initial, min_needed) = degrade_replicas(false, 3, 3, 1);
    assert_eq!(initial, 1);
    assert_eq!(min_needed, 1);
}

#[test]
fn abort_when_failures_exceed_slack() {
    assert!(!should_abort_remaining(1, 3, 2));
    assert!(should_abort_remaining(2, 3, 2));
    assert!(enough_replicas(2, 2));
    assert!(!enough_replicas(1, 2));
}

#[test]
fn room_is_what_remains_of_the_share() {
    let w = worker(1, "a", 1000, 850, false);
    assert!(worker_has_persist_space(&w, 50, 900, true));
    assert!(!worker_has_persist_space(&w, 51, 900, true));
    assert!(!worker_has_persist_space(&w, 50, 900, false));
    assert!(!worker_has_persist_space(&w, 0, 0, true));
    assert!(!worker_has_persist_space(&worker(1, "a", 1000, 0, true), 0, 900, true));
}

#[test]
fn abort_comes_exactly_when_too_few_can_succeed() {
    for size in 1..5usize {
        for need in 1..=size {
            for failures in 0..=size {
                assert_eq!(
                    should_abort_remaining(failures, size, need),
                    size - failures < need
                );
            }
        }
    }
}
