//! How many replicas a block gets, and on which workers.

use vstd::prelude::*;

use crate::error::{Error, ErrorView, Result};
use crate::proto::WorkerInfo;

verus! {

/// Planned replica counts for opening a block write stream.
#[derive(Clone, Copy, Debug, PartialEq, Eq, Structural)]
pub struct ReplicaWritePlan {
    /// How many writers to try to open. An asynchronously persisted file uses
    /// the durable count where it is the greater; every other one uses the
    /// replication number.
    pub initial_replicas: usize,
    /// How many writers must open, and later succeed, for the write to be
    /// accepted.
    pub min_needed_replicas: usize,
    /// How many candidates to take from the hash ring.
    pub max_retry_node: usize,
}

/// The greater of `a` and `b`.
pub open spec fn max_of(a: int, b: int) -> int {
    if a >= b {
        a
    } else {
        b
    }
}

/// Number of writers to open. A setting below one counts as one.
pub open spec fn planned_replicas(async_through: bool, number: i32, durable: i32) -> int {
    if async_through {
        max_of(max_of(number as int, 1), max_of(durable as int, 1))
    } else {
        max_of(number as int, 1)
    }
}

/// Number of writers that must succeed.
pub open spec fn required_replicas(
    async_through: bool,
    number: i32,
    durable: i32,
    durable_min: i32,
) -> int {
    if async_through {
        max_of(durable_min as int, 1)
    } else {
        planned_replicas(async_through, number, durable)
    }
}

/// The message of a plan that asks for more durable replicas than it opens.
pub const UNSATISFIABLE_DURABLE_MIN: &'static str =
    "min durable replicas can not be satisfied in ASYNC_THROUGH scenario";

fn at_least_one(n: i32) -> (r: i32)
    ensures
        r == max_of(n as int, 1),
{
    if n < 1 {
        1
    } else {
        n
    }
}

/// Computes the replica counts from the write type and the settings.
pub fn replica_write_plan(
    async_through: bool,
    replication_number: i32,
    replication_durable: i32,
    replication_durable_min: i32,
    write_max_node_retry: i32,
) -> (r: Result<ReplicaWritePlan>)
    ensures
        ({
            let initial = planned_replicas(async_through, replication_number, replication_durable);
            let needed = required_replicas(
                async_through,
                replication_number,
                replication_durable,
                replication_durable_min,
            );
            match r {
                Ok(plan) => {
                    &&& needed <= initial
                    &&& plan.initial_replicas == initial
                    &&& plan.min_needed_replicas == needed
                    &&& plan.max_retry_node == max_of(initial, write_max_node_retry as int)
                },
                Err(e) => needed > initial && e@ == (ErrorView::InvalidArgument {
                    message: UNSATISFIABLE_DURABLE_MIN@,
                }),
            }
        }),
{
    let number: i32 = at_least_one(replication_number);
    let durable: i32 = at_least_one(replication_durable);
    let durable_min: i32 = at_least_one(replication_durable_min);
    let retry: i32 = at_least_one(write_max_node_retry);
    let initial: i32 = if async_through && durable > number {
        durable
    } else {
        number
    };
    let min_needed: i32 = if async_through {
        durable_min
    } else {
        initial
    };
    if async_through && initial < min_needed {
        return Err(Error::InvalidArgument { message: UNSATISFIABLE_DURABLE_MIN.to_string() });
    }
    let max_retry: i32 = if retry > initial {
        retry
    } else {
        initial
    };
    Ok(
        ReplicaWritePlan {
            initial_replicas: initial as usize,
            min_needed_replicas: min_needed as usize,
            max_retry_node: max_retry as usize,
        },
    )
}

/// Whether the worker takes writes.
pub open spec fn writable(worker: WorkerInfo) -> bool {
    worker.forbid_write != Some(true)
}

/// The bytes that wait for persistence on the worker.
pub open spec fn persist_used(worker: WorkerInfo) -> int {
    match worker.persist_used_bytes {
        Some(n) => n as int,
        None => 0,
    }
}

/// Whether the worker is above the watermark of free space, given the bytes
/// that it may hold for persistence and whether the free share is large enough.
pub open spec fn above_watermark(
    worker: WorkerInfo,
    min_remain_bytes: i64,
    persist_capacity: i64,
    share_suffices: bool,
) -> bool {
    &&& writable(worker)
    &&& worker.capacity_bytes matches Some(c) && c > 0
    &&& persist_capacity > 0
    &&& persist_capacity - persist_used(worker) >= min_remain_bytes
    &&& share_suffices
}

fn takes_writes(worker: &WorkerInfo) -> (r: bool)
    ensures
        r == writable(*worker),
{
    match worker.forbid_write {
        Some(b) => !b,
        None => true,
    }
}

/// Tells whether a worker has enough room for bytes that wait for persistence.
///
/// `persist_capacity` is what the worker may hold of such bytes, and
/// `share_suffices` tells whether the free share of it reaches the configured
/// ratio; both rest on ratios that the caller has evaluated.
pub fn worker_has_persist_space(
    worker: &WorkerInfo,
    min_remain_bytes: i64,
    persist_capacity: i64,
    share_suffices: bool,
) -> (r: bool)
    ensures
        r == above_watermark(*worker, min_remain_bytes, persist_capacity, share_suffices),
{
    if !takes_writes(worker) {
        return false;
    }
    let capacity: i64 = match worker.capacity_bytes {
        Some(c) => c,
        None => 0,
    };
    if capacity <= 0 || persist_capacity <= 0 {
        return false;
    }
    let used: i64 = match worker.persist_used_bytes {
        Some(n) => n,
        None => 0,
    };
    persist_capacity as i128 - used as i128 >= min_remain_bytes as i128 && share_suffices
}

/// The workers of `workers` at the places where `keep` holds, in order.
pub open spec fn chosen(workers: Seq<WorkerInfo>, keep: spec_fn(int) -> bool) -> Seq<WorkerInfo>
    decreases workers.len(),
{
    if workers.len() == 0 {
        Seq::empty()
    } else {
        let rest = chosen(workers.drop_last(), keep);
        if keep(workers.len() - 1) {
            rest.push(workers.last())
        } else {
            rest
        }
    }
}

/// The places of the workers that take writes.
pub open spec fn at_writable(workers: Seq<WorkerInfo>) -> spec_fn(int) -> bool {
    |i: int| writable(workers[i])
}

/// The places of the workers that take writes and have room.
pub open spec fn at_spacious(workers: Seq<WorkerInfo>, has_space: Seq<bool>) -> spec_fn(
    int,
) -> bool {
    |i: int| writable(workers[i]) && has_space[i]
}

/// The workers that are left for an asynchronously persisted block.
pub open spec fn with_space(
    workers: Seq<WorkerInfo>,
    has_space: Seq<bool>,
    allow_fallback: bool,
    min_needed: int,
) -> Seq<WorkerInfo> {
    let spacious = chosen(workers, at_spacious(workers, has_space));
    if allow_fallback && spacious.len() < min_needed {
        chosen(workers, at_writable(workers))
    } else {
        spacious
    }
}

proof fn lemma_chosen_step(workers: Seq<WorkerInfo>, keep: spec_fn(int) -> bool, i: int)
    requires
        0 <= i < workers.len(),
    ensures
        chosen(workers.take(i + 1), keep) == (if keep(i) {
            chosen(workers.take(i), keep).push(workers[i])
        } else {
            chosen(workers.take(i), keep)
        }),
{
    assert(workers.take(i + 1).drop_last() =~= workers.take(i));
}

fn count_spacious(workers: &Vec<WorkerInfo>, has_space: &Vec<bool>) -> (r: usize)
    requires
        workers@.len() == has_space@.len(),
    ensures
        r == chosen(workers@, at_spacious(workers@, has_space@)).len(),
{
    let ghost keep = at_spacious(workers@, has_space@);
    let mut n: usize = 0;
    let mut i: usize = 0;
    while i < workers.len()
        invariant
            i <= workers@.len(),
            workers@.len() == has_space@.len(),
            keep == at_spacious(workers@, has_space@),
            n == chosen(workers@.take(i as int), keep).len(),
            n <= i,
        decreases workers@.len() - i,
    {
        proof {
            lemma_chosen_step(workers@, keep, i as int);
        }
        if takes_writes(&workers[i]) && has_space[i] {
            n = n + 1;
        }
        i = i + 1;
    }
    proof {
        assert(workers@.take(i as int) =~= workers@);
    }
    n
}

/// Filters the workers for an asynchronously persisted block.
///
/// Workers that take no writes are dropped, and so are those without room
/// (`has_space`, place by place). Where `allow_fallback` is set and fewer than
/// `min_needed` have room, all workers that take writes are kept.
pub fn filter_no_space_workers(
    workers: Vec<WorkerInfo>,
    has_space: &Vec<bool>,
    allow_fallback: bool,
    min_needed: usize,
) -> (r: Vec<WorkerInfo>)
    requires
        workers@.len() == has_space@.len(),
    ensures
        r@ == with_space(workers@, has_space@, allow_fallback, min_needed as int),
{
    let fall_back = allow_fallback && count_spacious(&workers, has_space) < min_needed;
    let ghost all = workers@;
    let ghost keep = if fall_back {
        at_writable(all)
    } else {
        at_spacious(all, has_space@)
    };
    let n: usize = has_space.len();
    let mut kept: Vec<WorkerInfo> = Vec::new();
    let mut i: usize = 0;
    for worker in it: workers
        invariant
            it.seq() == all,
            i == it.index(),
            n == has_space@.len(),
            all.len() == n,
            keep == (if fall_back {
                at_writable(all)
            } else {
                at_spacious(all, has_space@)
            }),
            kept@ == chosen(all.take(i as int), keep),
    {
        proof {
            lemma_chosen_step(all, keep, i as int);
        }
        let keeps = takes_writes(&worker) && (fall_back || has_space[i]);
        if keeps {
            kept.push(worker);
        }
        i = i + 1;
    }
    proof {
        assert(all.take(all.len() as int) =~= all);
    }
    kept
}

/// The replica counts after degrading to the workers that are alive.
pub open spec fn degraded(async_through: bool, initial: int, min_needed: int, alive: int) -> (
    int,
    int,
) {
    if initial <= alive {
        (initial, min_needed)
    } else if async_through {
        (alive, min_needed)
    } else {
        (alive, alive)
    }
}

/// Lowers the replica count to the number of workers alive.
///
/// An asynchronously persisted file keeps `min_needed` as a hard floor; for
/// every other one it is lowered with `initial`.
pub fn degrade_replicas(
    async_through: bool,
    initial: usize,
    min_needed: usize,
    alive: usize,
) -> (r: (usize, usize))
    ensures
        (r.0 as int, r.1 as int) == degraded(
            async_through,
            initial as int,
            min_needed as int,
            alive as int,
        ),
{
    if initial > alive {
        if async_through {
            (alive, min_needed)
        } else {
            (alive, alive)
        }
    } else {
        (initial, min_needed)
    }
}

/// Whether so many writers failed that the rest need not be waited for.
pub open spec fn hopeless(failures: int, writer_size: int, min_needed: int) -> bool {
    if min_needed <= writer_size {
        failures > writer_size - min_needed
    } else {
        failures > 0
    }
}

/// Tells whether the remaining writers shall be aborted.
pub fn should_abort_remaining(failures: usize, writer_size: usize, min_needed: usize) -> (r: bool)
    ensures
        r == hopeless(failures as int, writer_size as int, min_needed as int),
{
    if min_needed <= writer_size {
        failures > writer_size - min_needed
    } else {
        failures > 0
    }
}

/// Tells whether enough writers succeeded.
pub fn enough_replicas(success: usize, min_needed: usize) -> (r: bool)
    ensures
        r == (success >= min_needed),
{
    success >= min_needed
}

/// Giving up early never turns a success into a failure: once the remaining
/// writers are aborted, even the success of all of them would not be enough.
pub proof fn law_abort_is_justified(failures: nat, writer_size: nat, min_needed: nat)
    requires
        min_needed <= writer_size,
        failures <= writer_size,
    ensures
        hopeless(failures as int, writer_size as int, min_needed as int) <==> writer_size - failures
            < min_needed,
{
}

/// A degraded plan never asks for more writers than are alive, and what it asks
/// for is lowered below the plan only for lack of workers.
pub proof fn law_degrade_fits_the_workers(
    async_through: bool,
    initial: nat,
    min_needed: nat,
    alive: nat,
)
    requires
        min_needed <= initial,
    ensures
        degraded(async_through, initial as int, min_needed as int, alive as int).0 <= alive,
        alive >= initial ==> degraded(async_through, initial as int, min_needed as int, alive as int)
            == (initial as int, min_needed as int),
        async_through ==> degraded(
            true,
            initial as int,
            min_needed as int,
            alive as int,
        ).1 == min_needed,
        !async_through ==> degraded(false, initial as int, min_needed as int, alive as int).1
            <= alive,
{
}

/// Every worker that is left takes writes, and is one of the given ones.
pub proof fn law_filter_keeps_only_writable(
    workers: Seq<WorkerInfo>,
    has_space: Seq<bool>,
    allow_fallback: bool,
    min_needed: int,
)
    ensures
        forall|w: WorkerInfo| #[trigger]
            with_space(workers, has_space, allow_fallback, min_needed).contains(w) ==> writable(w)
                && workers.contains(w),
{
    assert(workers.take(workers.len() as int) =~= workers);
    lemma_chosen_members(workers, workers, at_spacious(workers, has_space));
    lemma_chosen_members(workers, workers, at_writable(workers));
}

proof fn lemma_chosen_members(
    all: Seq<WorkerInfo>,
    workers: Seq<WorkerInfo>,
    keep: spec_fn(int) -> bool,
)
    requires
        workers.len() <= all.len(),
        workers == all.take(workers.len() as int),
        forall|i: int| 0 <= i < all.len() && #[trigger] keep(i) ==> writable(all[i]),
    ensures
        forall|w: WorkerInfo| #[trigger]
            chosen(workers, keep).contains(w) ==> writable(w) && all.contains(w),
    decreases workers.len(),
{
    if workers.len() > 0 {
        let n = workers.len() - 1;
        assert(workers.drop_last() =~= all.take(n));
        lemma_chosen_members(all, workers.drop_last(), keep);
        assert(workers.last() == all[n]);
        assert forall|w: WorkerInfo| #[trigger] chosen(workers, keep).contains(w) implies writable(
            w,
        ) && all.contains(w) by {
            let rest = chosen(workers.drop_last(), keep);
            let j = chosen(workers, keep).index_of(w);
            if j < rest.len() {
                assert(rest[j] == w);
                assert(rest.contains(w));
            }
        }
    }
}

} // verus!
