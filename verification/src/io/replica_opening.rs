//! Opening the replica writers of a block.

use vstd::prelude::*;
use vstd::string::*;

use crate::error::{Error, ErrorView, Result};
use crate::io::replica_write::{
    degrade_replicas, degraded, filter_no_space_workers, with_space, ReplicaWritePlan,
};
use crate::io::write_strategy::block_sequence_number;
use crate::proto::{WorkerInfo, WorkerNetAddress};
use crate::text::{decimal, decimal_int, push_decimal, push_decimal_i64};

verus! {

/// The message of a block for which there is no worker.
pub open spec fn no_worker_text(block_id: i64) -> Seq<char> {
    "no available GooseFS worker for block_id="@ + decimal_int(block_id as int)
}

/// The message of a block for which too few workers could be opened.
pub open spec fn too_few_workers_text(block_id: i64, selected: nat, required: nat) -> Seq<char> {
    "Not enough workers for replications of block "@ + decimal_int(block_id as int) + ", "@
        + decimal(selected) + " workers selected but "@ + decimal(required) + " required"@
}

fn no_worker(block_id: i64) -> (r: Error)
    ensures
        r@ == (ErrorView::NoWorkerAvailable { message: no_worker_text(block_id) }),
{
    let mut message = "no available GooseFS worker for block_id=".to_string();
    push_decimal_i64(&mut message, block_id);
    Error::NoWorkerAvailable { message }
}

/// The workers on which the replicas of a block may be opened, in the order in
/// which they are tried.
///
/// `candidates` are the picked workers that have not failed. For a file that is
/// persisted asynchronously those without room (`has_space`, place by place)
/// are dropped; behind the first block of the file all workers that take writes
/// stand in where too few have room.
pub fn eligible_workers(
    async_through: bool,
    candidates: Vec<WorkerInfo>,
    has_space: &Vec<bool>,
    block_id: i64,
    plan: &ReplicaWritePlan,
) -> (r: Vec<WorkerInfo>)
    requires
        candidates@.len() == has_space@.len(),
    ensures
        r@ == (if async_through {
            with_space(
                candidates@,
                has_space@,
                (block_id as u64) & 0xff_ffff > 0,
                plan.min_needed_replicas as int,
            )
        } else {
            candidates@
        }),
{
    if async_through {
        let allow_fallback = block_sequence_number(block_id) > 0;
        filter_no_space_workers(candidates, has_space, allow_fallback, plan.min_needed_replicas)
    } else {
        candidates
    }
}

/// The address of a worker. A worker without one cannot be opened.
pub fn worker_address(worker: &WorkerInfo) -> (r: Result<WorkerNetAddress>)
    ensures
        match r {
            Ok(a) => worker.address == Some(a),
            Err(e) => worker.address is None && e@ == (ErrorView::Internal {
                message: "worker has no address"@,
                source: None,
            }),
        },
{
    match &worker.address {
        Some(a) => Ok(a.clone()),
        None => Err(Error::Internal { message: "worker has no address".to_string(), source: None }),
    }
}

/// The replica writers of a block, while they are being opened one by one.
#[derive(Debug)]
pub struct ReplicaOpening {
    /// Identifier of the block.
    pub block_id: i64,
    /// Number of workers that may be tried.
    pub pool_len: usize,
    /// Number of writers to open.
    pub initial: usize,
    /// Number of writers that must open.
    pub min_needed: usize,
    /// The worker that is tried next.
    pub next: usize,
    /// Number of writers that are open.
    pub opened: usize,
    /// The failure of the last worker that could not be opened.
    pub last_error: Option<Error>,
}

impl ReplicaOpening {
    /// Every worker that was tried is either open or has failed.
    pub open spec fn wf(self) -> bool {
        &&& 0 < self.initial <= self.pool_len
        &&& self.opened <= self.next <= self.pool_len
        &&& self.opened <= self.initial
        &&& self.opened < self.next ==> self.last_error is Some
    }

    /// Whether another worker is to be tried.
    pub open spec fn wants_more(self) -> bool {
        self.opened < self.initial && self.next < self.pool_len
    }

    /// Starts to open the writers of a block on `pool_len` workers. Without a
    /// worker there is an error, and the caller forgets which workers have
    /// failed, so that a retry can pick from all of them.
    pub fn start(
        async_through: bool,
        block_id: i64,
        plan: &ReplicaWritePlan,
        pool_len: usize,
    ) -> (r: Result<Self>)
        requires
            plan.initial_replicas > 0,
        ensures
            match r {
                Ok(o) => {
                    &&& pool_len > 0
                    &&& o.wf()
                    &&& o.block_id == block_id
                    &&& o.pool_len == pool_len
                    &&& (o.initial as int, o.min_needed as int) == degraded(
                        async_through,
                        plan.initial_replicas as int,
                        plan.min_needed_replicas as int,
                        pool_len as int,
                    )
                    &&& o.next == 0
                    &&& o.opened == 0
                    &&& o.last_error is None
                },
                Err(e) => pool_len == 0 && e@ == (ErrorView::NoWorkerAvailable {
                    message: no_worker_text(block_id),
                }),
            },
    {
        if pool_len == 0 {
            return Err(no_worker(block_id));
        }
        let (initial, min_needed) = degrade_replicas(
            async_through,
            plan.initial_replicas,
            plan.min_needed_replicas,
            pool_len,
        );
        Ok(
            ReplicaOpening {
                block_id,
                pool_len,
                initial,
                min_needed,
                next: 0,
                opened: 0,
                last_error: None,
            },
        )
    }

    /// The worker to try next, as long as writers are wanted and workers left.
    pub fn next_worker(&self) -> (r: Option<usize>)
        requires
            self.wf(),
        ensures
            r == (if self.wants_more() {
                Some(self.next)
            } else {
                None
            }),
    {
        if self.opened < self.initial && self.next < self.pool_len {
            Some(self.next)
        } else {
            None
        }
    }

    /// Takes in that the worker was opened. The result is the place of the
    /// replica in the order of picking.
    pub fn worker_opened(&mut self) -> (r: usize)
        requires
            old(self).wf(),
            old(self).wants_more(),
        ensures
            final(self).wf(),
            r == old(self).opened,
            *final(self) == (ReplicaOpening {
                next: (old(self).next + 1) as usize,
                opened: (old(self).opened + 1) as usize,
                ..*old(self)
            }),
    {
        let ordinal: usize = self.opened;
        self.next = self.next + 1;
        self.opened = self.opened + 1;
        ordinal
    }

    /// Takes in that the worker could not be opened.
    pub fn worker_failed(&mut self, error: Error)
        requires
            old(self).wf(),
            old(self).wants_more(),
        ensures
            final(self).wf(),
            *final(self) == (ReplicaOpening {
                next: (old(self).next + 1) as usize,
                last_error: Some(error),
                ..*old(self)
            }),
    {
        self.next = self.next + 1;
        self.last_error = Some(error);
    }

    /// Ends the opening. On success the number of replicas that must succeed is
    /// handed out; on failure the writers that are open are to be cancelled.
    ///
    /// Without an open writer the failure is that of the last worker; with some
    /// but too few it is a lack of resources.
    pub fn finish(self) -> (r: Result<usize>)
        requires
            self.wf(),
            !self.wants_more(),
        ensures
            match r {
                Ok(n) => n == self.min_needed && self.opened > 0 && self.opened >= self.min_needed,
                Err(e) => if self.opened == 0 {
                    self.last_error == Some(e)
                } else {
                    &&& self.opened < self.min_needed
                    &&& e@ == (ErrorView::ResourceExhausted {
                        message: too_few_workers_text(
                            self.block_id,
                            self.opened as nat,
                            self.min_needed as nat,
                        ),
                    })
                },
            },
    {
        if self.opened == 0 {
            return Err(
                match self.last_error {
                    Some(e) => e,
                    None => no_worker(self.block_id),
                },
            );
        }
        if self.opened < self.min_needed {
            let mut message = "Not enough workers for replications of block ".to_string();
            push_decimal_i64(&mut message, self.block_id);
            message.append(", ");
            push_decimal(&mut message, self.opened as u128);
            message.append(" workers selected but ");
            push_decimal(&mut message, self.min_needed as u128);
            message.append(" required");
            return Err(Error::ResourceExhausted { message });
        }
        Ok(self.min_needed)
    }
}

/// A block is opened on exactly the wanted number of workers, unless every
/// worker was tried.
pub proof fn law_opening_tries_every_worker(opening: ReplicaOpening)
    requires
        opening.wf(),
        !opening.wants_more(),
    ensures
        opening.opened == opening.initial || opening.next == opening.pool_len,
        opening.opened <= opening.initial,
{
}

} // verus!
