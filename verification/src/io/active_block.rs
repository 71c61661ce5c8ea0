//! The block that is being written, and its replicas.

use vstd::prelude::*;
use vstd::string::*;

use crate::error::{Error, ErrorView, Result};
use crate::io::replica_write::{enough_replicas, hopeless, should_abort_remaining};
use crate::proto::{FileLocation, WorkerNetAddress};
use crate::text::{decimal, decimal_int, push_decimal, push_decimal_i64};

verus! {

/// The writer of one replica of the current block.
#[derive(Debug)]
pub struct ReplicaWriter {
    /// Place in the order in which the workers were picked.
    pub ordinal: usize,
    /// Identifier of the worker.
    pub worker_id: i64,
    /// Endpoint of the worker.
    pub worker_addr: String,
    /// Address of the worker.
    pub net_address: WorkerNetAddress,
}

/// How a chunk reaches the replicas.
#[derive(Debug, Clone, Copy, PartialEq, Eq, Structural)]
pub enum SendMode {
    /// One after the other.
    Sequential,
    /// All at once.
    Parallel,
}

/// The block that is being written.
#[derive(Debug)]
pub struct ActiveBlockWriter {
    /// The writers of its replicas.
    pub replicas: Vec<ReplicaWriter>,
    /// Identifier of the block.
    pub block_id: i64,
    /// Size of the block.
    pub block_size: u64,
    /// Bytes accepted so far, the pending ones among them.
    pub bytes_written: u64,
    /// Bytes that do not fill a chunk yet.
    pub pending_chunk: Vec<u8>,
    /// Whether the replicas are written all at once.
    pub parallel: bool,
    /// Number of replicas that must succeed.
    pub min_needed: usize,
}

/// The workers of the replicas, in order.
pub open spec fn worker_ids(replicas: Seq<ReplicaWriter>) -> Seq<i64> {
    replicas.map_values(|r: ReplicaWriter| r.worker_id)
}

/// The message of a block that has lost all its replicas.
pub open spec fn no_replica_text(block_id: i64) -> Seq<char> {
    "no replica writers left for block_id="@ + decimal_int(block_id as int)
}

impl ActiveBlockWriter {
    /// Whether the block holds no more bytes than it has room for.
    pub open spec fn wf(self) -> bool {
        self.bytes_written <= self.block_size
    }

    /// The block right after its replicas have been opened.
    pub fn new(
        replicas: Vec<ReplicaWriter>,
        block_id: i64,
        block_size: u64,
        async_through: bool,
        min_needed: usize,
    ) -> (r: Self)
        ensures
            r.wf(),
            r.replicas == replicas,
            r.block_id == block_id,
            r.block_size == block_size,
            r.bytes_written == 0,
            r.pending_chunk@.len() == 0,
            r.parallel == (async_through && replicas@.len() > 1),
            r.min_needed == min_needed,
    {
        let parallel = async_through && replicas.len() > 1;
        ActiveBlockWriter {
            replicas,
            block_id,
            block_size,
            bytes_written: 0,
            pending_chunk: Vec::new(),
            parallel,
            min_needed,
        }
    }

    /// The bytes that still fit into the block.
    pub fn remaining(&self) -> (r: u64)
        requires
            self.wf(),
        ensures
            r == self.block_size - self.bytes_written,
    {
        self.block_size - self.bytes_written
    }

    /// Where the block is, if it has a replica.
    pub fn file_location(&self, block_offset: i64) -> (r: Option<FileLocation>)
        ensures
            match r {
                Some(loc) => {
                    &&& self.replicas@.len() > 0
                    &&& loc.block_id == Some(self.block_id)
                    &&& loc.offset == Some(block_offset)
                    &&& loc.length == Some(self.bytes_written as i64)
                    &&& loc.worker_id@ == worker_ids(self.replicas@)
                },
                None => self.replicas@.len() == 0,
            },
    {
        if self.replicas.len() == 0 {
            return None;
        }
        let mut workers: Vec<i64> = Vec::new();
        let mut i: usize = 0;
        while i < self.replicas.len()
            invariant
                i <= self.replicas@.len(),
                workers@ == worker_ids(self.replicas@.take(i as int)),
            decreases self.replicas@.len() - i,
        {
            workers.push(self.replicas[i].worker_id);
            i = i + 1;
            proof {
                assert(workers@ =~= worker_ids(self.replicas@.take(i as int)));
            }
        }
        proof {
            assert(self.replicas@.take(i as int) =~= self.replicas@);
        }
        Some(
            FileLocation {
                block_id: Some(self.block_id),
                offset: Some(block_offset),
                length: Some(self.bytes_written as i64),
                worker_id: workers,
            },
        )
    }

    /// How a chunk is sent. A block without replicas takes none.
    pub fn send_mode(&self) -> (r: Result<SendMode>)
        ensures
            match r {
                Ok(mode) => self.replicas@.len() > 0 && (mode == SendMode::Parallel <==>
                    self.parallel && self.replicas@.len() > 1),
                Err(e) => self.replicas@.len() == 0 && e@ == (ErrorView::BlockIoError {
                    message: no_replica_text(self.block_id),
                }),
            },
    {
        if self.replicas.len() == 0 {
            let mut message = "no replica writers left for block_id=".to_string();
            push_decimal_i64(&mut message, self.block_id);
            return Err(Error::BlockIoError { message });
        }
        if self.parallel && self.replicas.len() > 1 {
            Ok(SendMode::Parallel)
        } else {
            Ok(SendMode::Sequential)
        }
    }

    /// How a flush is sent, and `None` if there is no replica to flush.
    pub fn flush_mode(&self) -> (r: Option<SendMode>)
        ensures
            match r {
                Some(mode) => self.replicas@.len() > 0 && (mode == SendMode::Parallel <==>
                    self.parallel && self.replicas@.len() > 1),
                None => self.replicas@.len() == 0,
            },
    {
        if self.replicas.len() == 0 {
            None
        } else if self.parallel && self.replicas.len() > 1 {
            Some(SendMode::Parallel)
        } else {
            Some(SendMode::Sequential)
        }
    }

    /// Settles a chunk that was sent to one replica after the other.
    ///
    /// `failure` is the place of the replica that failed, behind which none was
    /// tried, and its error. The block then loses all its replicas. The result
    /// names those whose stream is to be cancelled: the failed one and those
    /// that had succeeded.
    pub fn settle_sequential(&mut self, failure: Option<(usize, Error)>) -> (r: (
        Vec<ReplicaWriter>,
        Result<()>,
    ))
        requires
            failure matches Some(f) ==> f.0 < old(self).replicas@.len(),
        ensures
            final(self).same_but_replicas(*old(self)),
            match failure {
                None => r.0@.len() == 0 && r.1 == Ok::<(), Error>(()) && final(self).replicas
                    == old(self).replicas,
                Some((i, e)) => {
                    &&& r.0@ == old(self).replicas@.take(i + 1)
                    &&& r.1 == Err::<(), Error>(e)
                    &&& final(self).replicas@.len() == 0
                },
            },
    {
        match failure {
            None => (Vec::new(), Ok(())),
            Some((i, e)) => {
                let mut taken: Vec<ReplicaWriter> = Vec::new();
                std::mem::swap(&mut taken, &mut self.replicas);
                let ghost all = taken@;
                let count: usize = taken.len();
                if i + 1 < count {
                    let _untried = taken.split_off(i + 1);
                }
                proof {
                    assert(taken@ =~= all.take(i + 1));
                }
                (taken, Err(e))
            },
        }
    }

    /// Starts an action on all replicas at once, and hands the replicas out.
    /// Where it is refused, the block keeps them.
    pub fn begin_parallel(&mut self) -> (r: Result<(Fanout, Vec<ReplicaWriter>)>)
        ensures
            final(self).same_but_replicas(*old(self)),
            match r {
                Ok((f, taken)) => {
                    &&& old(self).min_needed <= old(self).replicas@.len()
                    &&& f.wf()
                    &&& f.writer_size == old(self).replicas@.len()
                    &&& f.min_needed == old(self).min_needed
                    &&& f.block_id == old(self).block_id
                    &&& f.kept@.len() == 0
                    &&& f.failures == 0
                    &&& taken == old(self).replicas
                    &&& final(self).replicas@.len() == 0
                },
                Err(e) => {
                    &&& old(self).replicas@.len() < old(self).min_needed
                    &&& e@ == (ErrorView::ResourceExhausted {
                        message: too_few_writers_text(
                            old(self).replicas@.len(),
                            old(self).min_needed as nat,
                        ),
                    })
                    &&& final(self).replicas == old(self).replicas
                },
            },
    {
        match Fanout::start(self.replicas.len(), self.min_needed, self.block_id) {
            Ok(fanout) => {
                let mut taken: Vec<ReplicaWriter> = Vec::new();
                std::mem::swap(&mut taken, &mut self.replicas);
                Ok((fanout, taken))
            },
            Err(e) => Err(e),
        }
    }

    /// Settles an action on all replicas at once. The replicas that succeeded
    /// are those of the block from now on; where they are too few, the block
    /// loses them too, and the first result names those whose stream is to be
    /// cancelled.
    pub fn settle_parallel(&mut self, fanout: Fanout) -> (r: (Vec<ReplicaWriter>, Result<()>))
        requires
            fanout.wf(),
            fanout.kept@.len() + fanout.failures == fanout.writer_size,
        ensures
            final(self).same_but_replicas(*old(self)),
            match r.1 {
                Ok(_) => {
                    &&& fanout.kept@.len() >= fanout.min_needed
                    &&& final(self).replicas == fanout.kept
                    &&& r.0@.len() == 0
                },
                Err(e) => {
                    &&& fanout.kept@.len() < fanout.min_needed
                    &&& e@ == (ErrorView::ResourceExhausted {
                        message: too_few_successes_text(
                            fanout.kept@.len(),
                            fanout.min_needed as nat,
                            fanout.block_id,
                        ),
                    })
                    &&& final(self).replicas@.len() == 0
                    &&& r.0 == fanout.kept
                },
            },
    {
        let (kept, outcome) = fanout.finish();
        match outcome {
            Ok(_) => {
                self.replicas = kept;
                (Vec::new(), Ok(()))
            },
            Err(e) => {
                self.replicas = Vec::new();
                (kept, Err(e))
            },
        }
    }

    /// Equality of everything but the pending bytes.
    pub open spec fn same_but_pending(self, other: Self) -> bool {
        &&& self.replicas == other.replicas
        &&& self.block_id == other.block_id
        &&& self.block_size == other.block_size
        &&& self.bytes_written == other.bytes_written
        &&& self.parallel == other.parallel
        &&& self.min_needed == other.min_needed
    }

    /// Equality of everything but the replicas.
    pub open spec fn same_but_replicas(self, other: Self) -> bool {
        &&& self.block_id == other.block_id
        &&& self.block_size == other.block_size
        &&& self.bytes_written == other.bytes_written
        &&& self.pending_chunk == other.pending_chunk
        &&& self.parallel == other.parallel
        &&& self.min_needed == other.min_needed
    }
}

/// The first failure among `outcomes`, or success.
pub open spec fn first_error(outcomes: Seq<Result<()>>) -> Result<()>
    decreases outcomes.len(),
{
    if outcomes.len() == 0 {
        Ok(())
    } else if outcomes[0] is Err {
        outcomes[0]
    } else {
        first_error(outcomes.drop_first())
    }
}

/// The outcome of closing all replicas: the first failure, or success.
pub fn close_outcome(outcomes: Vec<Result<()>>) -> (r: Result<()>)
    ensures
        r == first_error(outcomes@),
{
    let ghost all = outcomes@;
    let mut first: Result<()> = Ok(());
    let ghost mut seen: int = 0;
    proof {
        assert(all.skip(0) =~= all);
    }
    for outcome in it: outcomes
        invariant
            it.seq() == all,
            seen == it.index(),
            first is Err ==> first == first_error(all),
            first is Ok ==> first_error(all.skip(seen)) == first_error(all),
    {
        proof {
            assert(all.skip(seen)[0] == outcome);
            assert(all.skip(seen).drop_first() =~= all.skip(seen + 1));
        }
        if first.is_ok() {
            first = outcome;
        }
        proof {
            seen = seen + 1;
        }
    }
    proof {
        assert(all.skip(seen) =~= Seq::<Result<()>>::empty());
        if first is Ok {
            assert(first->Ok_0 == ());
        }
    }
    first
}

/// Whether the replicas stand in the order in which they were picked.
pub open spec fn in_order(replicas: Seq<ReplicaWriter>) -> bool {
    forall|i: int, j: int|
        0 <= i < j < replicas.len() ==> (#[trigger] replicas[i]).ordinal <= (#[trigger] replicas[j]).ordinal
}

/// The message of a fan-out that starts with too few replicas.
pub open spec fn too_few_writers_text(writer_size: nat, min_needed: nat) -> Seq<char> {
    "Failed to write enough replicas. dataWriters size: "@ + decimal(writer_size)
        + ", Required: "@ + decimal(min_needed)
}

/// The message of a fan-out in which too few replicas succeeded.
pub open spec fn too_few_successes_text(success: nat, min_needed: nat, block_id: i64) -> Seq<char> {
    "Failed to write enough replicas. Success: "@ + decimal(success) + ", Required: "@ + decimal(
        min_needed,
    ) + " (block_id="@ + decimal_int(block_id as int) + ")"@
}

/// An action that is performed on all replicas at once, while its outcomes
/// come in.
#[derive(Debug)]
pub struct Fanout {
    /// Number of replicas that it started with.
    pub writer_size: usize,
    /// Number of replicas that must succeed.
    pub min_needed: usize,
    /// Identifier of the block.
    pub block_id: i64,
    /// The replicas that have succeeded, in the order of their picking.
    pub kept: Vec<ReplicaWriter>,
    /// Number of replicas that have failed.
    pub failures: usize,
}

impl Fanout {
    /// The outcomes that came in belong to the replicas of the start.
    pub open spec fn wf(self) -> bool {
        &&& self.min_needed <= self.writer_size
        &&& self.kept@.len() + self.failures <= self.writer_size
        &&& in_order(self.kept@)
    }

    /// Starts an action on `writer_size` replicas. It is refused if there are
    /// fewer than must succeed.
    pub fn start(writer_size: usize, min_needed: usize, block_id: i64) -> (r: Result<Self>)
        ensures
            match r {
                Ok(f) => {
                    &&& min_needed <= writer_size
                    &&& f.wf()
                    &&& f.writer_size == writer_size
                    &&& f.min_needed == min_needed
                    &&& f.block_id == block_id
                    &&& f.kept@.len() == 0
                    &&& f.failures == 0
                },
                Err(e) => writer_size < min_needed && e@ == (ErrorView::ResourceExhausted {
                    message: too_few_writers_text(writer_size as nat, min_needed as nat),
                }),
            },
    {
        if writer_size < min_needed {
            let mut message = "Failed to write enough replicas. dataWriters size: ".to_string();
            push_decimal(&mut message, writer_size as u128);
            message.append(", Required: ");
            push_decimal(&mut message, min_needed as u128);
            return Err(Error::ResourceExhausted { message });
        }
        Ok(Fanout { writer_size, min_needed, block_id, kept: Vec::new(), failures: 0 })
    }

    /// Takes in the success of a replica.
    pub fn succeeded(&mut self, replica: ReplicaWriter)
        requires
            old(self).wf(),
            old(self).kept@.len() + old(self).failures < old(self).writer_size,
        ensures
            final(self).wf(),
            final(self).writer_size == old(self).writer_size,
            final(self).min_needed == old(self).min_needed,
            final(self).block_id == old(self).block_id,
            final(self).failures == old(self).failures,
            final(self).kept@.len() == old(self).kept@.len() + 1,
            final(self).kept@.to_multiset() == old(self).kept@.to_multiset().insert(replica),
    {
        let mut at: usize = self.kept.len();
        while at > 0 && self.kept[at - 1].ordinal > replica.ordinal
            invariant
                self.wf(),
                *self == *old(self),
                at <= self.kept@.len(),
                forall|j: int|
                    at <= j < self.kept@.len() ==> (#[trigger] self.kept@[j]).ordinal
                        > replica.ordinal,
            decreases at,
        {
            at = at - 1;
        }
        let ghost before = self.kept@;
        self.kept.insert(at, replica);
        proof {
            assert(self.kept@ =~= before.insert(at as int, replica));
            before.insert_ensures(at as int, replica);
            vstd::seq_lib::to_multiset_insert(before, at as int, replica);
        }
    }

    /// Takes in the failure of a replica, and tells whether those that are
    /// still under way shall be aborted.
    pub fn failed(&mut self) -> (r: bool)
        requires
            old(self).wf(),
            old(self).kept@.len() + old(self).failures < old(self).writer_size,
        ensures
            final(self).wf(),
            final(self).writer_size == old(self).writer_size,
            final(self).min_needed == old(self).min_needed,
            final(self).block_id == old(self).block_id,
            final(self).failures == old(self).failures + 1,
            final(self).kept == old(self).kept,
            r == hopeless(
                final(self).failures as int,
                final(self).writer_size as int,
                final(self).min_needed as int,
            ),
    {
        self.failures = self.failures + 1;
        should_abort_remaining(self.failures, self.writer_size, self.min_needed)
    }

    /// Ends the action, once every outcome has come in.
    ///
    /// Where enough replicas succeeded, they are the replicas of the block from
    /// now on. Otherwise the action fails, and the first result names the
    /// replicas whose stream is to be cancelled.
    pub fn finish(self) -> (r: (Vec<ReplicaWriter>, Result<()>))
        requires
            self.wf(),
            self.kept@.len() + self.failures == self.writer_size,
        ensures
            r.0 == self.kept,
            match r.1 {
                Ok(_) => self.kept@.len() >= self.min_needed,
                Err(e) => self.kept@.len() < self.min_needed && e@ == (
                ErrorView::ResourceExhausted {
                    message: too_few_successes_text(
                        self.kept@.len(),
                        self.min_needed as nat,
                        self.block_id,
                    ),
                }),
            },
    {
        if enough_replicas(self.kept.len(), self.min_needed) {
            return (self.kept, Ok(()));
        }
        let mut message = "Failed to write enough replicas. Success: ".to_string();
        push_decimal(&mut message, (self.writer_size - self.failures) as u128);
        message.append(", Required: ");
        push_decimal(&mut message, self.min_needed as u128);
        message.append(" (block_id=");
        push_decimal_i64(&mut message, self.block_id);
        message.append(")");
        (self.kept, Err(Error::ResourceExhausted { message }))
    }
}

} // verus!
