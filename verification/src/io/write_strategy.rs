//! What a write type means for the streams of a file, and the rules that a
//! failed or finished write follows.

use vstd::prelude::*;

use crate::error::Error;
use crate::proto::{
    CreateFilePOptions, CreateUfsFileOptions, FileInfo, FileLocation, FsOpPId, PMode,
    ScheduleAsyncPersistencePOptions,
};

verus! {

/// Wait time that keeps a file from being persisted on its own.
pub const NO_AUTO_PERSIST: i64 = -1;

/// Block identifier of a stream that writes a whole file to the storage.
pub const UFS_BLOCK_ID: i64 = -1;

/// Length that a stream to the storage reserves.
pub const UFS_STREAM_LENGTH: i64 = i64::MAX;

/// The settings that a file writer follows.
#[derive(Debug, Clone, Copy, PartialEq, Eq, Structural)]
pub struct WritePolicy {
    /// Block size of a new file, in bytes.
    pub block_size: u64,
    /// Bytes of a chunk on the wire.
    pub chunk_size: u64,
    /// Number of the default write type.
    pub write_type: Option<i32>,
    /// Replicas of a block.
    pub file_replication_number: i32,
    /// Replicas of a block that is persisted asynchronously.
    pub file_replication_durable: i32,
    /// Replicas that such a block must have.
    pub file_replication_durable_min: i32,
    /// Candidates to take from the hash ring.
    pub file_write_max_node_retry: i32,
    /// Whether a flush reaches the workers of an asynchronously persisted file.
    pub file_async_persist_flush_enabled: bool,
    /// Time to wait before a file is persisted, in milliseconds.
    pub file_persistence_initial_wait_time_ms: i64,
    /// Whether a first block that could not be opened, for a reason that the
    /// client cannot tell, lets the write go to the storage alone.
    pub local_ufs_client_ignore_block_stream_unknown_status: bool,
}

/// The streams that a file is written to.
///
/// A file that is cached and persisted at once is written to two independent
/// streams: one per block for the cache, and a single one for the storage.
#[derive(Debug)]
pub struct WriteStrategy {
    /// Whether to open a cache stream per block.
    pub cache_stream: bool,
    /// Whether to open a single stream to the storage from the start.
    pub ufs_stream: bool,
    /// How to create the file in the storage. Given for every write type that
    /// can reach the storage stream, also if only by degrading to it.
    pub create_ufs_file_options: Option<CreateUfsFileOptions>,
    /// Whether the master persists the file after it is closed.
    pub need_async_persist: bool,
}

/// How the file of `info` is created in the storage.
pub open spec fn ufs_options_of(info: FileInfo) -> CreateUfsFileOptions {
    CreateUfsFileOptions {
        ufs_path: info.ufs_path,
        owner: info.owner,
        group: info.group,
        mode: info.mode,
        mount_id: info.mount_id,
    }
}

fn build_ufs_options(info: &FileInfo) -> (r: CreateUfsFileOptions)
    ensures
        r == ufs_options_of(*info),
{
    CreateUfsFileOptions {
        ufs_path: info.ufs_path.clone(),
        owner: info.owner.clone(),
        group: info.group.clone(),
        mode: info.mode,
        mount_id: info.mount_id,
    }
}

/// The strategy of a write type, by its number.
///
/// | write type        | cache | storage | persisted after close |
/// |-------------------|:-----:|:-------:|:---------------------:|
/// | must cache (1)    | yes   | no      | no                    |
/// | try cache (2)     | yes   | no      | no                    |
/// | cache through (3) | yes   | yes     | no                    |
/// | through (4)       | no    | yes     | no                    |
/// | async through (5) | yes   | no      | yes                   |
/// | none, unset       | yes   | no      | no                    |
pub open spec fn strategy_of(write_type: Option<i32>, info: FileInfo) -> WriteStrategy {
    let t: int = match write_type {
        Some(n) => n as int,
        None => 0,
    };
    WriteStrategy {
        cache_stream: t != 4,
        ufs_stream: t == 3 || t == 4,
        create_ufs_file_options: if 3 <= t <= 5 {
            Some(ufs_options_of(info))
        } else {
            None
        },
        need_async_persist: t == 5,
    }
}

/// Derives the strategy from the number of the write type and what the master
/// reported of the new file.
pub fn resolve_write_strategy(write_type: Option<i32>, file_info: &FileInfo) -> (r: WriteStrategy)
    ensures
        r == strategy_of(write_type, *file_info),
{
    match write_type {
        Some(3) => WriteStrategy {
            cache_stream: true,
            ufs_stream: true,
            create_ufs_file_options: Some(build_ufs_options(file_info)),
            need_async_persist: false,
        },
        Some(4) => WriteStrategy {
            cache_stream: false,
            ufs_stream: true,
            create_ufs_file_options: Some(build_ufs_options(file_info)),
            need_async_persist: false,
        },
        Some(5) => WriteStrategy {
            cache_stream: true,
            ufs_stream: false,
            create_ufs_file_options: Some(build_ufs_options(file_info)),
            need_async_persist: true,
        },
        _ => WriteStrategy {
            cache_stream: true,
            ufs_stream: false,
            create_ufs_file_options: None,
            need_async_persist: false,
        },
    }
}

/// The options of `given`, every unset field replaced by the default.
pub open spec fn completed_options(
    given: CreateFilePOptions,
    policy: WritePolicy,
    default_mode: PMode,
) -> CreateFilePOptions {
    CreateFilePOptions {
        recursive: Some(match given.recursive {
            Some(b) => b,
            None => true,
        }),
        block_size_bytes: Some(match given.block_size_bytes {
            Some(n) => if n != 0 {
                n
            } else {
                policy.block_size as i64
            },
            None => policy.block_size as i64,
        }),
        mode: Some(match given.mode {
            Some(m) => m,
            None => default_mode,
        }),
        write_type: match given.write_type {
            Some(t) => Some(t),
            None => policy.write_type,
        },
        replication_max: given.replication_max,
    }
}

/// Completes the options of a new file. A field that the caller left unset, or
/// a block size of zero, gets the default; every other field is kept.
pub fn complete_create_options(
    options: Option<CreateFilePOptions>,
    policy: &WritePolicy,
    default_mode: PMode,
) -> (r: CreateFilePOptions)
    ensures
        r == completed_options(
            match options {
                Some(o) => o,
                None => CreateFilePOptions {
                    block_size_bytes: None,
                    recursive: None,
                    mode: None,
                    write_type: None,
                    replication_max: None,
                },
            },
            *policy,
            default_mode,
        ),
{
    let mut out: CreateFilePOptions = match options {
        Some(o) => o,
        None => CreateFilePOptions::default(),
    };
    if out.recursive.is_none() {
        out.recursive = Some(true);
    }
    let unset = match out.block_size_bytes {
        Some(n) => n == 0,
        None => true,
    };
    if unset {
        out.block_size_bytes = Some(policy.block_size as i64);
    }
    if out.mode.is_none() {
        out.mode = Some(default_mode);
    }
    if out.write_type.is_none() {
        out.write_type = policy.write_type;
    }
    out
}

/// Whether the credentials were rejected.
pub open spec fn credentials_rejected(err: Error) -> bool {
    err is AuthenticationFailed || err is PermissionDenied
}

/// Whether a failed cache write must fail the file instead of degrading it to
/// the storage alone.
pub open spec fn cache_failure_is_fatal(
    err: Error,
    ufs_stream: bool,
    need_async_persist: bool,
    block_opened: bool,
    ignore_unknown_first_block_status: bool,
) -> bool {
    // The replica count was already lowered as far as it may be.
    ||| err is ResourceExhausted || err is InvalidArgument
    // There is no storage to degrade to.
    ||| !ufs_stream && !need_async_persist
    // Earlier bytes are in the cache and not in the storage.
    ||| need_async_persist && block_opened
    // The storage would be written with the same credentials.
    ||| credentials_rejected(err)
    // The first block did not open, and the operator wants this to be an error.
    ||| !block_opened && !ignore_unknown_first_block_status
}

/// Tells whether the master or a worker rejected the credentials.
pub fn is_credentials_rejected(err: &Error) -> (r: bool)
    ensures
        r == credentials_rejected(*err),
{
    match err {
        Error::AuthenticationFailed { .. } => true,
        Error::PermissionDenied { .. } => true,
        _ => false,
    }
}

/// Tells whether a failed cache write must fail the file instead of degrading
/// it to the storage alone.
pub fn cache_write_failure_is_fatal(
    err: &Error,
    strategy: &WriteStrategy,
    block_opened: bool,
    ignore_unknown_first_block_status: bool,
) -> (r: bool)
    ensures
        r == cache_failure_is_fatal(
            *err,
            strategy.ufs_stream,
            strategy.need_async_persist,
            block_opened,
            ignore_unknown_first_block_status,
        ),
{
    let contract_broken = match err {
        Error::ResourceExhausted { .. } => true,
        Error::InvalidArgument { .. } => true,
        _ => false,
    };
    if contract_broken {
        return true;
    }
    if !strategy.ufs_stream && !strategy.need_async_persist {
        return true;
    }
    if strategy.need_async_persist && block_opened {
        return true;
    }
    if is_credentials_rejected(err) {
        return true;
    }
    !block_opened && !ignore_unknown_first_block_status
}

/// What the master is told about persistence when a file is completed: whether
/// the file already is in the storage, and when to persist it.
pub open spec fn persist_options(
    need_async_persist: bool,
    ufs_stream_completed: bool,
    wait_time_ms: i64,
) -> (Option<bool>, Option<ScheduleAsyncPersistencePOptions>) {
    if !need_async_persist {
        (None, None)
    } else if ufs_stream_completed {
        (Some(true), None)
    } else if wait_time_ms == NO_AUTO_PERSIST {
        (None, None)
    } else {
        (
            None,
            Some(ScheduleAsyncPersistencePOptions { persistence_wait_time: Some(wait_time_ms) }),
        )
    }
}

/// Resolves what the master is told about persistence when a file is completed.
pub fn resolve_persist_options(
    need_async_persist: bool,
    ufs_stream_completed: bool,
    wait_time_ms: i64,
) -> (r: (Option<bool>, Option<ScheduleAsyncPersistencePOptions>))
    ensures
        r == persist_options(need_async_persist, ufs_stream_completed, wait_time_ms),
{
    if !need_async_persist {
        return (None, None);
    }
    if ufs_stream_completed {
        return (Some(true), None);
    }
    if wait_time_ms == NO_AUTO_PERSIST {
        return (None, None);
    }
    (None, Some(ScheduleAsyncPersistencePOptions { persistence_wait_time: Some(wait_time_ms) }))
}

/// The locations that are sent when a file is completed: that of the last
/// block, and only of a file that is persisted asynchronously.
pub fn complete_file_locations(async_through: bool, last_location: Option<FileLocation>) -> (r: Vec<
    FileLocation,
>)
    ensures
        r@ == (match last_location {
            Some(loc) => if async_through {
                seq![loc]
            } else {
                Seq::empty()
            },
            None => Seq::empty(),
        }),
{
    let mut out: Vec<FileLocation> = Vec::new();
    if async_through {
        if let Some(loc) = last_location {
            out.push(loc);
        }
    }
    proof {
        if async_through && last_location is Some {
            assert(out@ =~= seq![last_location->0]);
        }
    }
    out
}

/// The bits of a block identifier that hold the place of the block in its file.
pub const SEQUENCE_NUMBER_BITS: u32 = 24;

/// The identifier of the block at place `block_index` of a file.
///
/// The upper 40 bits are those of the file's identifier, which name the
/// container of its blocks; the lower 24 bits are the place.
pub fn compute_block_id(file_id: i64, block_index: u64) -> (r: i64)
    ensures
        r >> 24 == file_id >> 24,
        (r as u64) & 0xff_ffff == block_index & 0xff_ffff,
{
    let container_id: i64 = (file_id >> SEQUENCE_NUMBER_BITS) & 0xff_ffff_ffff;
    let seq: i64 = (block_index & 0xff_ffff) as i64;
    let r: i64 = (container_id << SEQUENCE_NUMBER_BITS) | seq;
    proof {
        assert(r >> 24 == file_id >> 24 && (r as u64) & 0xff_ffff == block_index & 0xff_ffff)
            by (bit_vector)
            requires
                container_id == (file_id >> 24u32) & 0xff_ffff_ffff,
                seq == (block_index & 0xff_ffff) as i64,
                r == (container_id << 24u32) | seq,
        ;
    }
    r
}

/// The place of a block in its file: the lower 24 bits of its identifier.
pub fn block_sequence_number(block_id: i64) -> (r: u64)
    ensures
        r == (block_id as u64) & 0xff_ffff,
{
    (block_id as u64) & 0xff_ffff
}

/// The conditions of [`compute_block_id`] leave one identifier, so that blocks
/// of one file have different identifiers, and the same container.
pub proof fn law_block_id_is_unique(a: i64, b: i64)
    requires
        a >> 24 == b >> 24,
        (a as u64) & 0xff_ffff == (b as u64) & 0xff_ffff,
    ensures
        a == b,
{
    assert(a == b) by (bit_vector)
        requires
            a >> 24 == b >> 24,
            (a as u64) & 0xff_ffff == (b as u64) & 0xff_ffff,
    ;
}

/// The place of a block is read back from its identifier, as long as the file
/// has no more blocks than a place has values.
pub proof fn law_block_place_is_read_back(block_id: i64, block_index: u64)
    requires
        (block_id as u64) & 0xff_ffff == block_index & 0xff_ffff,
        block_index < 0x100_0000,
    ensures
        (block_id as u64) & 0xff_ffff == block_index,
{
    assert(block_index & 0xff_ffff == block_index) by (bit_vector)
        requires
            block_index < 0x100_0000,
    ;
}

/// A universally unique identifier.
#[verifier::external_type_specification]
#[verifier::external_body]
pub struct ExUuid(uuid::Uuid);

/// The two halves of an identifier, the more significant one first.
pub uninterp spec fn uuid_halves(id: uuid::Uuid) -> (u64, u64);

/// `uuid::Uuid::as_u64_pair`: the two halves of the identifier.
#[verifier::external_body]
fn halves_of(id: &uuid::Uuid) -> (r: (u64, u64))
    ensures
        r == uuid_halves(*id),
{
    id.as_u64_pair()
}

/// `uuid::Uuid::new_v4`: a random identifier, of which nothing is promised.
#[verifier::external_body]
pub(crate) fn random_uuid() -> uuid::Uuid {
    uuid::Uuid::new_v4()
}

/// Whether `id` is an identifier that was drawn at random.
pub closed spec fn was_drawn(id: uuid::Uuid) -> bool {
    call_ensures(random_uuid, (), id)
}

/// A random identifier.
pub(crate) fn draw_uuid() -> (r: uuid::Uuid)
    ensures
        was_drawn(r),
{
    random_uuid()
}

/// The operation identifier with the given halves.
pub fn fs_op_pid(high: u64, low: u64) -> (r: FsOpPId)
    ensures
        r.most_significant_bits == Some(high as i64),
        r.least_significant_bits == Some(low as i64),
{
    FsOpPId { most_significant_bits: Some(high as i64), least_significant_bits: Some(low as i64) }
}

/// The operation identifier that stands for `id`.
pub fn uuid_to_fs_op_pid(id: &uuid::Uuid) -> (r: FsOpPId)
    ensures
        r.most_significant_bits == Some(uuid_halves(*id).0 as i64),
        r.least_significant_bits == Some(uuid_halves(*id).1 as i64),
{
    let (high, low) = halves_of(id);
    fs_op_pid(high, low)
}

/// A write that falls back to the storage does so with a complete file: either
/// the storage has received every byte from the start, or no block was ever
/// opened, so that no byte is in the cache alone.
pub proof fn law_degrade_loses_no_byte(
    err: Error,
    write_type: Option<i32>,
    info: FileInfo,
    block_opened: bool,
    ignore: bool,
)
    requires
        !cache_failure_is_fatal(
            err,
            strategy_of(write_type, info).ufs_stream,
            strategy_of(write_type, info).need_async_persist,
            block_opened,
            ignore,
        ),
    ensures
        strategy_of(write_type, info).ufs_stream || !block_opened,
        strategy_of(write_type, info).create_ufs_file_options is Some,
{
}

/// A file is never both declared persisted and scheduled to be persisted.
pub proof fn law_persist_options_exclude_each_other(
    need_async_persist: bool,
    ufs_stream_completed: bool,
    wait_time_ms: i64,
)
    ensures
        ({
            let (forced, scheduled) = persist_options(
                need_async_persist,
                ufs_stream_completed,
                wait_time_ms,
            );
            forced is None || scheduled is None
        }),
{
}

} // verus!
