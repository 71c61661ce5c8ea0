//! What the options of an operation ask for, and what a status tells.
//!
//! `call_ensures(f, args, r)` says that `r` is a result of the call of `f` with `args`.

use vstd::prelude::*;

use crate::config::kinds::WriteType;
use crate::fs::options::{
    CreateFileOptions, DeleteOptions, GetStatusOptions, InStreamOptions, ListStatusOptions,
    OpenFileOptions, ReadType,
};
use crate::fs::uri_status::URIStatus;
use crate::fs::write_type::WriteTypeXAttr;
use crate::proto::{FileBlockInfo, WritePType};

verus! {

/// A file is read through the cache unless asked otherwise, and the rest stays as usual.
pub proof fn law_reading_options(
    plain: InStreamOptions,
    uncached: InStreamOptions,
    short: InStreamOptions,
    opened: OpenFileOptions,
    uncached_open: OpenFileOptions,
    t: ReadType,
    n: i32,
)
    requires
        call_ensures(<InStreamOptions as Default>::default, (), plain),
        call_ensures(InStreamOptions::no_cache, (), uncached),
        call_ensures(InStreamOptions::positioned, (plain,), short),
        call_ensures(OpenFileOptions::new, (), opened),
        call_ensures(OpenFileOptions::no_cache, (), uncached_open),
        call_ensures(ReadType::to_proto, (t,), n),
    ensures
        plain.read_type is Cache && !plain.position_short && plain.max_ufs_read_concurrency == 8
            && plain.prefetch_window == 1,
        uncached.read_type is NoCache && uncached.position_short == plain.position_short
            && uncached.max_ufs_read_concurrency == plain.max_ufs_read_concurrency
            && uncached.prefetch_window == plain.prefetch_window,
        short.position_short && (InStreamOptions { position_short: false, ..short }) == plain,
        opened.in_stream_options == plain,
        uncached_open.in_stream_options == uncached,
        t is NoCache ==> n == 1,
        t is Cache ==> n == 2,
{
}

/// A file is created with the write type that is asked for, and otherwise inherits it;
/// all else is left to the settings.
pub proof fn law_creation_options(wt: WriteType, plain: CreateFileOptions, typed: CreateFileOptions)
    requires
        call_ensures(<CreateFileOptions as Default>::default, (), plain),
        call_ensures(CreateFileOptions::with_write_type, (wt,), typed),
    ensures
        plain.write_type is Inherit && plain.block_size_bytes is None && plain.replication_max
            is None && !plain.recursive,
        typed.write_type == WriteTypeXAttr::Explicit(wt),
        (CreateFileOptions { write_type: WriteTypeXAttr::Inherit, ..typed }) == plain,
{
}

/// What is deleted: without asking the storage first, and from the storage too unless
/// only the cache is meant; what lies below only if asked for.
pub proof fn law_deletion_options(
    plain: DeleteOptions,
    all: DeleteOptions,
    cancel: DeleteOptions,
    cached: DeleteOptions,
)
    requires
        call_ensures(<DeleteOptions as Default>::default, (), plain),
        call_ensures(DeleteOptions::recursive, (), all),
        call_ensures(DeleteOptions::for_cancel, (), cancel),
        call_ensures(DeleteOptions::goosefs_only_unchecked, (), cached),
    ensures
        !plain.recursive && plain.unchecked && !plain.goosefs_only,
        all.recursive && all.unchecked && !all.goosefs_only,
        !cancel.recursive && cancel.unchecked && !cancel.goosefs_only,
        !cached.recursive && cached.unchecked && cached.goosefs_only,
{
}

/// A status is synchronised with the storage at once only if asked for, and a listing
/// takes in what lies below only if asked for.
pub proof fn law_status_options(
    plain: GetStatusOptions,
    synced: GetStatusOptions,
    list: ListStatusOptions,
    deep: ListStatusOptions,
)
    requires
        call_ensures(<GetStatusOptions as Default>::default, (), plain),
        call_ensures(GetStatusOptions::always_sync, (), synced),
        call_ensures(ListStatusOptions::new, (), list),
        call_ensures(ListStatusOptions::recursive, (), deep),
    ensures
        plain.sync_interval_ms is None && plain.load_metadata_type is None,
        synced.sync_interval_ms == Some(0i64) && synced.load_metadata_type is None,
        !list.recursive && list.sync_interval_ms is None && list.load_metadata_type is None
            && !list.load_metadata_only,
        deep.recursive && (ListStatusOptions { recursive: false, ..deep }) == list,
{
}

/// A status answers with what it holds; a file can be read once it is complete.
pub proof fn law_status_answers_with_what_it_holds(
    s: URIStatus,
    completed: bool,
    folder: bool,
    readable: bool,
    persisted: bool,
    infos: bool,
)
    requires
        call_ensures(URIStatus::is_completed, (&s,), completed),
        call_ensures(URIStatus::is_folder, (&s,), folder),
        call_ensures(URIStatus::is_readable, (&s,), readable),
        call_ensures(URIStatus::is_persisted, (&s,), persisted),
        call_ensures(URIStatus::has_block_infos, (&s,), infos),
    ensures
        completed == s.completed,
        folder == s.folder,
        readable == (folder || completed),
        persisted == s.persisted,
        infos == exists|id: i64| s.block_infos@.contains_key(id),
{
}

/// A number stands for the write type whose number it is, and for none if it is no such
/// number.
pub proof fn law_write_type_numbers(pt: WritePType, n: i32, m: i32, r: Option<WritePType>)
    requires
        call_ensures(WritePType::as_i32, (pt,), n),
        call_ensures(WritePType::from_i32, (m,), r),
    ensures
        pt is UnspecifiedWriteType ==> n == 0,
        pt is MustCache ==> n == 1,
        pt is TryCache ==> n == 2,
        pt is CacheThrough ==> n == 3,
        pt is Through ==> n == 4,
        pt is AsyncThrough ==> n == 5,
        pt is NoneWriteType ==> n == 6,
        m == n ==> r == Some(pt),
        m < 0 || m > 6 ==> r is None,
{
}

/// A block that is added is found under its identifier, and the others stay; one without
/// an identifier is not kept.
pub proof fn law_added_block_is_found(
    s: &mut URIStatus,
    fbi: FileBlockInfo,
    id: i64,
    found: Option<&FileBlockInfo>,
    n: usize,
)
    requires
        call_ensures(URIStatus::add_block_info, (s, fbi), ()),
        call_ensures(URIStatus::get_block_info, (final(s), id), found),
        call_ensures(URIStatus::block_count, (final(s),), n),
    ensures
        fbi.block_info matches Some(b) ==> b.block_id == Some(id) ==> (found matches Some(f) && *f
            == fbi),
        fbi.block_info is None ==> final(s).block_infos@ == old(s).block_infos@,
        fbi.block_info matches Some(b) ==> b.block_id is None ==> final(s).block_infos@ == old(s).block_infos@,
        fbi.block_info matches Some(b) ==> b.block_id is Some && b.block_id != Some(id) ==> (
        found is Some) == old(s).block_infos@.contains_key(id),
        n == old(s).block_ids@.len(),
{
}

} // verus!
