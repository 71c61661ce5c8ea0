//! What the operations of the file system promise: laws on their arguments and results.
//!
//! `call_ensures(f, args, r)` says that `r` is a result of the call of `f` with `args`.

use vstd::prelude::*;
use vstd::utf8::*;

use crate::config::kinds::WriteType;
use crate::config::settings::GoosefsConfig;
use crate::error::{Error, Result};
use crate::fs::base_filesystem::{directories, statuses_of, BaseFileSystem, TreeListing};
use crate::fs::options::{ufs_block_length, CreateFileOptions};
use crate::fs::uri_status::{block_map, URIStatus};
use crate::fs::write_type::{get_write_type_from_xattr, WriteTypeXAttr};
use crate::proto::{CreateFilePOptions, FileBlockInfo, FileInfo};
use crate::text::{drop_trailing, last_before, lowered, only, views};

verus! {

/// Each number of a status is the one that the master reported under the same name, and
/// zero if it reported none. No other part of the report plays a role in it.
pub proof fn law_status_keeps_reported_numbers(fi: FileInfo, r: URIStatus)
    requires
        call_ensures(URIStatus::from_proto, (fi,), r),
    ensures
        fi.file_id matches Some(n) ==> r.file_id == n,
        fi.file_id is None ==> r.file_id == 0,
        fi.length matches Some(n) ==> r.length == n,
        fi.length is None ==> r.length == 0,
        fi.block_size_bytes matches Some(n) ==> r.block_size_bytes == n,
        fi.block_size_bytes is None ==> r.block_size_bytes == 0,
        fi.creation_time_ms matches Some(t) ==> r.creation_time_ms == t,
        fi.creation_time_ms is None ==> r.creation_time_ms == 0,
        fi.last_modification_time_ms matches Some(t) ==> r.last_modification_time_ms == t,
        fi.last_modification_time_ms is None ==> r.last_modification_time_ms == 0,
        fi.last_access_time_ms matches Some(t) ==> r.last_access_time_ms == t,
        fi.last_access_time_ms is None ==> r.last_access_time_ms == 0,
        fi.in_goose_fs_percentage matches Some(n) ==> r.in_goose_fs_percentage == n,
        fi.in_goose_fs_percentage is None ==> r.in_goose_fs_percentage == 0,
        fi.in_memory_percentage matches Some(n) ==> r.in_memory_percentage == n,
        fi.in_memory_percentage is None ==> r.in_memory_percentage == 0,
        fi.mode matches Some(n) ==> r.mode == n,
        fi.mode is None ==> r.mode == 0,
        fi.mount_id matches Some(n) ==> r.mount_id == n,
        fi.mount_id is None ==> r.mount_id == 0,
{
}

/// Each text and flag of a status is the one that the master reported under the same
/// name; a text that it left out is empty, and a flag that it left out is not set.
pub proof fn law_status_keeps_reported_texts_and_flags(fi: FileInfo, r: URIStatus)
    requires
        call_ensures(URIStatus::from_proto, (fi,), r),
    ensures
        fi.name matches Some(s) ==> r.name@ == s@,
        fi.name is None ==> r.name@.len() == 0,
        fi.path matches Some(s) ==> r.path@ == s@,
        fi.path is None ==> r.path@.len() == 0,
        fi.ufs_path matches Some(s) ==> r.ufs_path@ == s@,
        fi.ufs_path is None ==> r.ufs_path@.len() == 0,
        fi.owner matches Some(s) ==> r.owner@ == s@,
        fi.owner is None ==> r.owner@.len() == 0,
        fi.group matches Some(s) ==> r.group@ == s@,
        fi.group is None ==> r.group@.len() == 0,
        fi.persistence_state matches Some(s) ==> r.persistence_state@ == s@,
        fi.persistence_state is None ==> r.persistence_state@.len() == 0,
        fi.ufs_fingerprint matches Some(s) ==> r.ufs_fingerprint@ == s@,
        fi.ufs_fingerprint is None ==> r.ufs_fingerprint@.len() == 0,
        fi.completed matches Some(b) ==> r.completed == b,
        fi.completed is None ==> !r.completed,
        fi.folder matches Some(b) ==> r.folder == b,
        fi.folder is None ==> !r.folder,
        fi.cacheable matches Some(b) ==> r.cacheable == b,
        fi.cacheable is None ==> !r.cacheable,
        fi.persisted matches Some(b) ==> r.persisted == b,
        fi.persisted is None ==> !r.persisted,
        fi.mount_point matches Some(b) ==> r.mount_point == b,
        fi.mount_point is None ==> !r.mount_point,
        r.block_ids@ == fi.block_ids@,
        r.xattr@ == fi.xattr@,
        r.symlink == fi.symlink,
{
}

proof fn lemma_block_map(infos: Seq<FileBlockInfo>, i: int, id: i64)
    requires
        0 <= i < infos.len(),
        infos[i].block_info matches Some(b) && b.block_id == Some(id),
        forall|k: int|
            i < k < infos.len() ==> !((#[trigger] infos[k]).block_info matches Some(b)
                && b.block_id == Some(id)),
    ensures
        block_map(infos).dom().contains(id),
        block_map(infos)[id] == infos[i],
    decreases infos.len(),
{
    let before = infos.drop_last();
    if i < infos.len() - 1 {
        assert(before[i] == infos[i]);
        assert forall|k: int| i < k < before.len() implies !((#[trigger] before[k]).block_info
            matches Some(b) && b.block_id == Some(id)) by {
            assert(before[k] == infos[k]);
        }
        lemma_block_map(before, i, id);
        assert(infos[infos.len() - 1] == infos.last());
    }
}

proof fn lemma_block_map_holds_reports(infos: Seq<FileBlockInfo>, id: i64)
    requires
        block_map(infos).dom().contains(id),
    ensures
        exists|i: int|
            0 <= i < infos.len() && #[trigger] infos[i] == block_map(infos)[id]
                && infos[i].block_info is Some && infos[i].block_info->0.block_id == Some(id),
    decreases infos.len(),
{
    if infos.len() > 0 {
        let before = infos.drop_last();
        let last = infos.last();
        assert(infos[infos.len() - 1] == last);
        if !(last.block_info is Some && last.block_info->0.block_id == Some(id)) {
            lemma_block_map_holds_reports(before, id);
            let i = choose|i: int|
                0 <= i < before.len() && #[trigger] before[i] == block_map(before)[id]
                    && before[i].block_info is Some && before[i].block_info->0.block_id == Some(id);
            assert(infos[i] == before[i]);
        }
    }
}

/// A block that the master reported is found under its identifier, unless a later one
/// has the same, and only blocks that were reported are found.
pub proof fn law_reported_blocks_are_found(
    fi: FileInfo,
    status: URIStatus,
    id: i64,
    found: Option<&FileBlockInfo>,
)
    requires
        call_ensures(URIStatus::from_proto, (fi,), status),
        call_ensures(URIStatus::get_block_info, (&status, id), found),
    ensures
        forall|i: int|
            0 <= i < fi.file_block_infos@.len() && (#[trigger] fi.file_block_infos@[i]).block_info
                is Some && fi.file_block_infos@[i].block_info->0.block_id == Some(id) && (
            forall|k: int|
                i < k < fi.file_block_infos@.len() ==> !((
                #[trigger] fi.file_block_infos@[k]).block_info matches Some(b) && b.block_id
                    == Some(id))) ==> found == Some(&fi.file_block_infos@[i]),
        found matches Some(info) ==> exists|i: int|
            0 <= i < fi.file_block_infos@.len() && #[trigger] fi.file_block_infos@[i] == *info
                && info.block_info is Some && info.block_info->0.block_id == Some(id),
{
    let infos = fi.file_block_infos@;
    assert forall|i: int|
        0 <= i < infos.len() && (#[trigger] infos[i]).block_info is Some
            && infos[i].block_info->0.block_id == Some(id) && (forall|k: int|
            i < k < infos.len() ==> !((#[trigger] infos[k]).block_info matches Some(b)
                && b.block_id == Some(id))) implies found == Some(&infos[i]) by {
        lemma_block_map(infos, i, id);
    }
    if found is Some {
        lemma_block_map_holds_reports(infos, id);
    }
}

/// Whether a status tells of the path of a report what a caller looks at.
pub open spec fn tells_of(status: URIStatus, report: FileInfo) -> bool {
    &&& report.path matches Some(p) ==> status.path@ == p@
    &&& report.length matches Some(n) ==> status.length == n
    &&& report.folder matches Some(b) ==> status.folder == b
    &&& report.completed matches Some(b) ==> status.completed == b
    &&& report.last_modification_time_ms matches Some(t) ==> status.last_modification_time_ms == t
}

/// A listing gives one status for each reported entry, in the order of the report.
pub proof fn law_listing_keeps_every_entry(reports: Vec<FileInfo>, r: Vec<URIStatus>)
    requires
        call_ensures(statuses_of, (reports,), r),
    ensures
        r@.len() == reports@.len(),
        forall|i: int| 0 <= i < r@.len() ==> tells_of(#[trigger] r@[i], reports@[i]),
{
}

/// Whether the report is that of a directory at `path`.
pub open spec fn is_directory(report: FileInfo, path: Seq<char>) -> bool {
    &&& report.folder == Some(true)
    &&& match report.path {
        Some(p) => p@ == path,
        None => path.len() == 0,
    }
}

proof fn lemma_directories(reports: Seq<FileInfo>, path: Seq<char>)
    ensures
        directories(reports).contains(path) <==> exists|i: int|
            0 <= i < reports.len() && is_directory(#[trigger] reports[i], path),
        directories(reports).len() <= reports.len(),
    decreases reports.len(),
{
    if reports.len() > 0 {
        let before = reports.drop_last();
        let n = reports.len() - 1;
        lemma_directories(before, path);
        assert(forall|i: int| 0 <= i < n ==> before[i] == reports[i]);
        assert(path.len() == 0 ==> path =~= Seq::empty());
        if exists|i: int| 0 <= i < n && is_directory(#[trigger] before[i], path) {
            let i = choose|i: int| 0 <= i < n && is_directory(#[trigger] before[i], path);
            assert(is_directory(reports[i], path));
        }
        let dirs = directories(before);
        if reports[n].folder == Some(true) {
            let all = directories(reports);
            assert(all.drop_last() =~= dirs);
            if dirs.contains(path) {
                let k = dirs.index_of(path);
                assert(all[k] == path);
            }
            if all.contains(path) {
                let k = all.index_of(path);
                if k < dirs.len() {
                    assert(dirs[k] == path);
                }
            }
            assert(all[dirs.len() as int] == all.last());
        }
    } else {
        assert(!directories(reports).contains(path));
    }
}

/// Listing a directory finds all of its entries, behind those that were found before,
/// and a path waits to be listed exactly if it waited before or is a directory among
/// the entries.
pub proof fn law_tree_listing_takes_in_every_entry(
    listing: &mut TreeListing,
    reports: Vec<FileInfo>,
    path: Seq<char>,
)
    requires
        call_ensures(TreeListing::listed, (listing, reports), ()),
    ensures
        final(listing).found@.len() == old(listing).found@.len() + reports@.len(),
        forall|i: int|
            0 <= i < old(listing).found@.len() ==> #[trigger] final(listing).found@[i]
                == old(listing).found@[i],
        forall|i: int|
            0 <= i < reports@.len() ==> tells_of(
                final(listing).found@[old(listing).found@.len() + i],
                #[trigger] reports@[i],
            ),
        views(final(listing).queue@).contains(path) <==> views(old(listing).queue@).contains(path)
            || exists|i: int|
            0 <= i < reports@.len() && is_directory(#[trigger] reports@[i], path),
        views(final(listing).queue@).take(old(listing).queue@.len() as int) == views(
            old(listing).queue@,
        ),
{
    let before = old(listing).found@;
    let after = final(listing).found@;
    assert forall|i: int| 0 <= i < before.len() implies #[trigger] after[i] == before[i] by {
        assert(after.take(before.len() as int)[i] == after[i]);
    }
    assert forall|i: int| 0 <= i < reports@.len() implies tells_of(
        after[before.len() + i],
        #[trigger] reports@[i],
    ) by {
        assert(after.skip(before.len() as int)[i] == after[before.len() + i]);
    }
    lemma_directories(reports@, path);
    let waiting = views(old(listing).queue@);
    let dirs = directories(reports@);
    let all = waiting + dirs;
    if waiting.contains(path) {
        assert(all[waiting.index_of(path)] == path);
    }
    if dirs.contains(path) {
        assert(all[waiting.len() + dirs.index_of(path)] == path);
    }
    if all.contains(path) {
        let k = all.index_of(path);
        if k < waiting.len() {
            assert(waiting[k] == path);
        } else {
            assert(dirs[k - waiting.len()] == path);
        }
    }
    assert(all.take(waiting.len() as int) =~= waiting);
}

/// A write type that the caller gives is used, whatever the directory and the
/// configuration say.
pub proof fn law_given_write_type_is_used(
    fs: BaseFileSystem,
    options: CreateFileOptions,
    parent: Option<Result<URIStatus>>,
    wt: WriteType,
    r: WriteType,
)
    requires
        call_ensures(BaseFileSystem::resolve_write_type, (&fs, &options, &parent), r),
        options.write_type == WriteTypeXAttr::Explicit(wt),
    ensures
        r == wt,
{
}

/// Whether the directory names no write type: it was not looked at, could not be looked
/// at, or lacks the attribute.
pub open spec fn names_none(parent: Option<Result<URIStatus>>) -> bool {
    match parent {
        Some(Ok(status)) => !status.xattr@.dom().contains("innerWriteType"@),
        _ => true,
    }
}

/// Where neither the caller nor the directory names a write type, the configured one is
/// used, whichever of the five it is, and only a configuration without one leads to a
/// file that is in the cache alone.
pub proof fn law_configured_write_type_is_used(
    fs: BaseFileSystem,
    options: CreateFileOptions,
    parent: Option<Result<URIStatus>>,
    wt: WriteType,
    r: WriteType,
)
    requires
        call_ensures(BaseFileSystem::resolve_write_type, (&fs, &options, &parent), r),
        options.write_type is Inherit,
        names_none(parent),
    ensures
        fs.config.write_type == Some(wt.proto().number()) ==> r == wt,
        fs.config.write_type matches Some(n) ==> 1 <= n <= 5 ==> r.proto().number() == n,
        !(fs.config.write_type matches Some(n) && 1 <= n <= 5) ==> r is MustCache,
{
}

/// The write type that the directory names, in any case of its letters, outranks the
/// configured one.
pub proof fn law_write_type_of_the_directory_is_used(
    fs: BaseFileSystem,
    options: CreateFileOptions,
    status: URIStatus,
    wt: WriteType,
    r: WriteType,
)
    requires
        call_ensures(BaseFileSystem::resolve_write_type, (&fs, &options, &Some(Ok(status))), r),
        options.write_type is Inherit,
        status.xattr@.dom().contains("innerWriteType"@),
        valid_utf8(status.xattr@["innerWriteType"@]@),
        lowered(decode_utf8(status.xattr@["innerWriteType"@]@)) == wt.name(),
    ensures
        r == wt,
{
    crate::config::kinds::law_write_type_name_is_read_back(wt);
    reveal_strlit("must_cache");
    reveal_strlit("try_cache");
    reveal_strlit("cache_through");
    reveal_strlit("through");
    reveal_strlit("async_through");
    assert(lowered(wt.name()) =~= wt.name());
}

/// What a caller asks for is what the master is asked for.
pub proof fn law_create_options_carry_the_request(
    options: CreateFileOptions,
    write_type: WriteType,
    r: CreateFilePOptions,
)
    requires
        call_ensures(BaseFileSystem::create_options, (&options, write_type), r),
    ensures
        r.block_size_bytes == options.block_size_bytes,
        r.replication_max == options.replication_max,
        r.recursive == Some(options.recursive),
        r.write_type == Some(write_type.proto().number()),
        r.mode is None,
{
}

proof fn lemma_trailing(s: Seq<char>, slashes: Seq<char>)
    requires
        s.len() == 0 || s.last() != '/',
        forall|i: int| 0 <= i < slashes.len() ==> slashes[i] == '/',
    ensures
        drop_trailing(s + slashes, only('/')) == s,
    decreases slashes.len(),
{
    if slashes.len() > 0 {
        assert((s + slashes).drop_last() =~= s + slashes.drop_last());
        assert((s + slashes).last() == '/');
        lemma_trailing(s, slashes.drop_last());
    } else {
        assert(s + slashes =~= s);
    }
}

proof fn lemma_last_slash(s: Seq<char>, at: int, end: int)
    requires
        -1 <= at < end <= s.len(),
        at >= 0 ==> s[at] == '/',
        forall|i: int| at < i < end ==> s[i] != '/',
    ensures
        last_before(s, '/', end) == at,
    decreases end,
{
    if end > 0 && at < end - 1 {
        lemma_last_slash(s, at, end - 1);
    }
}

/// The path above `dir/name` is `dir`, and above `/name` it is the root, with any
/// number of slashes behind the name. A name alone has none above it.
pub proof fn law_parent_of_a_child(
    path: &str,
    dir: Seq<char>,
    name: Seq<char>,
    slashes: Seq<char>,
    r: Option<String>,
)
    requires
        call_ensures(BaseFileSystem::parent_path, (path,), r),
        name.len() > 0,
        forall|i: int| 0 <= i < name.len() ==> name[i] != '/',
        forall|i: int| 0 <= i < slashes.len() ==> slashes[i] == '/',
    ensures
        path@ == dir.push('/') + name + slashes && dir.len() > 0 ==> (r matches Some(s) && s@
            == dir),
        path@ == seq!['/'] + name + slashes ==> (r matches Some(s) && s@ == seq!['/']),
        path@ == name + slashes ==> r is None,
        path@ == slashes ==> r is None,
{
    if path@ == dir.push('/') + name + slashes && dir.len() > 0 {
        let s = dir.push('/') + name;
        assert(s.last() == name.last());
        lemma_trailing(s, slashes);
        assert forall|i: int| dir.len() < i < s.len() implies s[i] != '/' by {
            assert(s[i] == name[i - dir.len() - 1]);
        }
        lemma_last_slash(s, dir.len() as int, s.len() as int);
        assert(s.take(dir.len() as int) =~= dir);
    }
    if path@ == seq!['/'] + name + slashes {
        let s = seq!['/'] + name;
        assert(s.last() == name.last());
        lemma_trailing(s, slashes);
        assert forall|i: int| 0 < i < s.len() implies s[i] != '/' by {
            assert(s[i] == name[i - 1]);
        }
        lemma_last_slash(s, 0, s.len() as int);
    }
    if path@ == name + slashes {
        lemma_trailing(name, slashes);
        lemma_last_slash(name, -1, name.len() as int);
    }
    if path@ == slashes {
        let none = Seq::<char>::empty();
        lemma_trailing(none, slashes);
        assert(none + slashes =~= slashes);
    }
}

/// The directory is looked at exactly where it decides the write type.
pub proof fn law_directory_is_inspected_to_inherit(
    path: &str,
    options: CreateFileOptions,
    above: Option<String>,
    r: Option<String>,
)
    requires
        call_ensures(BaseFileSystem::parent_path, (path,), above),
        call_ensures(BaseFileSystem::directory_to_inspect, (path, &options), r),
    ensures
        options.write_type is Explicit ==> r is None,
        options.write_type is Inherit ==> (r is Some <==> above is Some),
        options.write_type is Inherit && above is Some ==> r->0@ == above->0@,
{
}

/// A path exists if it is a directory or a completed file; one that is not found does
/// not, and any other failure is handed on as it is.
pub proof fn law_only_usable_paths_exist(outcome: Result<URIStatus>, r: Result<bool>)
    requires
        call_ensures(BaseFileSystem::path_exists, (outcome,), r),
    ensures
        outcome matches Ok(status) ==> r is Ok && r->Ok_0 == (status.folder || status.completed),
        outcome matches Err(Error::NotFound { .. }) ==> r is Ok && !r->Ok_0,
        outcome matches Err(e) ==> !(e is NotFound) ==> r == Err::<bool, Error>(e),
{
}

/// The block with a byte of the file, and the offset in it, lead back to that byte: the
/// block starts no later, and the offset lies in it.
pub proof fn law_block_holds_the_offset(
    status: URIStatus,
    offset: i64,
    place: Option<usize>,
    within: Option<i64>,
)
    requires
        call_ensures(URIStatus::block_index_for_offset, (&status, offset), place),
        call_ensures(URIStatus::offset_in_block, (&status, offset), within),
        0 <= offset,
    ensures
        place is Some <==> status.block_size_bytes > 0 && offset < status.length,
        within is Some <==> place is Some,
        place is Some && offset / status.block_size_bytes <= usize::MAX ==> place->0
            * status.block_size_bytes + within->0 == offset && 0 <= within->0
            < status.block_size_bytes,
{
    if place is Some {
        crate::fs::uri_status::law_offset_is_recovered(offset, status.block_size_bytes);
        vstd::arithmetic::div_mod::lemma_div_pos_is_pos(
            offset as int,
            status.block_size_bytes as int,
        );
    }
}

/// A block that lies in the file ends where the next one starts, or at the end of the
/// file; a block behind the end has no bytes.
pub proof fn law_block_ends_at_the_next_or_the_end(
    file_length: i64,
    block_size: i64,
    block_index: u64,
    r: i64,
)
    requires
        call_ensures(ufs_block_length, (file_length, block_size, block_index), r),
        block_size > 0,
        file_length >= 0,
    ensures
        0 <= r <= block_size,
        (block_index + 1) * block_size <= file_length ==> r == block_size,
        block_index * block_size < file_length && file_length < (block_index + 1) * block_size
            ==> block_index * block_size + r == file_length,
        file_length <= block_index * block_size ==> r == 0,
{
    assert((block_index + 1) * block_size == block_index * block_size + block_size)
        by (nonlinear_arith);
}

/// A directory names a write type exactly if its attribute spells one.
pub proof fn law_attribute_spells_the_write_type(
    xattr: vstd::hash_map::StringHashMap<Vec<u8>>,
    wt: WriteType,
    r: Option<WriteType>,
)
    requires
        call_ensures(get_write_type_from_xattr, (&xattr,), r),
    ensures
        !xattr@.dom().contains("innerWriteType"@) ==> r is None,
        xattr@.dom().contains("innerWriteType"@) && !valid_utf8(xattr@["innerWriteType"@]@)
            ==> r is None,
        xattr@.dom().contains("innerWriteType"@) && valid_utf8(xattr@["innerWriteType"@]@) ==> (r
            == Some(wt) <==> lowered(decode_utf8(xattr@["innerWriteType"@]@)) == wt.name()),
{
    crate::config::kinds::law_write_type_name_is_read_back(wt);
    reveal_strlit("must_cache");
    reveal_strlit("try_cache");
    reveal_strlit("cache_through");
    reveal_strlit("through");
    reveal_strlit("async_through");
    assert(lowered(wt.name()) =~= wt.name());
}

/// The directories of a tree are listed in the order in which they were found.
pub proof fn law_directories_are_listed_in_order(t: &mut TreeListing, r: Option<String>)
    requires
        call_ensures(TreeListing::next_directory, (t,), r),
    ensures
        (r is None) == (old(t).queue@.len() == 0),
        r matches Some(p) ==> p == old(t).queue@[0] && final(t).queue@ == old(t).queue@.skip(1),
        final(t).found == old(t).found,
{
}

/// A file system works with the configuration that it is given.
pub proof fn law_file_system_keeps_its_configuration(
    c: GoosefsConfig,
    fs: BaseFileSystem,
    r: &GoosefsConfig,
)
    requires
        call_ensures(BaseFileSystem::new, (c,), fs),
        call_ensures(BaseFileSystem::config, (&fs,), r),
    ensures
        *r == c,
{
}

/// The listing of a tree starts with its root, has found nothing then, and ends with all
/// that it found.
pub proof fn law_tree_is_listed_from_its_root(
    path: &str,
    fresh: TreeListing,
    t: &mut TreeListing,
    first: Option<String>,
    end: TreeListing,
    all: Vec<URIStatus>,
)
    requires
        call_ensures(TreeListing::new, (path,), fresh),
        *old(t) == fresh,
        call_ensures(TreeListing::next_directory, (t,), first),
        call_ensures(TreeListing::finish, (end,), all),
    ensures
        fresh.found@.len() == 0,
        first matches Some(p) && p@ == path@,
        final(t).queue@.len() == 0,
        all == end.found,
{
    let q = views(fresh.queue@);
    assert(q.len() == fresh.queue@.len());
    assert(q[0] == fresh.queue@[0]@);
}

} // verus!
