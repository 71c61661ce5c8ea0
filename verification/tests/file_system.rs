//! Paths, options, statuses and write types.

use goosefs_sdk::config::{GoosefsConfig, TextMap, WriteType};
use goosefs_sdk::error::Error;
use goosefs_sdk::fs::base_filesystem::{statuses_of, BaseFileSystem, TreeListing};
use goosefs_sdk::fs::options::{
    ufs_block_length, CreateFileOptions, DeleteOptions, GetStatusOptions, InStreamOptions,
    ListStatusOptions, OpenFileOptions, ReadType,
};
use goosefs_sdk::fs::uri_status::URIStatus;
use goosefs_sdk::fs::write_type::{
    get_write_type_from_xattr, WriteTypeXAttr, WRITE_TYPE_XATTR_KEY,
};
use goosefs_sdk::io::write_strategy::{complete_create_options, WritePolicy};
use goosefs_sdk::proto::{
    BlockInfo, FileBlockInfo, FileInfo, LoadMetadataPType, PMode, WorkerNetAddress,
};
use goosefs_sdk::StringHashMap;

fn xattr(key: &str, val: &str) -> StringHashMap<Vec<u8>> {
    let mut m = StringHashMap::new();
    m.insert(key.to_string(), val.as_bytes().to_vec());
    m
}

fn make_file_block_info(block_id: i64, offset: i64) -> FileBlockInfo {
    FileBlockInfo {
        block_info: Some(BlockInfo {
            block_id: Some(block_id),
            length: Some(64 * 1024 * 1024),
            max_replicas: Some(1),
        }),
        offset: Some(offset),
        ufs_locations: vec![WorkerNetAddress {
            host: Some("worker1".to_string()),
            rpc_port: Some(9203),
        }],
        ufs_string_locations: vec![],
    }
}

fn make_file_info() -> FileInfo {
    FileInfo {
        file_id: Some(42),
        name: Some("hello.txt".to_string()),
        path: Some("/data/hello.txt".to_string()),
        ufs_path: Some("cos://bucket/hello.txt".to_string()),
        length: Some(128 * 1024 * 1024),
        block_size_bytes: Some(64 * 1024 * 1024),
        creation_time_ms: Some(1_700_000_000_000),
        completed: Some(true),
        folder: Some(false),
        cacheable: Some(true),
        persisted: Some(true),
        block_ids: vec![1001, 1002],
        last_modification_time_ms: Some(1_700_000_001_000),
        owner: Some("alice".to_string()),
        group: Some("staff".to_string()),
        mode: Some(0o644),
        persistence_state: Some("PERSISTED".to_string()),
        mount_id: Some(7),
        in_goose_fs_percentage: Some(100),
        in_memory_percentage: Some(50),
        file_block_infos: vec![
            make_file_block_info(1001, 0),
            make_file_block_info(1002, 64 * 1024 * 1024),
        ],
        xattr: xattr("innerWriteType", "CACHE_THROUGH"),
        ..Default::default()
    }
}

#[test]
fn test_parent_path_normal() {
    assert_eq!(
        BaseFileSystem::parent_path("/data/hello.txt"),
        Some("/data".to_string())
    );
}

#[test]
fn test_parent_path_root_child() {
    assert_eq!(
        BaseFileSystem::parent_path("/hello.txt"),
        Some("/".to_string())
    );
}

#[test]
fn test_parent_path_root() {
    assert_eq!(BaseFileSystem::parent_path("/"), None);
}

#[test]
fn test_parent_path_nested() {
    assert_eq!(
        BaseFileSystem::parent_path("/a/b/c/file.parquet"),
        Some("/a/b/c".to_string())
    );
}

#[test]
fn test_parent_path_trailing_slash() {
    assert_eq!(
        BaseFileSystem::parent_path("/data/dir/"),
        Some("/data".to_string())
    );
}

#[test]
fn test_from_context_sets_ctx() {
}

#[test]
fn test_get_must_cache() {
    let x = xattr(WRITE_TYPE_XATTR_KEY, "MUST_CACHE");
    assert_eq!(get_write_type_from_xattr(&x), Some(WriteType::MustCache));
}

#[test]
fn test_get_cache_through() {
    let x = xattr(WRITE_TYPE_XATTR_KEY, "CACHE_THROUGH");
    assert_eq!(get_write_type_from_xattr(&x), Some(WriteType::CacheThrough));
}

#[test]
fn test_get_through() {
    let x = xattr(WRITE_TYPE_XATTR_KEY, "THROUGH");
    assert_eq!(get_write_type_from_xattr(&x), Some(WriteType::Through));
}

#[test]
fn test_get_async_through() {
    let x = xattr(WRITE_TYPE_XATTR_KEY, "ASYNC_THROUGH");
    assert_eq!(get_write_type_from_xattr(&x), Some(WriteType::AsyncThrough));
}

#[test]
fn test_key_absent_returns_none() {
    let x = xattr("other_key", "MUST_CACHE");
    assert_eq!(get_write_type_from_xattr(&x), None);
}

#[test]
fn test_invalid_value_returns_none() {
    let x = xattr(WRITE_TYPE_XATTR_KEY, "NOT_A_WRITE_TYPE");
    assert_eq!(get_write_type_from_xattr(&x), None);
}

#[test]
fn test_empty_map_returns_none() {
    assert_eq!(get_write_type_from_xattr(&StringHashMap::new()), None);
}

#[test]
fn test_write_type_xattr_default_is_inherit() {
    assert_eq!(WriteTypeXAttr::default(), WriteTypeXAttr::Inherit);
}

#[test]
fn test_from_proto_basic_fields() {
    let fi = make_file_info();
    let status = URIStatus::from_proto(fi);

    assert_eq!(status.file_id, 42);
    assert_eq!(status.name, "hello.txt");
    assert_eq!(status.path, "/data/hello.txt");
    assert_eq!(status.ufs_path, "cos://bucket/hello.txt");
    assert_eq!(status.length, 128 * 1024 * 1024);
    assert_eq!(status.block_size_bytes, 64 * 1024 * 1024);
    assert_eq!(status.block_ids, vec![1001, 1002]);
    assert!(status.completed);
    assert!(!status.folder);
    assert!(status.cacheable);
    assert!(status.persisted);
    assert_eq!(status.owner, "alice");
    assert_eq!(status.group, "staff");
    assert_eq!(status.mode, 0o644);
    assert_eq!(status.in_goose_fs_percentage, 100);
    assert_eq!(status.in_memory_percentage, 50);
    assert_eq!(status.mount_id, 7);
}

#[test]
fn test_block_info_map_built_correctly() {
    let fi = make_file_info();
    let status = URIStatus::from_proto(fi);

    assert!(status.has_block_infos());
    assert_eq!(status.block_infos().len(), 2);

    let bi1 = status.get_block_info(1001).expect("block 1001 missing");
    assert_eq!(bi1.offset, Some(0));
    assert_eq!(bi1.block_info.as_ref().unwrap().block_id, Some(1001));

    let bi2 = status.get_block_info(1002).expect("block 1002 missing");
    assert_eq!(bi2.offset, Some(64 * 1024 * 1024));
}

#[test]
fn test_get_block_info_missing_returns_none() {
    let fi = make_file_info();
    let status = URIStatus::from_proto(fi);
    assert!(status.get_block_info(9999).is_none());
}

#[test]
fn test_add_block_info() {
    let fi = make_file_info();
    let mut status = URIStatus::from_proto(fi);

    let new_fbi = make_file_block_info(1003, 128 * 1024 * 1024);
    status.add_block_info(new_fbi);

    assert!(status.get_block_info(1003).is_some());
}

#[test]
fn test_add_block_info_without_block_id_is_noop() {
    let fi = make_file_info();
    let mut status = URIStatus::from_proto(fi);
    let initial_count = status.block_infos().len();

    let bad_fbi = FileBlockInfo {
        block_info: None,
        offset: Some(0),
        ufs_locations: vec![],
        ufs_string_locations: vec![],
    };
    status.add_block_info(bad_fbi);
    assert_eq!(status.block_infos().len(), initial_count);
}

#[test]
fn test_is_readable_completed_file() {
    let fi = make_file_info(); // completed=true, folder=false
    let status = URIStatus::from_proto(fi);
    assert!(status.is_readable());
}

#[test]
fn test_is_readable_folder() {
    let fi = FileInfo {
        completed: Some(false),
        folder: Some(true),
        ..Default::default()
    };
    let status = URIStatus::from_proto(fi);
    assert!(status.is_readable());
}

#[test]
fn test_is_not_readable_incomplete_file() {
    let fi = FileInfo {
        completed: Some(false),
        folder: Some(false),
        ..Default::default()
    };
    let status = URIStatus::from_proto(fi);
    assert!(!status.is_readable());
}

#[test]
fn test_block_index_for_offset() {
    let fi = make_file_info(); // length=128MiB, block_size=64MiB
    let status = URIStatus::from_proto(fi);

    assert_eq!(status.block_index_for_offset(0), Some(0));
    assert_eq!(status.block_index_for_offset(64 * 1024 * 1024 - 1), Some(0));
    assert_eq!(status.block_index_for_offset(64 * 1024 * 1024), Some(1));
    assert_eq!(
        status.block_index_for_offset(128 * 1024 * 1024 - 1),
        Some(1)
    );
    assert_eq!(status.block_index_for_offset(128 * 1024 * 1024), None);
}

#[test]
fn uri_status_test_offset_in_block() {
    let fi = make_file_info();
    let status = URIStatus::from_proto(fi);

    assert_eq!(status.offset_in_block(0), Some(0));
    assert_eq!(status.offset_in_block(100), Some(100));
    assert_eq!(status.offset_in_block(64 * 1024 * 1024), Some(0));
    assert_eq!(status.offset_in_block(64 * 1024 * 1024 + 100), Some(100));
}

#[test]
fn test_xattr_preserved() {
    let fi = make_file_info();
    let status = URIStatus::from_proto(fi);

    let val = status.xattr.get("innerWriteType").expect("xattr missing");
    assert_eq!(val, b"CACHE_THROUGH");
}

#[test]
fn test_empty_file_info_defaults() {
    let status = URIStatus::from_proto(FileInfo::default());

    assert_eq!(status.file_id, 0);
    assert_eq!(status.name, "");
    assert_eq!(status.path, "");
    assert_eq!(status.length, 0);
    assert!(!status.completed);
    assert!(!status.folder);
    assert!(!status.is_readable());
    assert_eq!(status.block_count(), 0);
    assert!(!status.has_block_infos());
}

#[test]
fn test_default_delete_options() {
    let opts = DeleteOptions::default();
    assert!(!opts.recursive);
    assert!(
        opts.unchecked,
        "unchecked by default"
    );
    assert!(!opts.goosefs_only);
}

#[test]
fn test_recursive_helper() {
    let opts = DeleteOptions::recursive();
    assert!(opts.recursive);
    assert!(
        opts.unchecked,
        "recursive() inherits Default.unchecked = true"
    );
    assert!(!opts.goosefs_only);
}

#[test]
fn test_for_cancel_helper() {
    let opts = DeleteOptions::for_cancel();
    assert!(!opts.recursive);
    assert!(opts.unchecked);
    assert!(!opts.goosefs_only);
}

#[test]
fn test_goosefs_only_unchecked_helper() {
    let opts = DeleteOptions::goosefs_only_unchecked();
    assert!(!opts.recursive);
    assert!(opts.unchecked);
    assert!(opts.goosefs_only);
}

#[test]
fn test_read_type_default_is_cache() {
    assert_eq!(ReadType::default(), ReadType::Cache);
}

#[test]
fn test_read_type_proto_values() {
    assert_eq!(ReadType::NoCache.to_proto(), 1);
    assert_eq!(ReadType::Cache.to_proto(), 2);
}

#[test]
fn test_in_stream_defaults() {
    let opts = InStreamOptions::default();
    assert_eq!(opts.read_type, ReadType::Cache);
    assert!(!opts.position_short);
    assert_eq!(opts.max_ufs_read_concurrency, 8);
    assert_eq!(opts.prefetch_window, 1);
}

#[test]
fn test_in_stream_no_cache() {
    let opts = InStreamOptions::no_cache();
    assert_eq!(opts.read_type, ReadType::NoCache);
}

#[test]
fn test_in_stream_positioned() {
    let opts = InStreamOptions::default().positioned();
    assert!(opts.position_short);
}

#[test]
fn ufs_block_length_clamps_the_tail_block() {
    let bs = 1 << 20;

    assert_eq!(ufs_block_length(3 * bs, bs, 0), bs);
    assert_eq!(ufs_block_length(3 * bs, bs, 1), bs);

    assert_eq!(ufs_block_length(3 * bs, bs, 2), bs);

    assert_eq!(ufs_block_length(2 * bs + 100, bs, 0), bs);
    assert_eq!(ufs_block_length(2 * bs + 100, bs, 2), 100);
}

#[test]
fn ufs_block_length_reports_actual_length_for_sub_block_files() {
    let bs = 1 << 20;
    assert_eq!(ufs_block_length(13, bs, 0), 13);
    assert_eq!(ufs_block_length(447, bs, 0), 447);
    assert_eq!(ufs_block_length(0, bs, 0), 0);
}

#[test]
fn ufs_block_length_never_goes_negative() {
    let bs = 1 << 20;
    assert_eq!(ufs_block_length(13, bs, 5), 0);
    assert_eq!(ufs_block_length(13, 0, 0), 0);
    assert_eq!(ufs_block_length(13, -1, 0), 0);
}

#[test]
fn test_open_file_default() {
    let opts = OpenFileOptions::default();
    assert_eq!(opts.in_stream_options.read_type, ReadType::Cache);
}

#[test]
fn test_open_file_no_cache() {
    let opts = OpenFileOptions::no_cache();
    assert_eq!(opts.in_stream_options.read_type, ReadType::NoCache);
}

#[test]
fn test_create_file_default_inherits() {
    let opts = CreateFileOptions::default();
    assert_eq!(opts.write_type, WriteTypeXAttr::Inherit);
    assert!(opts.block_size_bytes.is_none());
    assert!(!opts.recursive);
}

#[test]
fn test_create_file_with_write_type() {
    let opts = CreateFileOptions::with_write_type(WriteType::CacheThrough);
    assert_eq!(
        opts.write_type,
        WriteTypeXAttr::Explicit(WriteType::CacheThrough)
    );
}

#[test]
fn test_get_status_options_always_sync() {
    let opts = GetStatusOptions::always_sync();
    assert_eq!(opts.sync_interval_ms, Some(0));
    assert!(opts.load_metadata_type.is_none());
}

#[test]
fn test_list_status_options_recursive_skips_defaults() {
    let opts = ListStatusOptions::recursive();
    assert!(opts.recursive);
    assert!(opts.sync_interval_ms.is_none());
    assert!(!opts.load_metadata_only);
}

#[test]
fn write_type_that_is_not_text_is_ignored() {
    let mut x = StringHashMap::new();
    x.insert(WRITE_TYPE_XATTR_KEY.to_string(), vec![0xff, 0xfe]);
    assert_eq!(get_write_type_from_xattr(&x), None);
}

#[test]
fn explicit_write_type_comes_first_then_the_directory_then_the_configuration() {
    let fs = BaseFileSystem::new(
        GoosefsConfig::new("127.0.0.1:9200", &TextMap::new()).with_write_type_enum(WriteType::Through),
    );
    let parent = Some(Ok(URIStatus::from_proto(make_file_info())));
    let explicit = CreateFileOptions::with_write_type(WriteType::AsyncThrough);
    let inherit = CreateFileOptions::default();
    assert_eq!(fs.resolve_write_type(&explicit, &parent), WriteType::AsyncThrough);
    assert_eq!(fs.resolve_write_type(&inherit, &parent), WriteType::CacheThrough);
    assert_eq!(fs.resolve_write_type(&inherit, &None), WriteType::Through);
    let failed = Some(Err(Error::NotFound { path: "/data".to_string() }));
    assert_eq!(fs.resolve_write_type(&inherit, &failed), WriteType::Through);
    let plain = BaseFileSystem::new(GoosefsConfig::new("127.0.0.1:9200", &TextMap::new()));
    assert_eq!(plain.resolve_write_type(&inherit, &None), WriteType::MustCache);
    assert_eq!(
        BaseFileSystem::directory_to_inspect("/data/a", &inherit),
        Some("/data".to_string())
    );
    assert_eq!(BaseFileSystem::directory_to_inspect("/data/a", &explicit), None);
}

#[test]
fn options_of_a_new_file_reach_the_master() {
    let asked = CreateFileOptions {
        block_size_bytes: Some(4096),
        replication_max: Some(3),
        recursive: true,
        ..CreateFileOptions::default()
    };
    let mut options = BaseFileSystem::create_options(&asked, WriteType::Through);
    assert_eq!(options.block_size_bytes, Some(4096));
    assert_eq!(options.replication_max, Some(3));
    assert_eq!(options.recursive, Some(true));
    assert_eq!(options.mode, None);
    let write_type = options.write_type;
    let policy = WritePolicy {
        block_size: 1024,
        chunk_size: 4,
        write_type: Some(1),
        file_replication_number: 1,
        file_replication_durable: 2,
        file_replication_durable_min: 2,
        file_write_max_node_retry: 3,
        file_async_persist_flush_enabled: true,
        file_persistence_initial_wait_time_ms: 0,
        local_ufs_client_ignore_block_stream_unknown_status: true,
    };
    let mode = PMode { owner_bits: 7, group_bits: 5, other_bits: 5 };
    let sent = complete_create_options(Some(options), &policy, mode);
    assert_eq!(sent.replication_max, Some(3));
    assert_eq!(sent.block_size_bytes, Some(4096));
    assert_eq!(sent.write_type, write_type);
    assert_eq!(sent.mode, Some(mode));
    options.block_size_bytes = Some(0);
    let sent = complete_create_options(Some(options), &policy, mode);
    assert_eq!(sent.block_size_bytes, Some(1024));
    let sent = complete_create_options(None, &policy, mode);
    assert_eq!(sent.replication_max, None);
    assert_eq!(sent.recursive, Some(true));
    assert_eq!(sent.write_type, Some(1));
    let plain = BaseFileSystem::create_options(&CreateFileOptions::default(), WriteType::Through);
    assert_eq!(plain.replication_max, None);
    assert_eq!(plain.recursive, Some(false));
}

#[test]
fn incomplete_file_does_not_exist_yet() {
    let done = URIStatus::from_proto(make_file_info());
    assert!(BaseFileSystem::path_exists(Ok(done)).unwrap());
    let open = URIStatus::from_proto(FileInfo {
        completed: Some(false),
        ..Default::default()
    });
    assert!(!BaseFileSystem::path_exists(Ok(open)).unwrap());
    let gone = Error::NotFound { path: "/a".to_string() };
    assert!(!BaseFileSystem::path_exists(Err(gone)).unwrap());
    let denied = Error::PermissionDenied { message: "no".to_string() };
    assert!(BaseFileSystem::path_exists(Err(denied)).is_err());
}

fn entry(path: &str, folder: bool) -> FileInfo {
    FileInfo {
        path: Some(path.to_string()),
        folder: Some(folder),
        ..Default::default()
    }
}

#[test]
fn tree_listing_visits_every_directory_once() {
    let mut listing = TreeListing::new("/");
    assert_eq!(listing.next_directory(), Some("/".to_string()));
    listing.listed(vec![entry("/a", true), entry("/f", false), entry("/b", true)]);
    assert_eq!(listing.next_directory(), Some("/a".to_string()));
    listing.listed(vec![entry("/a/c", true)]);
    assert_eq!(listing.next_directory(), Some("/b".to_string()));
    listing.listed(vec![]);
    assert_eq!(listing.next_directory(), Some("/a/c".to_string()));
    listing.listed(vec![entry("/a/c/g", false)]);
    assert_eq!(listing.next_directory(), None);
    let paths: Vec<String> = listing.finish().into_iter().map(|s| s.path).collect();
    assert_eq!(paths, vec!["/a", "/f", "/b", "/a/c", "/a/c/g"]);
}

#[test]
fn statuses_say_what_was_reported() {
    let all = statuses_of(vec![make_file_info(), entry("/d", true)]);
    assert_eq!(all.len(), 2);
    assert_eq!(all[0].owner, "alice");
    assert_eq!(all[0].persistence_state, "PERSISTED");
    assert!(all[1].is_folder());
    assert_eq!(all[1].path, "/d");
}

#[test]
fn added_block_is_found_and_counted_once() {
    let mut status = URIStatus::from_proto(make_file_info());
    status.add_block_info(make_file_block_info(1002, 5));
    assert_eq!(status.block_infos().len(), 2);
    assert_eq!(status.get_block_info(1002).unwrap().offset, Some(5));
}

#[test]
fn offset_is_recovered_from_block_and_offset_in_it() {
    let status = URIStatus::from_proto(make_file_info());
    for offset in [0i64, 1, 64 * 1024 * 1024 - 1, 64 * 1024 * 1024, 100_000_000] {
        let index = status.block_index_for_offset(offset).unwrap() as i64;
        let within = status.offset_in_block(offset).unwrap();
        assert_eq!(index * status.block_size_bytes + within, offset);
    }
}

#[test]
fn block_lengths_cover_the_file() {
    assert_eq!(ufs_block_length(150, 64, 0), 64);
    assert_eq!(ufs_block_length(150, 64, 1), 64);
    assert_eq!(ufs_block_length(150, 64, 2), 22);
}
