//! Finding the worker of a block, and reading a file block by block.

use bytes::Bytes;
use goosefs_sdk::error::Error;
use goosefs_sdk::io::connect::{worker_endpoint, ConnectAction, ConnectOp};
use goosefs_sdk::io::file_reader::{BlockAction, BlockReadOp, BlockReadPlan, GoosefsFileReader};
use goosefs_sdk::proto::{BlockInfo, FileBlockInfo, FileInfo, WorkerInfo, WorkerNetAddress};

fn worker(host: &str) -> WorkerInfo {
    WorkerInfo {
        address: Some(WorkerNetAddress {
            host: Some(host.to_string()),
            rpc_port: Some(9000),
        }),
        ..Default::default()
    }
}

fn failure() -> Error {
    Error::BlockIoError {
        message: "gone".to_string(),
    }
}

fn rejected() -> Error {
    Error::AuthenticationFailed {
        message: "token".to_string(),
    }
}

fn plan(place: u64, id: i64) -> BlockReadPlan {
    BlockReadPlan {
        block_index: place,
        block_id: id,
        offset_in_block: 5,
        length: 20,
    }
}

fn reader(plans: Vec<BlockReadPlan>) -> GoosefsFileReader {
    let info = FileInfo {
        length: Some(250),
        block_size_bytes: Some(100),
        ufs_path: Some("cosn://b/f".to_string()),
        mount_id: Some(3),
        ..Default::default()
    };
    GoosefsFileReader::new("/f", info, 1024, plans, 5, 40)
}

#[test]
fn endpoint_has_defaults() {
    assert_eq!(worker_endpoint(&worker("h").address.unwrap()), "h:9000");
    assert_eq!(worker_endpoint(&WorkerNetAddress::default()), "127.0.0.1:9203");
}

#[test]
fn connecting_tries_another_worker_once() {
    let (op, action) = ConnectOp::start();
    assert!(matches!(action, ConnectAction::Select));
    let (op, action) = op.selected(Ok(worker("a")));
    assert!(matches!(action, ConnectAction::Connect(ref e) if e == "a:9000"));
    let (op, action) = op.connected(Err(failure()));
    assert!(matches!(
        action,
        ConnectAction::FailAndSelect(ref a) if a.host.as_deref() == Some("a")
    ));
    let (op, action) = op.selected(Ok(worker("b")));
    assert!(matches!(action, ConnectAction::Connect(ref e) if e == "b:9000"));
    let (_, action) = op.connected(Err(failure()));
    assert!(matches!(action, ConnectAction::Fail(Error::BlockIoError { .. })));
}

#[test]
fn rejected_credentials_do_not_fail_the_worker() {
    let (op, _) = ConnectOp::start();
    let (op, _) = op.selected(Ok(worker("a")));
    let (op, action) = op.connected(Err(rejected()));
    assert!(matches!(action, ConnectAction::SelectAgain));
    let (op, _) = op.selected(Ok(worker("a")));
    let (_, action) = op.connected(Ok(()));
    assert!(matches!(action, ConnectAction::Connected));
}

#[test]
fn worker_without_address_is_an_error() {
    let (op, _) = ConnectOp::start();
    let (_, action) = op.selected(Ok(WorkerInfo::default()));
    assert!(matches!(
        action,
        ConnectAction::Fail(Error::Internal { message, .. }) if message == "worker has no address"
    ));
    let (op, _) = ConnectOp::start();
    let (op, _) = op.selected(Ok(worker("a")));
    let (op, _) = op.connected(Err(failure()));
    let (_, action) = op.selected(Ok(WorkerInfo::default()));
    assert!(matches!(
        action,
        ConnectAction::Fail(Error::Internal { message, .. }) if message == "retry worker has no address"
    ));
}

#[test]
fn blocks_are_read_one_after_the_other() {
    let mut s = reader(vec![plan(0, 7), plan(1, 0), plan(2, 9)]);
    let (op, action) = BlockReadOp::start(&mut s);
    assert!(matches!(action, BlockAction::Select));
    let (op, action) = op.selected(Ok(worker("a")));
    assert!(matches!(action, BlockAction::Connect(ref e) if e == "a:9000"));
    let (op, action) = op.connected(&s, Ok(()));
    match action {
        BlockAction::Read { block_id, offset, length, chunk_size, ufs_options } => {
            assert_eq!((block_id, offset, length, chunk_size), (7, 5, 20, 1024));
            let options = ufs_options.unwrap();
            assert_eq!(options.offset_in_file, Some(0));
            assert_eq!(options.block_size, Some(100));
            assert_eq!(options.mount_id, Some(3));
        }
        other => panic!("unexpected {:?}", other),
    }
    let (_, action) = op.read_done(&mut s, Ok(Bytes::from_static(b"abc")));
    assert!(matches!(action, BlockAction::Done(Ok(Some(ref b))) if b.len() == 3));
    assert_eq!(s.bytes_read(), 3);
    // The second part has no usable block.
    let (op, action) = BlockReadOp::start(&mut s);
    assert!(matches!(action, BlockAction::Select));
    assert_eq!(s.current_block_index(), 2);
    let (op, _) = op.selected(Ok(worker("a")));
    let (op, action) = op.connected(&s, Ok(()));
    assert!(matches!(
        action,
        BlockAction::Read { block_id: 9, ufs_options: Some(ref o), .. } if o.block_size == Some(50)
    ));
    op.read_done(&mut s, Ok(Bytes::new()));
    let (_, action) = BlockReadOp::start(&mut s);
    assert!(matches!(action, BlockAction::Done(Ok(None))));
    assert!(s.is_complete());
    assert_eq!(s.block_count(), 3);
}

#[test]
fn stale_credentials_are_renewed_once() {
    let mut s = reader(vec![plan(0, 7)]);
    let (op, _) = BlockReadOp::start(&mut s);
    let (op, _) = op.selected(Ok(worker("a")));
    let (op, action) = op.connected(&s, Err(rejected()));
    assert!(matches!(action, BlockAction::Reconnect(ref e) if e == "a:9000"));
    let (op, action) = op.connected(&s, Ok(()));
    assert!(matches!(action, BlockAction::Read { .. }));
    let (op, action) = op.read_done(&mut s, Err(rejected()));
    assert!(matches!(action, BlockAction::Refresh(ref e) if e == "a:9000"));
    let (op, action) = op.connected(&s, Ok(()));
    assert!(matches!(action, BlockAction::Read { .. }));
    let (_, action) = op.read_done(&mut s, Err(rejected()));
    assert!(matches!(
        action,
        BlockAction::Done(Err(Error::AuthenticationFailed { .. }))
    ));
}

#[test]
fn unreachable_worker_is_replaced_once() {
    let mut s = reader(vec![plan(0, 7)]);
    let (op, _) = BlockReadOp::start(&mut s);
    let (op, _) = op.selected(Ok(worker("a")));
    let (op, action) = op.connected(&s, Err(failure()));
    assert!(matches!(action, BlockAction::FailAndSelect(_)));
    let (_, action) = op.selected(Err(Error::NoWorkerAvailable {
        message: "none".to_string(),
    }));
    assert!(matches!(
        action,
        BlockAction::Done(Err(Error::BlockIoError { .. }))
    ));
}

#[test]
fn reported_block_number_comes_first() {
    let mut s = reader(vec![plan(0, 7)]);
    s.file_info.file_block_infos = vec![FileBlockInfo {
        block_info: Some(BlockInfo {
            block_id: Some(77),
            length: None,
            max_replicas: None,
        }),
        offset: None,
        ufs_locations: vec![],
        ufs_string_locations: vec![],
    }];
    assert_eq!(s.resolve_block_id(&plan(0, 7)), 77);
    assert_eq!(s.resolve_block_id(&plan(1, 8)), 8);
    assert_eq!(s.path(), "/f");
    assert_eq!(s.file_length(), 250);
    assert_eq!((s.offset(), s.length()), (5, 40));
}
