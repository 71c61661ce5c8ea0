//! Streams that read a file.

use bytes::Bytes;
use goosefs_sdk::config::{GoosefsConfig, TextMap};
use goosefs_sdk::error::Error;
use goosefs_sdk::fs::options::OpenFileOptions;
use goosefs_sdk::fs::uri_status::URIStatus;
use goosefs_sdk::io::async_reader::{
    bytes_to_copy, reported_position, GoosefsAsyncReader, PollRead, PollSeek, State,
};
use goosefs_sdk::io::file_in_stream::{
    check_config, check_readable, check_workers, GooseFsFileInStream, ReadToEnd, SeekFrom,
};
use goosefs_sdk::io::reader::StreamItem;
use goosefs_sdk::io::stream_read::{ReadAction, ReadOp};
use goosefs_sdk::io::stream_seek::{ReadAtOp, ReadAtStep, SeekAction, SeekOp};
use goosefs_sdk::proto::{Chunk, FileInfo, ReadResponse};

fn make_status(length: i64, block_size: i64) -> URIStatus {
    let num_blocks = (length + block_size - 1) / block_size;
    let block_ids: Vec<i64> = (1001..(1001 + num_blocks)).collect();
    let fi = FileInfo {
        length: Some(length),
        block_size_bytes: Some(block_size),
        block_ids: block_ids.clone(),
        completed: Some(true),
        folder: Some(false),
        ufs_path: Some(String::new()),
        ..Default::default()
    };
    URIStatus::from_proto(fi)
}

fn make_stream(status: URIStatus) -> GooseFsFileInStream {
    GooseFsFileInStream::new(status, 1024 * 1024, OpenFileOptions::default())
}

#[test]
fn test_block_index_calculation() {
    let bs = 64 * 1024 * 1024i64;
    let len = 3 * bs;
    let status = make_status(len, bs);

    let stream = make_stream(status);

    assert_eq!(stream.block_index_for_pos(0), 0);
    assert_eq!(stream.block_index_for_pos(bs - 1), 0);
    assert_eq!(stream.block_index_for_pos(bs), 1);
    assert_eq!(stream.block_index_for_pos(2 * bs), 2);
}

#[test]
fn file_in_stream_test_offset_in_block() {
    let bs = 64 * 1024 * 1024i64;
    let status = make_status(2 * bs, bs);
    let stream = make_stream(status);

    assert_eq!(stream.offset_in_block(0), 0);
    assert_eq!(stream.offset_in_block(100), 100);
    assert_eq!(stream.offset_in_block(bs), 0);
    assert_eq!(stream.offset_in_block(bs + 42), 42);
}

#[test]
fn test_remaining_in_block() {
    let bs = 64 * 1024 * 1024i64;
    let status = make_status(2 * bs, bs);
    let stream = make_stream(status);

    assert_eq!(stream.remaining_in_block(0), bs);
    assert_eq!(stream.remaining_in_block(bs - 100), 100);
    assert_eq!(stream.remaining_in_block(bs), bs);
}

#[test]
fn test_block_id_at() {
    let bs = 64 * 1024 * 1024i64;
    let status = make_status(2 * bs, bs);
    let stream = make_stream(status);

    assert_eq!(stream.block_id_at(0).unwrap(), 1001);
    assert_eq!(stream.block_id_at(1).unwrap(), 1002);
    assert!(stream.block_id_at(99).is_err());
}

#[test]
fn test_is_eof() {
    let bs = 1024i64;
    let status = make_status(bs, bs);
    let mut stream = make_stream(status);

    assert!(!stream.is_eof());
    stream.pos = bs;
    assert!(stream.is_eof());
}

#[test]
fn test_remaining() {
    let bs = 1024i64;
    let status = make_status(bs, bs);
    let mut stream = make_stream(status);

    assert_eq!(stream.remaining(), bs);
    stream.pos = 100;
    assert_eq!(stream.remaining(), bs - 100);
    stream.pos = bs;
    assert_eq!(stream.remaining(), 0);
}

#[test]
fn test_state_empty_replacement_round_trip() {
    let mut s: State<u8> = State::Empty;
    let replaced = std::mem::replace(&mut s, State::Empty);
    assert!(matches!(replaced, State::Empty));
    assert!(matches!(s, State::Empty));
}

#[test]
fn test_send_and_unpin() {
    fn assert_send<T: Send>() {}
    fn assert_unpin<T: Unpin>() {}
    assert_send::<GoosefsAsyncReader<GooseFsFileInStream>>();
    assert_unpin::<GoosefsAsyncReader<GooseFsFileInStream>>();
}

struct Workers {
    data: Vec<u8>,
    block_size: usize,
    piece: usize,
    open: Option<(usize, usize)>,
    opened: usize,
    positioned: usize,
}

impl Workers {
    fn new(len: usize, block_size: usize, piece: usize) -> Self {
        Workers {
            data: (0..len).map(|i| ((i * 31 + 7) % 256) as u8).collect(),
            block_size,
            piece,
            open: None,
            opened: 0,
            positioned: 0,
        }
    }

    fn at(&self, block_id: i64, offset: i64) -> usize {
        (block_id as usize - 1001) * self.block_size + offset as usize
    }

    fn next(&mut self) -> StreamItem {
        let (from, end) = self.open.unwrap();
        if from == end {
            return StreamItem::End;
        }
        let to = (from + self.piece).min(end);
        self.open = Some((to, end));
        StreamItem::Data(ReadResponse {
            chunk: Some(Chunk {
                data: Some(self.data[from..to].to_vec()),
            }),
        })
    }

    fn read(&mut self, s: &mut GooseFsFileInStream, want: usize) -> Result<Bytes, Error> {
        let (mut op, mut action) = ReadOp::start(s, want);
        loop {
            (op, action) = match action {
                ReadAction::Open(r) => {
                    let from = self.at(r.block_id, r.offset);
                    self.open = Some((from, from + r.length as usize));
                    self.opened += 1;
                    op.opened(s, Ok(()))
                }
                ReadAction::Positioned(r) => {
                    let from = self.at(r.block_id, r.offset);
                    self.positioned += 1;
                    let part = Bytes::copy_from_slice(&self.data[from..from + r.length as usize]);
                    op.positioned(s, Ok(part))
                }
                ReadAction::Item => {
                    let item = self.next();
                    op.item(s, item)
                }
                ReadAction::Done { ack, result } => {
                    if ack.is_some() {
                        s.ack_sent();
                    }
                    return result;
                }
            };
        }
    }

    fn seek(&mut self, s: &mut GooseFsFileInStream, from: SeekFrom) -> Result<i64, Error> {
        let (mut op, mut action) = SeekOp::start_from(s, from);
        loop {
            (op, action) = match action {
                SeekAction::Item { ack } => {
                    if ack.is_some() {
                        s.ack_sent();
                    }
                    let item = self.next();
                    op.item(s, item)
                }
                SeekAction::Done { ack, result } => {
                    if ack.is_some() {
                        s.ack_sent();
                    }
                    return result;
                }
            };
        }
    }

    fn read_at(&mut self, s: &GooseFsFileInStream, offset: i64, n: usize) -> Result<Bytes, Error> {
        let mut op = ReadAtOp::start(s, offset, n);
        loop {
            match op.next(s) {
                ReadAtStep::Fetch(r) => {
                    let from = self.at(r.block_id, r.offset);
                    let part = Bytes::copy_from_slice(&self.data[from..from + r.length as usize]);
                    op.fetched(s, part);
                }
                ReadAtStep::Done(result) => return result,
            }
        }
    }
}

#[test]
fn reads_hand_out_the_file_in_order() {
    for want in [1usize, 7, 100, 1000] {
        let mut workers = Workers::new(250, 100, 30);
        let mut s = make_stream(make_status(250, 100));
        let mut all = Vec::new();
        loop {
            let part = workers.read(&mut s, want).unwrap();
            if part.is_empty() {
                break;
            }
            assert!(part.len() <= want);
            all.extend_from_slice(&part);
            assert_eq!(s.pos(), all.len() as i64);
        }
        assert_eq!(all, workers.data);
        assert_eq!(workers.opened, 3);
        assert!(s.is_eof());
        assert_eq!(s.remaining(), 0);
    }
}

#[test]
fn near_seek_goes_on_in_the_stream() {
    let mut workers = Workers::new(250, 100, 30);
    let mut s = make_stream(make_status(250, 100));
    assert_eq!(&workers.read(&mut s, 5).unwrap()[..], &workers.data[..5]);
    assert_eq!(workers.seek(&mut s, SeekFrom::Start(70)).unwrap(), 70);
    let part = workers.read(&mut s, 10).unwrap();
    assert_eq!(&part[..], &workers.data[70..70 + part.len()]);
    assert_eq!(workers.opened, 1);
}

#[test]
fn seek_back_opens_the_stream_anew() {
    let mut workers = Workers::new(250, 100, 30);
    let mut s = make_stream(make_status(250, 100));
    workers.read(&mut s, 50).unwrap();
    assert_eq!(workers.seek(&mut s, SeekFrom::Current(-10)).unwrap(), 20);
    let part = workers.read(&mut s, 10).unwrap();
    assert_eq!(&part[..], &workers.data[20..20 + part.len()]);
    assert_eq!(workers.opened, 2);
}

#[test]
fn far_seek_is_followed_by_a_positioned_read() {
    let mut workers = Workers::new(250, 100, 30);
    let mut s = make_stream(make_status(250, 100));
    workers.read(&mut s, 5).unwrap();
    assert_eq!(workers.seek(&mut s, SeekFrom::Start(210)).unwrap(), 210);
    let part = workers.read(&mut s, 8).unwrap();
    assert_eq!(&part[..], &workers.data[210..218]);
    assert_eq!(workers.positioned, 1);
    let part = workers.read(&mut s, 8).unwrap();
    assert_eq!(&part[..], &workers.data[218..218 + part.len()]);
    assert_eq!(workers.positioned, 1);
}

#[test]
fn seek_targets_stay_in_the_file() {
    let s = make_stream(make_status(250, 100));
    assert_eq!(s.seek_target(SeekFrom::Start(u64::MAX)), 250);
    assert_eq!(s.seek_target(SeekFrom::End(-50)), 200);
    assert_eq!(s.seek_target(SeekFrom::End(i64::MIN)), 0);
    assert_eq!(s.seek_target(SeekFrom::Current(5)), 5);
    assert_eq!(s.len(), 250);
    assert!(!s.is_empty());
}

#[test]
fn reading_at_a_position_crosses_blocks_and_leaves_the_stream() {
    let mut workers = Workers::new(250, 100, 30);
    let s = make_stream(make_status(250, 100));
    assert_eq!(&workers.read_at(&s, 90, 130).unwrap()[..], &workers.data[90..220]);
    assert_eq!(&workers.read_at(&s, 240, 50).unwrap()[..], &workers.data[240..]);
    assert_eq!(workers.read_at(&s, 250, 1).unwrap().len(), 0);
    assert_eq!(s.pos(), 0);
}

#[test]
fn file_without_blocks_cannot_be_read() {
    let status = URIStatus::from_proto(FileInfo {
        length: Some(10),
        block_size_bytes: Some(10),
        completed: Some(true),
        ..Default::default()
    });
    let mut s = make_stream(status);
    let (_, action) = ReadOp::start(&mut s, 5);
    assert!(matches!(
        action,
        ReadAction::Done { result: Err(Error::Internal { .. }), .. }
    ));
}

#[test]
fn file_of_negative_length_is_at_its_end() {
    let status = URIStatus::from_proto(FileInfo {
        length: Some(-1),
        block_size_bytes: Some(10),
        block_ids: vec![1001],
        completed: Some(true),
        ..Default::default()
    });
    let mut s = make_stream(status);
    assert_eq!(s.len(), -1);
    assert_eq!(s.pos(), 0);
    assert!(!s.is_empty());
    assert!(s.is_eof());
    assert_eq!(s.remaining(), 0);
    let (_, action) = ReadOp::start(&mut s, 5);
    assert!(matches!(
        action,
        ReadAction::Done { ack: None, result: Ok(ref b) } if b.is_empty()
    ));
    let op = ReadAtOp::start(&s, 0, 5);
    assert!(matches!(op.next(&s), ReadAtStep::Done(Ok(ref b)) if b.is_empty()));
}

#[test]
fn failed_open_is_handed_on() {
    let mut s = make_stream(make_status(10, 10));
    let (op, action) = ReadOp::start(&mut s, 5);
    assert!(matches!(action, ReadAction::Open(ref r) if r.block_id == 1001 && r.length == 10));
    let refused = Error::BlockIoError { message: "x".to_string() };
    let (_, action) = op.opened(&mut s, Err(refused));
    assert!(matches!(
        action,
        ReadAction::Done { result: Err(Error::BlockIoError { .. }), .. }
    ));
    assert_eq!(s.pos(), 0);
}

#[test]
fn storage_options_give_the_length_of_the_block() {
    let status = URIStatus::from_proto(FileInfo {
        length: Some(250),
        block_size_bytes: Some(100),
        block_ids: vec![1, 2, 3],
        completed: Some(true),
        ufs_path: Some("cosn://b/f".to_string()),
        mount_id: Some(9),
        ..Default::default()
    });
    let s = make_stream(status);
    let tail = s.build_ufs_opts(2).unwrap();
    assert_eq!(tail.ufs_path.as_deref(), Some("cosn://b/f"));
    assert_eq!(tail.offset_in_file, Some(200));
    assert_eq!(tail.block_size, Some(50));
    assert_eq!(tail.mount_id, Some(9));
    assert!(make_stream(make_status(10, 10)).build_ufs_opts(0).is_none());
}

#[test]
fn opening_checks_file_workers_and_configuration() {
    assert!(check_readable(&make_status(10, 10), "/f").is_ok());
    let open = URIStatus::from_proto(FileInfo::default());
    assert!(matches!(
        check_readable(&open, "/f"),
        Err(Error::FileIncomplete { .. })
    ));
    assert!(matches!(check_workers(0), Err(Error::NoWorkerAvailable { .. })));
    assert!(check_workers(1).is_ok());
    assert!(check_config(&GoosefsConfig::new("127.0.0.1:9200", &TextMap::new())).is_ok());
    let bad = GoosefsConfig {
        master_addr: String::new(),
        ..GoosefsConfig::default(&TextMap::new())
    };
    assert!(matches!(check_config(&bad), Err(Error::ConfigError { .. })));
}

#[test]
fn reading_to_the_end_joins_the_parts() {
    let mut all = ReadToEnd::new();
    assert!(all.step(Bytes::from_static(b"ab")).is_none());
    assert!(all.step(Bytes::from_static(b"c")).is_none());
    assert_eq!(all.step(Bytes::new()).unwrap(), Bytes::from_static(b"abc"));
    assert_eq!(ReadToEnd::window(1024), 1024);
    assert_eq!(ReadToEnd::window(1 << 40), 65536);
}

#[test]
fn adapter_does_one_thing_at_a_time() {
    let mut a = GoosefsAsyncReader::new(5u8);
    assert_eq!(a.get_ref(), Some(&5));
    *a.get_mut().unwrap() = 6;
    assert!(matches!(a.poll_read(0), PollRead::Nothing));
    assert!(matches!(a.poll_read(10), PollRead::Start { stream: 6, cap: 10 }));
    assert!(matches!(a.poll_read(10), PollRead::Poll));
    assert_eq!(
        a.start_seek(),
        Err("cannot start a seek while a read is in flight")
    );
    assert_eq!(a.poll_complete(), PollSeek::Refuse);
    assert_eq!(a.get_ref(), None);
    a.finished(7);
    assert_eq!(a.start_seek(), Ok(7));
    assert_eq!(a.start_seek(), Err("another seek is already in flight"));
    assert!(matches!(
        a.poll_read(3),
        PollRead::Refuse("cannot read while a seek is in flight")
    ));
    assert_eq!(a.poll_complete(), PollSeek::Poll);
    a.finished(8);
    assert_eq!(a.poll_complete(), PollSeek::Position);
    assert_eq!(a.into_inner().unwrap(), 8);
    assert_eq!(bytes_to_copy(9, 4), 4);
    assert_eq!(bytes_to_copy(3, 4), 3);
    assert_eq!(reported_position(12), 12);
    assert_eq!(reported_position(-1), 0);
}
