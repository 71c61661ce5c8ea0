//! Reading of blocks.

use bytes::Bytes;
use goosefs_sdk::config::{GoosefsConfig, TextMap};
use goosefs_sdk::error::Error;
use goosefs_sdk::io::reader::{
    check_positioned_read_complete, classify_response, one_less_in_progress,
    one_more_in_progress, should_send_ack, BlockRead, ChunkAction, GrpcBlockReader, ReadAllStep,
    ReadStep, ReadTuning, StreamItem,
};
use goosefs_sdk::metrics::name;
use goosefs_sdk::metrics::registry::{counter, Registry};
use goosefs_sdk::proto::{Chunk, ReadResponse};

#[test]
fn metrics_counter_accessible() {
    let mut registry = Registry::default();
    let _counter = counter(&mut registry, name::CLIENT_BYTES_READ_LOCAL);
}

#[test]
fn classify_response_none_is_eof() {
    assert_eq!(classify_response(None), ChunkAction::Eof);
}

#[test]
fn classify_response_no_chunk_is_keep_reading() {
    let resp = ReadResponse {
        chunk: None,
    };
    assert_eq!(classify_response(Some(resp)), ChunkAction::KeepReading);
}

#[test]
fn classify_response_empty_chunk_is_keep_reading() {
    let resp = ReadResponse {
        chunk: Some(Chunk {
            data: Some(Vec::new()),
        }),
    };
    assert_eq!(classify_response(Some(resp)), ChunkAction::KeepReading);
}

#[test]
fn classify_response_chunk_with_none_data_is_keep_reading() {
    let resp = ReadResponse {
        chunk: Some(Chunk {
            data: None,
        }),
    };
    assert_eq!(classify_response(Some(resp)), ChunkAction::KeepReading);
}

#[test]
fn classify_response_data_is_delivered() {
    let payload = b"hello world".to_vec();
    let resp = ReadResponse {
        chunk: Some(Chunk {
            data: Some(payload.clone()),
        }),
    };
    match classify_response(Some(resp)) {
        ChunkAction::Deliver(b) => assert_eq!(b.as_ref(), payload.as_slice()),
        other => panic!("expected Deliver, got {:?}", other),
    }
}

#[test]
fn check_positioned_read_complete_short_read_errors() {
    let err = check_positioned_read_complete(
        16777216, 1024, 4096,
    )
    .unwrap_err();
    let msg = err.to_string();
    assert!(
        msg.contains("short positioned read on block 16777216"),
        "expected short-read message, got: {}",
        msg
    );
    assert!(
        msg.contains("received 1024 of 4096"),
        "expected received/length pair in message, got: {}",
        msg
    );
}

#[test]
fn check_positioned_read_complete_full_read_ok() {
    assert!(check_positioned_read_complete(1, 4096, 4096).is_ok());
}

#[test]
fn check_positioned_read_complete_over_read_ok() {
    assert!(check_positioned_read_complete(1, 5000, 4096).is_ok());
}

#[test]
fn should_send_ack_direct_mode_acks_every_chunk() {
    assert!(should_send_ack(64, 1, 0, 1, 64, 1_000_000));
}

#[test]
fn should_send_ack_coalesces_until_threshold() {
    let interval_bytes = 4 * 1024 * 1024;
    let interval_chunks = 4;
    assert!(!should_send_ack(
        2 * 1024 * 1024,
        2,
        interval_bytes,
        interval_chunks,
        2 * 1024 * 1024,
        64 * 1024 * 1024
    ));
    assert!(should_send_ack(
        interval_bytes,
        2,
        interval_bytes,
        interval_chunks,
        interval_bytes,
        64 * 1024 * 1024
    ));
    assert!(should_send_ack(
        1024,
        interval_chunks,
        interval_bytes,
        interval_chunks,
        4096,
        64 * 1024 * 1024
    ));
}

#[test]
fn should_send_ack_forces_final_ack_at_completion() {
    assert!(should_send_ack(
        64,
        1,
        4 * 1024 * 1024,
        4,
        1_000_000,
        1_000_000
    ));
}

#[test]
fn read_tuning_from_config_defaults_and_clamps() {
    let mut cfg = GoosefsConfig::new("127.0.0.1:9200", &TextMap::new());
    let t = ReadTuning::from_config(&cfg);
    assert_eq!(t.prefetch_window, 8);
    assert_eq!(t.buffer_messages, 16);
    assert_eq!(t.ack_interval_bytes, 0);
    assert_eq!(t.ack_interval_chunks, 1);

    cfg.read_buffer_messages = 0;
    cfg.ack_interval_chunks = 0;
    cfg.ack_interval_bytes = -1;
    let t = ReadTuning::from_config(&cfg);
    assert_eq!(t.buffer_messages, 1);
    assert_eq!(t.ack_interval_chunks, 1);
    assert_eq!(t.ack_interval_bytes, 0);
}

fn frame(data: &[u8]) -> ReadResponse {
    ReadResponse {
        chunk: Some(Chunk {
            data: Some(data.to_vec()),
        }),
    }
}

#[test]
fn whole_range_is_collected_and_acknowledged() {
    let mut read = BlockRead::new(GrpcBlockReader::open(7, 100, 5));
    assert!(read.first_step().is_none());
    match read.step(StreamItem::Data(frame(b"abc"))) {
        ReadAllStep::AckThenNext(offset) => assert_eq!(offset, 103),
        other => panic!("unexpected {:?}", other),
    }
    read.ack_sent();
    assert!(matches!(
        read.step(StreamItem::Data(frame(b""))),
        ReadAllStep::Next
    ));
    match read.step(StreamItem::Data(frame(b"de"))) {
        ReadAllStep::AckThenDone(offset, Ok(all)) => {
            assert_eq!(offset, 105);
            assert_eq!(all, Bytes::from_static(b"abcde"));
        }
        other => panic!("unexpected {:?}", other),
    }
}

#[test]
fn empty_range_needs_no_read() {
    let read = BlockRead::new(GrpcBlockReader::open(7, 0, 0));
    assert_eq!(read.first_step().unwrap().unwrap().len(), 0);
}

#[test]
fn range_that_ends_early_is_an_error() {
    let mut read = BlockRead::new(GrpcBlockReader::open(7, 0, 5));
    read.step(StreamItem::Data(frame(b"abc")));
    match read.step(StreamItem::End) {
        ReadAllStep::Done(Err(Error::Internal { message, .. })) => assert_eq!(
            message,
            "short positioned read on block 7: received 3 of 5 bytes (server half-closed early)"
        ),
        other => panic!("unexpected {:?}", other),
    }
    let mut read = BlockRead::new(GrpcBlockReader::open(7, 0, 5));
    match read.step(StreamItem::Lost) {
        ReadAllStep::Done(Err(Error::Internal { message, .. })) => assert_eq!(
            message,
            "read stream drain task ended unexpectedly on block 7 (0 of 5 bytes received)"
        ),
        other => panic!("unexpected {:?}", other),
    }
    let mut read = BlockRead::new(GrpcBlockReader::open(7, 0, 5));
    let failure = Error::BlockIoError {
        message: "gone".to_string(),
    };
    assert!(matches!(
        read.step(StreamItem::Failed(failure)),
        ReadAllStep::Done(Err(Error::BlockIoError { .. }))
    ));
}

#[test]
fn acknowledgements_follow_the_intervals() {
    let tuning = ReadTuning {
        ack_interval_bytes: 100,
        ack_interval_chunks: 3,
        ..ReadTuning::from_config(&GoosefsConfig::new("127.0.0.1:9200", &TextMap::new()))
    };
    let mut reader = GrpcBlockReader::open_sequential(7, 1000, 10, tuning);
    assert!(matches!(
        reader.read_chunk(StreamItem::Data(frame(b"a"))),
        ReadStep::Chunk { ack: None, .. }
    ));
    assert!(matches!(
        reader.read_chunk(StreamItem::Data(frame(b"b"))),
        ReadStep::Chunk { ack: None, .. }
    ));
    assert!(matches!(
        reader.read_chunk(StreamItem::Data(frame(b"c"))),
        ReadStep::Chunk { ack: Some(1003), .. }
    ));
    reader.ack_sent();
    assert!(matches!(
        reader.read_chunk(StreamItem::Data(frame(b"defghij"))),
        ReadStep::Chunk { ack: Some(1010), .. }
    ));
    assert!(reader.is_complete());
    assert_eq!(reader.bytes_received(), 10);
    assert_eq!(reader.block_id(), 7);
    assert!(matches!(reader.read_chunk(StreamItem::End), ReadStep::End));
}

#[test]
fn blocks_in_progress_never_drop_below_none() {
    assert_eq!(one_more_in_progress(3), 4);
    assert_eq!(one_less_in_progress(4), 3);
    assert_eq!(one_less_in_progress(0), 0);
}
