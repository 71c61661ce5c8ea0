//! The reader of one block's stream.
//!
//! The worker sends the bytes of the requested range in chunks. The reader
//! acknowledges how far it has got, so that the worker sends more. The messages
//! themselves are exchanged outside of this library.

use vstd::prelude::*;
use vstd::string::*;

use crate::buffer::{append, bytes_from, held, held_mut};
use crate::config::settings::GoosefsConfig;
use crate::error::{Error, ErrorView, Result};
use crate::proto::ReadResponse;
use crate::text::{decimal_int, push_decimal_i64};

verus! {

/// Settings of a sequential read.
#[derive(Debug, Clone, Copy, PartialEq, Eq, Structural)]
pub struct ReadTuning {
    /// Chunks that the worker keeps in flight beyond the current one.
    pub prefetch_window: i32,
    /// Messages that are buffered before they are consumed.
    pub buffer_messages: usize,
    /// Bytes after which an acknowledgement is due.
    pub ack_interval_bytes: i64,
    /// Chunks after which an acknowledgement is due.
    pub ack_interval_chunks: u32,
}

impl ReadTuning {
    /// The settings of the configuration, raised to the smallest safe values.
    pub fn from_config(config: &GoosefsConfig) -> (r: Self)
        ensures
            r.prefetch_window == config.prefetch_window,
            r.buffer_messages == (if config.read_buffer_messages < 1 {
                1usize
            } else {
                config.read_buffer_messages
            }),
            r.ack_interval_bytes == (if config.ack_interval_bytes < 0 {
                0i64
            } else {
                config.ack_interval_bytes
            }),
            r.ack_interval_chunks == (if config.ack_interval_chunks < 1 {
                1u32
            } else {
                config.ack_interval_chunks
            }),
    {
        ReadTuning {
            prefetch_window: config.prefetch_window,
            buffer_messages: if config.read_buffer_messages < 1 {
                1
            } else {
                config.read_buffer_messages
            },
            ack_interval_bytes: if config.ack_interval_bytes < 0 {
                0
            } else {
                config.ack_interval_bytes
            },
            ack_interval_chunks: if config.ack_interval_chunks < 1 {
                1
            } else {
                config.ack_interval_chunks
            },
        }
    }
}

/// How a frame is treated.
#[derive(Debug, PartialEq, Eq)]
pub enum ChunkAction {
    /// The worker has ended the stream.
    Eof,
    /// The frame carries no data, and the stream goes on.
    KeepReading,
    /// The frame carries these bytes.
    Deliver(bytes::Bytes),
}

/// The bytes of a frame, if it carries any.
pub open spec fn payload(frame: ReadResponse) -> Seq<u8> {
    match frame.chunk {
        Some(c) => match c.data {
            Some(d) => d@,
            None => Seq::empty(),
        },
        None => Seq::empty(),
    }
}

fn take_payload(frame: ReadResponse) -> (r: Vec<u8>)
    ensures
        r@ == payload(frame),
{
    match frame.chunk {
        Some(c) => match c.data {
            Some(d) => d,
            None => Vec::new(),
        },
        None => Vec::new(),
    }
}

/// Tells how a frame, or the end of the stream, is treated. A frame without
/// data does not end the stream.
pub fn classify_response(resp: Option<ReadResponse>) -> (r: ChunkAction)
    ensures
        match resp {
            None => r is Eof,
            Some(frame) => if payload(frame).len() == 0 {
                r is KeepReading
            } else {
                r matches ChunkAction::Deliver(b) && held(b) == payload(frame)
            },
        },
{
    match resp {
        None => ChunkAction::Eof,
        Some(frame) => {
            let data = take_payload(frame);
            if data.len() == 0 {
                ChunkAction::KeepReading
            } else {
                ChunkAction::Deliver(bytes_from(data))
            }
        },
    }
}

/// The message of a read that the worker ended too early.
pub open spec fn short_read_text(block_id: i64, received: i64, length: i64) -> Seq<char> {
    "short positioned read on block "@ + decimal_int(block_id as int) + ": received "@
        + decimal_int(received as int) + " of "@ + decimal_int(length as int)
        + " bytes (server half-closed early)"@
}

/// Checks that all requested bytes were received.
pub fn check_positioned_read_complete(block_id: i64, bytes_received: i64, length: i64) -> (r:
    Result<()>)
    ensures
        match r {
            Ok(_) => bytes_received >= length,
            Err(e) => bytes_received < length && e@ == (ErrorView::Internal {
                message: short_read_text(block_id, bytes_received, length),
                source: None,
            }),
        },
{
    if bytes_received < length {
        let mut message = "short positioned read on block ".to_string();
        push_decimal_i64(&mut message, block_id);
        message.append(": received ");
        push_decimal_i64(&mut message, bytes_received);
        message.append(" of ");
        push_decimal_i64(&mut message, length);
        message.append(" bytes (server half-closed early)");
        return Err(Error::Internal { message, source: None });
    }
    Ok(())
}

/// Whether an acknowledgement is due: one of the intervals has been reached, or
/// everything has been received.
pub open spec fn ack_due(
    bytes_since: int,
    chunks_since: int,
    interval_bytes: int,
    interval_chunks: int,
    received: int,
    length: int,
) -> bool {
    bytes_since >= interval_bytes || chunks_since >= interval_chunks || received >= length
}

/// Tells whether an acknowledgement is due.
pub fn should_send_ack(
    bytes_since_last_ack: i64,
    chunks_since_last_ack: u32,
    ack_interval_bytes: i64,
    ack_interval_chunks: u32,
    bytes_received: i64,
    length: i64,
) -> (r: bool)
    ensures
        r == ack_due(
            bytes_since_last_ack as int,
            chunks_since_last_ack as int,
            ack_interval_bytes as int,
            ack_interval_chunks as int,
            bytes_received as int,
            length as int,
        ),
{
    bytes_since_last_ack >= ack_interval_bytes || chunks_since_last_ack >= ack_interval_chunks
        || bytes_received >= length
}

/// What comes from the worker's stream.
#[derive(Debug)]
pub enum StreamItem {
    /// A frame.
    Data(ReadResponse),
    /// The end of the stream, as the worker declared it.
    End,
    /// A failure of the stream.
    Failed(Error),
    /// The stream was cut off without a declared end.
    Lost,
}

/// What an item of the stream means for the consumer.
#[derive(Debug)]
pub enum ReadStep {
    /// Wait for the next item.
    Wait,
    /// Hand out the bytes, after sending the acknowledgement, if there is one.
    Chunk {
        /// The bytes.
        data: bytes::Bytes,
        /// The offset to acknowledge.
        ack: Option<i64>,
    },
    /// There is no more data.
    End,
    /// The read has failed.
    Fail(Error),
}

/// The message of a stream that was cut off.
pub open spec fn lost_text(block_id: i64, received: i64, length: i64) -> Seq<char> {
    "read stream drain task ended unexpectedly on block "@ + decimal_int(block_id as int) + " ("@
        + decimal_int(received as int) + " of "@ + decimal_int(length as int)
        + " bytes received)"@
}

/// The reader of one block's stream, without the stream.
#[derive(Debug, Clone, Copy, PartialEq, Eq, Structural)]
pub struct GrpcBlockReader {
    /// Identifier of the block.
    pub block_id: i64,
    /// Where in the block the range starts.
    pub offset: i64,
    /// Length of the range.
    pub length: i64,
    /// Bytes received so far.
    pub bytes_received: i64,
    /// Bytes received since the last acknowledgement.
    pub bytes_since_last_ack: i64,
    /// Chunks received since the last acknowledgement.
    pub chunks_since_last_ack: u32,
    /// Bytes after which an acknowledgement is due.
    pub ack_interval_bytes: i64,
    /// Chunks after which an acknowledgement is due.
    pub ack_interval_chunks: u32,
}

impl GrpcBlockReader {
    /// The reader of a range that acknowledges every chunk.
    pub fn open(block_id: i64, offset: i64, length: i64) -> (r: Self)
        ensures
            r == (GrpcBlockReader {
                block_id,
                offset,
                length,
                bytes_received: 0,
                bytes_since_last_ack: 0,
                chunks_since_last_ack: 0,
                ack_interval_bytes: 0,
                ack_interval_chunks: 1,
            }),
    {
        GrpcBlockReader {
            block_id,
            offset,
            length,
            bytes_received: 0,
            bytes_since_last_ack: 0,
            chunks_since_last_ack: 0,
            ack_interval_bytes: 0,
            ack_interval_chunks: 1,
        }
    }

    /// The reader of a range that acknowledges as the settings say.
    pub fn open_sequential(block_id: i64, offset: i64, length: i64, tuning: ReadTuning) -> (r: Self)
        ensures
            r == (GrpcBlockReader {
                block_id,
                offset,
                length,
                bytes_received: 0,
                bytes_since_last_ack: 0,
                chunks_since_last_ack: 0,
                ack_interval_bytes: tuning.ack_interval_bytes,
                ack_interval_chunks: tuning.ack_interval_chunks,
            }),
    {
        GrpcBlockReader {
            block_id,
            offset,
            length,
            bytes_received: 0,
            bytes_since_last_ack: 0,
            chunks_since_last_ack: 0,
            ack_interval_bytes: tuning.ack_interval_bytes,
            ack_interval_chunks: tuning.ack_interval_chunks,
        }
    }

    /// The reader after it has received `n` more bytes in one chunk.
    pub open spec fn after_chunk(self, n: int) -> Self {
        GrpcBlockReader {
            bytes_received: i64::wrapping_add(self.bytes_received, n as i64),
            bytes_since_last_ack: i64::wrapping_add(self.bytes_since_last_ack, n as i64),
            chunks_since_last_ack: u32::wrapping_add(self.chunks_since_last_ack, 1),
            ..self
        }
    }

    /// The offset to acknowledge, if an acknowledgement is due.
    pub open spec fn due_ack(self) -> Option<i64> {
        if ack_due(
            self.bytes_since_last_ack as int,
            self.chunks_since_last_ack as int,
            self.ack_interval_bytes as int,
            self.ack_interval_chunks as int,
            self.bytes_received as int,
            self.length as int,
        ) {
            Some(i64::wrapping_add(self.offset, self.bytes_received))
        } else {
            None
        }
    }

    /// Takes in an item of the stream.
    ///
    /// A frame without data is waited past. A stream that was cut off is an
    /// error: only a declared end ends the data.
    pub fn read_chunk(&mut self, item: StreamItem) -> (r: ReadStep)
        ensures
            match item {
                StreamItem::Data(frame) => if payload(frame).len() == 0 {
                    r is Wait && *final(self) == *old(self)
                } else {
                    &&& *final(self) == old(self).after_chunk(payload(frame).len() as int)
                    &&& r matches ReadStep::Chunk { data, ack } && held(data) == payload(frame)
                        && ack == final(self).due_ack()
                },
                StreamItem::End => r is End && *final(self) == *old(self),
                StreamItem::Failed(e) => r == ReadStep::Fail(e) && *final(self) == *old(self),
                StreamItem::Lost => {
                    &&& *final(self) == *old(self)
                    &&& r matches ReadStep::Fail(e) && e@ == (ErrorView::Internal {
                        message: lost_text(
                            old(self).block_id,
                            old(self).bytes_received,
                            old(self).length,
                        ),
                        source: None,
                    })
                },
            },
    {
        match item {
            StreamItem::End => ReadStep::End,
            StreamItem::Failed(e) => ReadStep::Fail(e),
            StreamItem::Lost => {
                let mut message = "read stream drain task ended unexpectedly on block ".to_string();
                push_decimal_i64(&mut message, self.block_id);
                message.append(" (");
                push_decimal_i64(&mut message, self.bytes_received);
                message.append(" of ");
                push_decimal_i64(&mut message, self.length);
                message.append(" bytes received)");
                ReadStep::Fail(Error::Internal { message, source: None })
            },
            StreamItem::Data(frame) => match classify_response(Some(frame)) {
                ChunkAction::Eof => ReadStep::End,
                ChunkAction::KeepReading => ReadStep::Wait,
                ChunkAction::Deliver(data) => {
                    let len: i64 = data.len() as i64;
                    self.bytes_received = self.bytes_received.wrapping_add(len);
                    let ack = self.maybe_send_ack(len);
                    ReadStep::Chunk { data, ack }
                },
            },
        }
    }

    /// Counts a chunk of `delta` bytes towards the next acknowledgement, and
    /// gives the offset to acknowledge if one is due.
    pub fn maybe_send_ack(&mut self, delta: i64) -> (r: Option<i64>)
        ensures
            *final(self) == (GrpcBlockReader {
                bytes_since_last_ack: i64::wrapping_add(old(self).bytes_since_last_ack, delta),
                chunks_since_last_ack: u32::wrapping_add(old(self).chunks_since_last_ack, 1),
                ..*old(self)
            }),
            r == final(self).due_ack(),
    {
        self.bytes_since_last_ack = self.bytes_since_last_ack.wrapping_add(delta);
        self.chunks_since_last_ack = self.chunks_since_last_ack.wrapping_add(1);
        if should_send_ack(
            self.bytes_since_last_ack,
            self.chunks_since_last_ack,
            self.ack_interval_bytes,
            self.ack_interval_chunks,
            self.bytes_received,
            self.length,
        ) {
            Some(self.offset.wrapping_add(self.bytes_received))
        } else {
            None
        }
    }

    /// Takes in that an acknowledgement was sent. One that could not be sent is
    /// tried again at the next chunk.
    pub fn ack_sent(&mut self)
        ensures
            *final(self) == (GrpcBlockReader {
                bytes_since_last_ack: 0,
                chunks_since_last_ack: 0,
                ..*old(self)
            }),
    {
        self.bytes_since_last_ack = 0;
        self.chunks_since_last_ack = 0;
    }

    /// The identifier of the block.
    pub fn block_id(&self) -> (r: i64)
        ensures
            r == self.block_id,
    {
        self.block_id
    }

    /// The bytes received so far.
    pub fn bytes_received(&self) -> (r: i64)
        ensures
            r == self.bytes_received,
    {
        self.bytes_received
    }

    /// Tells whether all requested bytes have been received.
    pub fn is_complete(&self) -> (r: bool)
        ensures
            r == (self.bytes_received >= self.length),
    {
        self.bytes_received >= self.length
    }
}

/// What reading a whole range asks for.
#[derive(Debug)]
pub enum ReadAllStep {
    /// Wait for the next item of the stream.
    Next,
    /// Send the acknowledgement, report it to [`BlockRead::ack_sent`] if that
    /// succeeds, and wait for the next item.
    AckThenNext(i64),
    /// Send the acknowledgement, and return the result.
    AckThenDone(i64, Result<bytes::Bytes>),
    /// Return the result.
    Done(Result<bytes::Bytes>),
}

/// The read of a whole range.
#[derive(Debug)]
pub struct BlockRead {
    /// The reader.
    pub reader: GrpcBlockReader,
    /// The bytes received so far.
    pub buffer: bytes::BytesMut,
}

impl BlockRead {
    /// Whether the reader counts what the buffer holds, as far as it can count.
    pub open spec fn wf(self) -> bool {
        held_mut(self.buffer).len() <= i64::MAX ==> self.reader.bytes_received == held_mut(
            self.buffer,
        ).len()
    }

    /// A read that has received nothing yet.
    pub fn new(reader: GrpcBlockReader) -> (r: Self)
        requires
            reader.bytes_received == 0,
        ensures
            r.wf(),
            r.reader == reader,
            held_mut(r.buffer).len() == 0,
    {
        BlockRead { reader, buffer: bytes::BytesMut::new() }
    }

    /// What to do first: nothing is read of an empty range.
    pub fn first_step(&self) -> (r: Option<Result<bytes::Bytes>>)
        requires
            self.wf(),
            held_mut(self.buffer).len() == 0,
        ensures
            match r {
                Some(done) => self.reader.length <= 0 && (done matches Ok(b) && held(b).len() == 0),
                None => self.reader.length > 0,
            },
    {
        if self.reader.is_complete() {
            Some(Ok(bytes::Bytes::new()))
        } else {
            None
        }
    }

    /// Takes in that an acknowledgement was sent.
    pub fn ack_sent(&mut self)
        requires
            old(self).wf(),
        ensures
            final(self).wf(),
            final(self).buffer == old(self).buffer,
            final(self).reader == (GrpcBlockReader {
                bytes_since_last_ack: 0,
                chunks_since_last_ack: 0,
                ..old(self).reader
            }),
    {
        self.reader.ack_sent();
    }

    fn take_buffer(&mut self) -> (r: bytes::Bytes)
        ensures
            held(r) == held_mut(old(self).buffer),
            held_mut(final(self).buffer).len() == 0,
            final(self).reader == old(self).reader,
    {
        let mut taken = bytes::BytesMut::new();
        std::mem::swap(&mut taken, &mut self.buffer);
        taken.freeze()
    }

    /// Takes in an item of the stream. The read ends when all requested bytes
    /// are there, and fails if the stream ends before.
    pub fn step(&mut self, item: StreamItem) -> (r: ReadAllStep)
        requires
            old(self).wf(),
            old(self).reader.bytes_received < old(self).reader.length,
        ensures
            match item {
                StreamItem::Data(frame) => if payload(frame).len() == 0 {
                    r is Next && *final(self) == *old(self)
                } else {
                    let reader = old(self).reader.after_chunk(payload(frame).len() as int);
                    let all = held_mut(old(self).buffer) + payload(frame);
                    &&& final(self).reader == reader
                    &&& if reader.bytes_received < reader.length {
                        &&& final(self).wf()
                        &&& held_mut(final(self).buffer) == all
                        &&& match reader.due_ack() {
                            Some(offset) => r == ReadAllStep::AckThenNext(offset),
                            None => r is Next,
                        }
                    } else {
                        r matches ReadAllStep::AckThenDone(offset, Ok(b)) && Some(offset)
                            == reader.due_ack() && held(b) == all
                    }
                },
                StreamItem::End => r matches ReadAllStep::Done(Err(e)) && e@ == (
                ErrorView::Internal {
                    message: short_read_text(
                        old(self).reader.block_id,
                        old(self).reader.bytes_received,
                        old(self).reader.length,
                    ),
                    source: None,
                }),
                StreamItem::Failed(e) => r == ReadAllStep::Done(Err(e)),
                StreamItem::Lost => r matches ReadAllStep::Done(Err(e)) && e@ == (
                ErrorView::Internal {
                    message: lost_text(
                        old(self).reader.block_id,
                        old(self).reader.bytes_received,
                        old(self).reader.length,
                    ),
                    source: None,
                }),
            },
    {
        match self.reader.read_chunk(item) {
            ReadStep::Wait => ReadAllStep::Next,
            ReadStep::Fail(e) => ReadAllStep::Done(Err(e)),
            ReadStep::End => {
                let checked = check_positioned_read_complete(
                    self.reader.block_id,
                    self.reader.bytes_received,
                    self.reader.length,
                );
                match checked {
                    Ok(_) => ReadAllStep::Done(Ok(self.take_buffer())),
                    Err(e) => ReadAllStep::Done(Err(e)),
                }
            },
            ReadStep::Chunk { data, ack } => {
                append(&mut self.buffer, &data);
                if self.reader.is_complete() {
                    let all = self.take_buffer();
                    match ack {
                        Some(offset) => ReadAllStep::AckThenDone(offset, Ok(all)),
                        None => ReadAllStep::Done(Ok(all)),
                    }
                } else {
                    match ack {
                        Some(offset) => ReadAllStep::AckThenNext(offset),
                        None => ReadAllStep::Next,
                    }
                }
            },
        }
    }
}

/// The number of blocks in progress after one more was opened.
pub fn one_more_in_progress(current: i64) -> (r: i64)
    ensures
        r == i64::wrapping_add(current, 1),
{
    current.wrapping_add(1)
}

/// The number of blocks in progress after one was read, which is never
/// negative.
pub fn one_less_in_progress(current: i64) -> (r: i64)
    ensures
        r == (if current <= 0 {
            0
        } else {
            current - 1
        }),
{
    if current <= 0 {
        0
    } else {
        current - 1
    }
}

/// A read never comes out short: a range that was read with success has at
/// least the requested bytes, and they are those that the frames carried, in
/// order.
pub proof fn law_no_short_read(read: BlockRead, frame: ReadResponse, result: bytes::Bytes)
    requires
        read.wf(),
        held(result) == held_mut(read.buffer) + payload(frame),
        held(result).len() <= i64::MAX,
        payload(frame).len() > 0,
        read.reader.after_chunk(payload(frame).len() as int).bytes_received
            >= read.reader.after_chunk(payload(frame).len() as int).length,
    ensures
        held(result).len() >= read.reader.length,
{
}

/// The acknowledged offset never goes back, however many acknowledgements are
/// skipped.
pub proof fn law_acknowledged_offset_grows(reader: GrpcBlockReader, n: nat)
    requires
        0 <= reader.offset,
        0 <= reader.bytes_received,
        reader.offset + reader.bytes_received + n <= i64::MAX,
    ensures
        ({
            let next = reader.after_chunk(n as int);
            i64::wrapping_add(next.offset, next.bytes_received) == i64::wrapping_add(
                reader.offset,
                reader.bytes_received,
            ) + n
        }),
{
}

/// The chunk that completes the range is always acknowledged.
pub proof fn law_last_chunk_is_acknowledged(reader: GrpcBlockReader)
    requires
        reader.bytes_received >= reader.length,
    ensures
        reader.due_ack() is Some,
{
}

} // verus!
