//! The writer of one block's stream.
//!
//! The first message on the stream names the block; chunks of data follow, and a
//! flush is a command that the worker acknowledges. The messages themselves are
//! sent outside of this library.

use vstd::prelude::*;
use vstd::slice::slice_subrange;

use crate::buffer::held;
use crate::error::{Error, ErrorView, Result};
use crate::text::{decimal_int, push_decimal_i64};

verus! {

/// The writer of one block's stream, without the stream.
#[derive(Debug)]
pub struct GrpcBlockWriter {
    /// Identifier of the block.
    pub block_id: i64,
    /// Bytes written so far.
    pub bytes_written: i64,
}

/// What came of waiting for an acknowledgement.
#[derive(Debug)]
pub enum FlushReply {
    /// The flush command could not be sent.
    ChannelClosed,
    /// The worker answered, with the offset that it has reached.
    Acknowledged(Option<i64>),
    /// The stream ended before an answer.
    Ended,
    /// The stream failed.
    Failed(Error),
}

/// `text` followed by the identifier of the block.
pub open spec fn block_text(text: Seq<char>, block_id: i64) -> Seq<char> {
    text + decimal_int(block_id as int)
}

fn block_error(text: &str, block_id: i64) -> (r: Error)
    ensures
        r@ == (ErrorView::BlockIoError { message: block_text(text@, block_id) }),
{
    let mut message = text.to_owned();
    push_decimal_i64(&mut message, block_id);
    Error::BlockIoError { message }
}

/// The end of the piece of `len` bytes that starts at `offset`.
pub open spec fn piece_end(len: nat, offset: nat, chunk_size: nat) -> nat {
    if offset + chunk_size < len {
        offset + chunk_size
    } else {
        len
    }
}

impl GrpcBlockWriter {
    /// The writer of a stream that was just opened.
    pub fn open(block_id: i64) -> (r: Self)
        ensures
            r.block_id == block_id,
            r.bytes_written == 0,
    {
        GrpcBlockWriter { block_id, bytes_written: 0 }
    }

    /// Takes in whether a chunk of `len` bytes could be sent. If it could not,
    /// there is an error and nothing is counted.
    pub fn write_chunk(&mut self, len: usize, sent: bool) -> (r: Result<()>)
        ensures
            final(self).block_id == old(self).block_id,
            match r {
                Ok(_) => sent && final(self).bytes_written == i64::wrapping_add(
                    old(self).bytes_written,
                    len as i64,
                ),
                Err(e) => !sent && final(self).bytes_written == old(self).bytes_written && e@ == (
                ErrorView::BlockIoError {
                    message: block_text("write channel closed for block_id="@, old(self).block_id),
                }),
            },
    {
        if !sent {
            return Err(block_error("write channel closed for block_id=", self.block_id));
        }
        self.bytes_written = self.bytes_written.wrapping_add(len as i64);
        Ok(())
    }

    /// The piece of `data` that is sent next, when those before `offset` have
    /// been sent: a chunk, or what is left.
    pub fn next_piece(data: &[u8], offset: usize, chunk_size: usize) -> (r: Option<bytes::Bytes>)
        requires
            chunk_size > 0,
            offset <= data@.len(),
        ensures
            match r {
                Some(piece) => {
                    &&& offset < data@.len()
                    &&& held(piece) == data@.subrange(
                        offset as int,
                        piece_end(data@.len(), offset as nat, chunk_size as nat) as int,
                    )
                    &&& 0 < held(piece).len() <= chunk_size
                },
                None => offset == data@.len(),
            },
    {
        if offset >= data.len() {
            return None;
        }
        let end: usize = if data.len() - offset <= chunk_size {
            data.len()
        } else {
            offset + chunk_size
        };
        Some(bytes::Bytes::copy_from_slice(slice_subrange(data, offset, end)))
    }

    /// The offset that a flush has confirmed.
    pub fn flush(&self, reply: FlushReply) -> (r: Result<i64>)
        ensures
            match reply {
                FlushReply::Acknowledged(Some(offset)) => r == Ok::<i64, Error>(offset),
                FlushReply::Acknowledged(None) => r == Ok::<i64, Error>(self.bytes_written),
                FlushReply::Failed(e) => r == Err::<i64, Error>(e),
                FlushReply::ChannelClosed => r matches Err(e) && e@ == (ErrorView::BlockIoError {
                    message: block_text("flush channel closed for block_id="@, self.block_id),
                }),
                FlushReply::Ended => r matches Err(e) && e@ == (ErrorView::BlockIoError {
                    message: block_text(
                        "stream ended before flush ack for block_id="@,
                        self.block_id,
                    ),
                }),
            },
    {
        match reply {
            FlushReply::Acknowledged(offset) => match offset {
                Some(n) => Ok(n),
                None => Ok(self.bytes_written),
            },
            FlushReply::Failed(e) => Err(e),
            FlushReply::ChannelClosed => Err(
                block_error("flush channel closed for block_id=", self.block_id),
            ),
            FlushReply::Ended => Err(
                block_error("stream ended before flush ack for block_id=", self.block_id),
            ),
        }
    }

    /// The identifier of the block.
    pub fn block_id(&self) -> (r: i64)
        ensures
            r == self.block_id,
    {
        self.block_id
    }

    /// The bytes written so far.
    pub fn bytes_written(&self) -> (r: i64)
        ensures
            r == self.bytes_written,
    {
        self.bytes_written
    }
}

/// The pieces in which `data` is sent from `offset` on.
pub open spec fn pieces_from(data: Seq<u8>, offset: nat, chunk_size: nat) -> Seq<Seq<u8>>
    decreases data.len() - offset,
{
    if chunk_size == 0 || offset >= data.len() {
        Seq::empty()
    } else {
        let end = piece_end(data.len(), offset, chunk_size);
        seq![data.subrange(offset as int, end as int)] + pieces_from(data, end, chunk_size)
    }
}

/// The pieces together are the data: sending each piece behind the one before
/// sends every byte once and in order.
pub proof fn law_pieces_are_the_data(data: Seq<u8>, offset: nat, chunk_size: nat)
    requires
        chunk_size > 0,
        offset <= data.len(),
    ensures
        crate::io::chunking::joined_chunks(pieces_from(data, offset, chunk_size)) == data.skip(
            offset as int,
        ),
    decreases data.len() - offset,
{
    if offset < data.len() {
        let end = piece_end(data.len(), offset, chunk_size);
        law_pieces_are_the_data(data, end, chunk_size);
        let all = pieces_from(data, offset, chunk_size);
        assert(all.drop_first() =~= pieces_from(data, end, chunk_size));
        assert(data.subrange(offset as int, end as int) + data.skip(end as int) =~= data.skip(
            offset as int,
        ));
    } else {
        assert(data.skip(offset as int) =~= Seq::<u8>::empty());
    }
}

} // verus!
