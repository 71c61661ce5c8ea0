//! Reading and writing of files and blocks.

pub mod active_block;
pub mod async_reader;
pub mod block_laws;
pub mod chunking;
pub mod connect;
pub mod crc32;
pub mod crc32c;
pub mod crc_table;
pub mod file_in_stream;
pub mod file_reader;
pub mod file_writer;
pub mod position_laws;
pub mod range_coalesce;
pub mod read_laws;
pub mod reader;
pub mod replica_opening;
pub mod replica_write;
pub mod stream_laws;
pub mod stream_read;
pub mod stream_seek;
pub mod write_laws;
pub mod write_strategy;
pub mod writer;
pub mod writer_blocks;
pub mod writer_close;
pub mod writer_end;
pub mod writer_laws;
pub mod writer_streams;

pub use async_reader::GoosefsAsyncReader;
pub use file_in_stream::GooseFsFileInStream;
pub use file_reader::GoosefsFileReader;
pub use file_writer::GoosefsFileWriter;
pub use reader::GrpcBlockReader;
pub use writer::GrpcBlockWriter;
