//! Names of the metrics that the client reports.

use vstd::prelude::*;

verus! {

/// Bytes read from a worker on the same host.
pub const CLIENT_BYTES_READ_LOCAL: &'static str = "Client.BytesReadLocal";

/// Bytes written to a worker on the same host.
pub const CLIENT_BYTES_WRITTEN_LOCAL: &'static str = "Client.BytesWrittenLocal";

/// Bytes written straight to the storage.
pub const CLIENT_BYTES_WRITTEN_UFS: &'static str = "Client.BytesWrittenUfs";

/// Writes that fell back to the storage alone.
pub const CLIENT_WRITE_DEGRADED_TO_UFS: &'static str = "Client.WriteDegradedToUfs";

/// Blocks that were read.
pub const CLIENT_BLOCKS_READ_TOTAL: &'static str = "Client.BlocksReadTotal";

/// Blocks that are being read.
pub const CLIENT_BLOCKS_READ_IN_PROGRESS: &'static str = "Client.BlocksReadInProgress";

} // verus!
