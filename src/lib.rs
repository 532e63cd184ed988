//! Writer core for append-only write-ahead-log segments.
//!
//! A segment file starts with a preamble (a file type magic and the segment
//! id) and carries a sequence of chunks, each a big-endian CRC-32 and length
//! header followed by a Snappy-frame-compressed payload. This crate holds the
//! framing codec, the chunk reader, the durability planner and the writer's
//! state machine; the file handle itself is driven by the caller.
//!
//! Beside the log it holds the service protection limits of a namespace and
//! the planner of tiered compaction rounds.
use vstd::prelude::*;

pub mod segment;
pub mod chunk;
pub mod error;
pub mod durability;
pub mod writer;
pub mod decode;
pub mod service_limits;
pub mod round_info;

pub use chunk::{check_chunk_len, frame_chunk, patch_header, CHUNK_HEADER_LEN};
pub use durability::{plan_sync, SyncAction};
pub use error::Error;
pub use round_info::{
    CompactRange, CompactionFile, CompactionLevel, RoundInfo, TieredRoundInfo,
};
pub use segment::{
    file_type_identifier, preamble, ClosedSegment, SegmentId, WriteSummary,
    FILE_TYPE_IDENTIFIER_LEN, PREALLOCATE_SIZE, PREAMBLE_LEN, SEGMENT_ID_LEN,
    SOFT_MAX_BUFFER_LEN,
};
pub use service_limits::{
    LimitUpdate, MaxColumnsPerTable, MaxTables, NamespaceServiceProtectionLimitsOverride,
    ServiceLimitError, ServiceLimitUpdate, ServiceProtectionLimits,
};
pub use writer::SegmentWriterState;


