use vstd::prelude::*;

verus! {

/// Failures of the segment writer. The variants named after a file
/// operation are raised by whoever drives the segment file; the library's
/// own logic raises `ChunkSizeTooLarge`. `UnableToCompressData` is kept for
/// drivers whose compressor writes to a sink that can fail.
#[derive(Debug, Clone, Copy, PartialEq, Eq, Structural)]
pub enum Error {
    SegmentCreate,
    SegmentWriteFileType,
    SegmentWriteId,
    SegmentWriteChecksum,
    SegmentWriteLength,
    SegmentWriteData,
    /// A payload, or its compressed form, does not fit a 32-bit length.
    ChunkSizeTooLarge { actual: usize },
    UnableToCompressData,
    UnableToReadFileMetadata,
    UnableToReadCreated,
}

} // verus!
