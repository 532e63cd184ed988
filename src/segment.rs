use vstd::prelude::*;

verus! {

/// Target capacity that the reusable framing buffer is shrunk back to
/// before each append.
pub const SOFT_MAX_BUFFER_LEN: usize = 131072;

/// Quantum, in bytes, in which the segment file is preallocated.
pub const PREALLOCATE_SIZE: usize = 16384;

/// Length of the file type magic at the start of every segment.
pub const FILE_TYPE_IDENTIFIER_LEN: usize = 8;

/// Width in bytes of the encoded segment id in the preamble.
pub const SEGMENT_ID_LEN: usize = 16;

/// Length of the preamble: file type magic followed by the segment id.
pub const PREAMBLE_LEN: usize = 24;

/// The four bytes of `x`, most significant first.
pub open spec fn be32(x: u32) -> Seq<u8> {
    seq![(x >> 24u32) as u8, (x >> 16u32) as u8, (x >> 8u32) as u8, x as u8]
}

/// The eight bytes of `x`, most significant first.
pub open spec fn be64(x: u64) -> Seq<u8> {
    seq![
        (x >> 56u64) as u8, (x >> 48u64) as u8, (x >> 40u64) as u8, (x >> 32u64) as u8,
        (x >> 24u64) as u8, (x >> 16u64) as u8, (x >> 8u64) as u8, x as u8,
    ]
}

/// The file type magic, `INFLUXV3` in ASCII.
pub open spec fn file_type_identifier_spec() -> Seq<u8> {
    seq![73u8, 78u8, 70u8, 76u8, 85u8, 88u8, 86u8, 51u8]
}

/// The fixed-width encoding of a segment id: the id as a 128-bit big-endian
/// integer.
pub open spec fn segment_id_bytes(id: u64) -> Seq<u8> {
    Seq::new(8, |i: int| 0u8) + be64(id)
}

/// The bytes every segment file starts with.
pub open spec fn preamble_spec(id: u64) -> Seq<u8> {
    file_type_identifier_spec() + segment_id_bytes(id)
}

/// Appends the four bytes of `x`, most significant first.
pub fn push_be32(out: &mut Vec<u8>, x: u32)
    ensures
        final(out)@ == old(out)@ + be32(x),
{
    out.push((x >> 24u32) as u8);
    out.push((x >> 16u32) as u8);
    out.push((x >> 8u32) as u8);
    out.push(x as u8);
    assert(final(out)@ =~= old(out)@ + be32(x));
}

/// The file type magic written at the start of every segment.
pub fn file_type_identifier() -> (r: Vec<u8>)
    ensures
        r@ == file_type_identifier_spec(),
        r@.len() == FILE_TYPE_IDENTIFIER_LEN,
{
    let r = vec![73u8, 78u8, 70u8, 76u8, 85u8, 88u8, 86u8, 51u8];
    assert(r@ =~= file_type_identifier_spec());
    r
}

/// Identifier of one segment, handed out by a monotonic counter.
#[derive(Debug, Clone, Copy, PartialEq, Eq, PartialOrd, Ord, Hash, Structural)]
pub struct SegmentId(pub u64);

impl SegmentId {
    pub fn new(v: u64) -> (r: SegmentId)
        ensures
            r.0 == v,
    {
        SegmentId(v)
    }

    pub fn get(&self) -> (r: u64)
        ensures
            r == self.0,
    {
        self.0
    }

    /// The fixed-width big-endian encoding written into the preamble.
    pub fn as_bytes(&self) -> (r: Vec<u8>)
        ensures
            r@ == segment_id_bytes(self.0),
            r@.len() == SEGMENT_ID_LEN,
    {
        let x = self.0;
        let mut r: Vec<u8> = vec![0u8, 0u8, 0u8, 0u8, 0u8, 0u8, 0u8, 0u8];
        r.push((x >> 56u64) as u8);
        r.push((x >> 48u64) as u8);
        r.push((x >> 40u64) as u8);
        r.push((x >> 32u64) as u8);
        r.push((x >> 24u64) as u8);
        r.push((x >> 16u64) as u8);
        r.push((x >> 8u64) as u8);
        r.push(x as u8);
        assert(r@ =~= segment_id_bytes(x));
        r
    }
}

/// The preamble of the segment with the given id.
pub fn preamble(id: SegmentId) -> (r: Vec<u8>)
    ensures
        r@ == preamble_spec(id.0),
        r@.len() == PREAMBLE_LEN,
{
    let mut r = file_type_identifier();
    let mut b = id.as_bytes();
    r.append(&mut b);
    r
}

/// Outcome of one successful append.
#[derive(Debug, Clone, Copy, PartialEq, Eq)]
pub struct WriteSummary {
    /// Bytes in the segment after the append, preamble included.
    pub total_bytes: usize,
    /// Bytes that this append added.
    pub bytes_written: usize,
    /// The segment that was written to.
    pub segment_id: SegmentId,
}

/// A segment whose writer has been closed.
#[derive(Debug, Clone, PartialEq, Eq)]
pub struct ClosedSegment {
    pub id: SegmentId,
    pub path: String,
    /// Bytes in the segment, preamble included.
    pub size: u64,
}

} // verus!
