//! Framing of one payload into a chunk:
//! `crc32(be32) || compressed_len(be32) || snappy_frame(payload)`.
//!
//! The compressed form is never empty: an empty payload is written as the
//! Snappy frame format's stream identifier alone, which is how that format
//! encodes an empty stream. So no chunk header is all zeros, which readers
//! take as the end of the data.
use vstd::prelude::*;
use vstd::slice::slice_subrange;
use crate::error::Error;
use crate::segment::{be32, push_be32, SOFT_MAX_BUFFER_LEN};

verus! {

/// Length of the chunk header: a CRC-32 and a compressed length.
pub const CHUNK_HEADER_LEN: usize = 8;

/// The Snappy frame format encoding of a payload.
pub uninterp spec fn snappy_frame_of(data: Seq<u8>) -> Seq<u8>;

/// An upper bound on the Snappy frame encoding of `n` bytes: the 10-byte
/// stream identifier, then for each block of at most 64 KiB an 8-byte header
/// and at most the block itself.
pub open spec fn max_snappy_frame_len(n: int) -> int {
    18 + n + 8 * (n / 65536)
}

/// The CRC-32 (IEEE) checksum of a byte sequence.
pub uninterp spec fn crc32_of(bytes: Seq<u8>) -> u32;

/// Relies on `snap::write::FrameEncoder`: writing `data` through an encoder
/// over `buf`, then taking the writer back (which flushes it), appends the
/// Snappy frame encoding of `data` to `buf`. Writing into a `Vec` cannot
/// fail, and blocks of at most 64 KiB always compress. An encoder that was
/// given no bytes writes nothing; one that was given bytes writes the stream
/// identifier before anything else, then each block of at most 64 KiB with
/// an 8-byte header, compressed only where that makes it shorter.
#[verifier::external_body]
fn snappy_frame_into(buf: &mut Vec<u8>, data: &[u8])
    ensures
        final(buf)@ == old(buf)@ + snappy_frame_of(data@),
        data@.len() == 0 ==> final(buf)@ == old(buf)@,
        data@.len() > 0 ==> final(buf)@.len() > old(buf)@.len(),
        data@.len() > 0 ==> final(buf)@.len() <= old(buf)@.len() + max_snappy_frame_len(
            data@.len() as int,
        ),
{
    let mut encoder = snap::write::FrameEncoder::new(buf);
    std::io::Write::write_all(&mut encoder, data).expect("writing into a Vec cannot fail");
    encoder.into_inner().expect("flushing into a Vec cannot fail");
}

/// Relies on `crc32fast::hash`: the CRC-32 checksum of `bytes`.
#[verifier::external_body]
pub(crate) fn crc32(bytes: &[u8]) -> (r: u32)
    ensures
        r == crc32_of(bytes@),
{
    crc32fast::hash(bytes)
}

/// Relies on `Vec::shrink_to`: the capacity may change, the contents do not.
#[verifier::external_body]
pub(crate) fn shrink_buffer(buf: &mut Vec<u8>, min_capacity: usize)
    ensures
        final(buf)@ == old(buf)@,
{
    buf.shrink_to(min_capacity)
}

/// The Snappy frame format's stream identifier (`0xff 0x06 0x00 0x00`
/// followed by `sNaPpY`): on its own, the encoding of an empty stream.
pub open spec fn empty_stream_spec() -> Seq<u8> {
    seq![0xffu8, 0x06u8, 0x00u8, 0x00u8, 0x73u8, 0x4eu8, 0x61u8, 0x50u8, 0x70u8, 0x59u8]
}

/// Length of the Snappy frame format's stream identifier.
pub const EMPTY_STREAM_LEN: usize = 10;

/// Appends the encoding of an empty Snappy frame stream.
pub fn push_empty_stream(out: &mut Vec<u8>)
    ensures
        final(out)@ == old(out)@ + empty_stream_spec(),
{
    let mut id: Vec<u8> = vec![0xffu8, 0x06u8, 0x00u8, 0x00u8, 0x73u8, 0x4eu8, 0x61u8, 0x50u8, 0x70u8, 0x59u8];
    assert(id@ =~= empty_stream_spec());
    out.append(&mut id);
}

/// The compressed form that a chunk carries for the payload `data`.
pub open spec fn compressed_form(data: Seq<u8>) -> Seq<u8> {
    if data.len() == 0 {
        empty_stream_spec()
    } else {
        snappy_frame_of(data)
    }
}

/// The bytes of the chunk that frames the payload `data`.
pub open spec fn chunk_of(data: Seq<u8>) -> Seq<u8> {
    let c = compressed_form(data);
    be32(crc32_of(c)) + be32(c.len() as u32) + c
}

/// Checks that a length fits the 32-bit length field of a chunk.
pub fn check_chunk_len(len: usize) -> (r: Result<u32, Error>)
    ensures
        r == (if len <= u32::MAX { Ok::<u32, Error>(len as u32) } else {
            Err::<u32, Error>(Error::ChunkSizeTooLarge { actual: len })
        }),
{
    if len <= u32::MAX as usize {
        Ok(len as u32)
    } else {
        Err(Error::ChunkSizeTooLarge { actual: len })
    }
}

/// Fills in the header of a chunk whose compressed body follows the eight
/// reserved bytes at the head of `buffer`: `checksum`, then the body's
/// length, both big-endian. Returns the chunk's length.
pub fn patch_header(buffer: &mut Vec<u8>, checksum: u32) -> (r: Result<usize, Error>)
    requires
        old(buffer)@.len() >= CHUNK_HEADER_LEN,
    ensures
        ({
            let body = old(buffer)@.skip(CHUNK_HEADER_LEN as int);
            if body.len() <= u32::MAX {
                &&& r == Ok::<usize, Error>(old(buffer)@.len() as usize)
                &&& final(buffer)@ == be32(checksum) + be32(body.len() as u32) + body
            } else {
                &&& r == Err::<usize, Error>(Error::ChunkSizeTooLarge { actual: body.len() as usize })
                &&& final(buffer)@ == old(buffer)@
            }
        }),
{
    let total = buffer.len();
    let compressed_len = match check_chunk_len(total - CHUNK_HEADER_LEN) {
        Ok(n) => n,
        Err(e) => return Err(e),
    };
    let mut header: Vec<u8> = Vec::new();
    push_be32(&mut header, checksum);
    push_be32(&mut header, compressed_len);
    let ghost before = buffer@;
    let mut i: usize = 0;
    while i < CHUNK_HEADER_LEN
        invariant
            0 <= i <= CHUNK_HEADER_LEN,
            header@.len() == CHUNK_HEADER_LEN,
            buffer@.len() == before.len(),
            before.len() >= CHUNK_HEADER_LEN,
            total == before.len(),
            forall|k: int| 0 <= k < i ==> buffer@[k] == header@[k],
            forall|k: int| i <= k < before.len() ==> buffer@[k] == before[k],
        decreases CHUNK_HEADER_LEN - i,
    {
        buffer[i] = header[i];
        i = i + 1;
    }
    assert(buffer@ =~= header@ + before.skip(CHUNK_HEADER_LEN as int));
    Ok(total)
}

/// Frames `data` as one chunk in `buffer`, which is cleared and shrunk
/// towards `SOFT_MAX_BUFFER_LEN` first. Returns the chunk's length.
///
/// A payload whose length does not fit in 32 bits is refused before any
/// compression; so is one whose compressed form does not fit. The
/// compressed form is never empty.
pub fn frame_chunk(buffer: &mut Vec<u8>, data: &[u8]) -> (r: Result<usize, Error>)
    ensures
        data@.len() > u32::MAX ==> r == Err::<usize, Error>(
            Error::ChunkSizeTooLarge { actual: data@.len() as usize },
        ),
        data@.len() <= u32::MAX ==> r == (
        if compressed_form(data@).len() <= u32::MAX {
            Ok::<usize, Error>(chunk_of(data@).len() as usize)
        } else {
            Err::<usize, Error>(
                Error::ChunkSizeTooLarge { actual: compressed_form(data@).len() as usize },
            )
        }),
        r is Ok ==> final(buffer)@ == chunk_of(data@),
        data@.len() <= u32::MAX ==> compressed_form(data@).len() > 0,
        data@.len() <= u32::MAX ==> compressed_form(data@).len() <= max_snappy_frame_len(
            data@.len() as int,
        ),
        r is Err ==> final(buffer)@.len() == 0,
{
    buffer.clear();
    shrink_buffer(buffer, SOFT_MAX_BUFFER_LEN);
    if let Err(e) = check_chunk_len(data.len()) {
        return Err(e);
    }
    let mut i: usize = 0;
    while i < CHUNK_HEADER_LEN
        invariant
            0 <= i <= CHUNK_HEADER_LEN,
            buffer@.len() == i,
        decreases CHUNK_HEADER_LEN - i,
    {
        buffer.push(0u8);
        i = i + 1;
    }
    let ghost reserved = buffer@;
    if data.len() == 0 {
        push_empty_stream(buffer);
    } else {
        snappy_frame_into(buffer, data);
    }
    let ghost compressed = compressed_form(data@);
    assert(buffer@.skip(CHUNK_HEADER_LEN as int) =~= compressed);
    let checksum = crc32(slice_subrange(buffer.as_slice(), CHUNK_HEADER_LEN, buffer.len()));
    assert(buffer@.subrange(CHUNK_HEADER_LEN as int, buffer@.len() as int) =~= compressed);
    let r = patch_header(buffer, checksum);
    if r.is_err() {
        buffer.clear();
    }
    r
}

} // verus!
