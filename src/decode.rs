//! Reading chunks back: a chunk is accepted when its header fits, its body
//! fits, and the CRC-32 in the header is that of the body. An all-zero
//! header, such as the start of a preallocated zero region, ends the data.
use vstd::prelude::*;
use vstd::slice::slice_subrange;
use crate::chunk::{chunk_of, crc32, crc32_of, compressed_form, CHUNK_HEADER_LEN};
use crate::segment::{be32, preamble_spec, PREAMBLE_LEN};
use crate::writer::{chunk_lens_sum, chunks_bytes, lemma_segment_len, segment_bytes, WriterModel};

verus! {

/// The 32-bit value of four bytes, most significant first.
pub open spec fn be32_value(b: Seq<u8>) -> u32 {
    ((b[0] as u32) << 24u32) | ((b[1] as u32) << 16u32) | ((b[2] as u32) << 8u32) | (b[3] as u32)
}

/// Whether `s` starts with an all-zero chunk header, or with zeros up to
/// its end where fewer than a header's bytes are left: the end of the data.
pub open spec fn is_end_marker(s: Seq<u8>) -> bool {
    &&& s.len() > 0
    &&& forall|i: int| 0 <= i < s.len() && i < CHUNK_HEADER_LEN ==> s[i] == 0
}

/// The length of the well-formed chunk at the start of `s`, if there is one.
pub open spec fn chunk_len_at(s: Seq<u8>) -> Option<int> {
    if s.len() < CHUNK_HEADER_LEN || is_end_marker(s) {
        None
    } else {
        let crc = be32_value(s.subrange(0, 4));
        let n = be32_value(s.subrange(4, 8)) as int;
        if CHUNK_HEADER_LEN + n > s.len() {
            None
        } else if crc != crc32_of(s.subrange(8, 8 + n)) {
            None
        } else {
            Some(CHUNK_HEADER_LEN + n)
        }
    }
}

/// The compressed bodies of the sequence of chunks that `s` starts with,
/// up to its end or to an all-zero header, if every chunk before that is
/// well formed.
pub open spec fn parse_chunks(s: Seq<u8>) -> Option<Seq<Seq<u8>>>
    decreases s.len(),
{
    if s.len() == 0 || is_end_marker(s) {
        Some(Seq::empty())
    } else {
        match chunk_len_at(s) {
            None => None,
            Some(k) => match parse_chunks(s.skip(k)) {
                None => None,
                Some(rest) => Some(seq![s.subrange(CHUNK_HEADER_LEN as int, k)] + rest),
            },
        }
    }
}

/// The compressed bodies of the chunks of a segment with the given id.
pub open spec fn parse_segment(s: Seq<u8>, id: u64) -> Option<Seq<Seq<u8>>> {
    if s.len() >= PREAMBLE_LEN && s.subrange(0, PREAMBLE_LEN as int) == preamble_spec(id) {
        parse_chunks(s.skip(PREAMBLE_LEN as int))
    } else {
        None
    }
}

/// Reads the four bytes at `i` as a big-endian value.
pub fn read_be32(b: &[u8], i: usize) -> (r: u32)
    requires
        i + 4 <= b@.len(),
    ensures
        r == be32_value(b@.subrange(i as int, i + 4)),
{
    ((b[i] as u32) << 24u32) | ((b[i + 1] as u32) << 16u32) | ((b[i + 2] as u32) << 8u32) | (
    b[i + 3] as u32)
}

/// Whether the data of `segment` ends at `pos`: nothing is left there, or
/// an all-zero chunk header.
pub fn at_end_of_data(segment: &[u8], pos: usize) -> (r: bool)
    ensures
        r == (pos >= segment@.len() || is_end_marker(segment@.skip(pos as int))),
{
    let len = segment.len();
    if pos >= len {
        return true;
    }
    let ghost s = segment@.skip(pos as int);
    let mut i: usize = 0;
    while i < CHUNK_HEADER_LEN && i < len - pos
        invariant
            pos < len == segment@.len(),
            s == segment@.skip(pos as int),
            i <= CHUNK_HEADER_LEN,
            i <= len - pos,
            forall|k: int| 0 <= k < i ==> s[k] == 0,
        decreases CHUNK_HEADER_LEN - i,
    {
        if segment[pos + i] != 0 {
            assert(s[i as int] != 0);
            return false;
        }
        i = i + 1;
    }
    true
}

/// The end of the chunk that starts at `pos` in `segment`, if a whole
/// chunk is there, its header is not all zeros, and the CRC-32 in its
/// header is that of its body.
pub fn read_chunk(segment: &[u8], pos: usize) -> (r: Option<usize>)
    ensures
        pos > segment@.len() ==> r is None,
        pos <= segment@.len() ==> r == match chunk_len_at(segment@.skip(pos as int)) {
            Some(k) => Some((pos + k) as usize),
            None => None::<usize>,
        },
{
    let len = segment.len();
    if pos > len || len - pos < CHUNK_HEADER_LEN || at_end_of_data(segment, pos) {
        return None;
    }
    let ghost s = segment@.skip(pos as int);
    let checksum = read_be32(segment, pos);
    let n = read_be32(segment, pos + 4) as usize;
    assert(s.subrange(0, 4) =~= segment@.subrange(pos as int, pos + 4));
    assert(s.subrange(4, 8) =~= segment@.subrange(pos + 4, pos + 8));
    if n > len - pos - CHUNK_HEADER_LEN {
        return None;
    }
    let start = pos + CHUNK_HEADER_LEN;
    let body = slice_subrange(segment, start, start + n);
    assert(body@ =~= s.subrange(8, 8 + n));
    if crc32(body) != checksum {
        return None;
    }
    Some(start + n)
}

/// Four bytes written most significant first read back as the same value.
pub proof fn lemma_be32_round_trip(x: u32)
    ensures
        be32_value(be32(x)) == x,
{
    assert(((((x >> 24u32) as u8) as u32) << 24u32) | ((((x >> 16u32) as u8) as u32) << 16u32)
        | ((((x >> 8u32) as u8) as u32) << 8u32) | ((x as u8) as u32) == x) by (bit_vector);
}

/// Four zero bytes read as zero.
pub proof fn lemma_be32_of_zeros(b: Seq<u8>)
    requires
        b.len() == 4,
        b[0] == 0 && b[1] == 0 && b[2] == 0 && b[3] == 0,
    ensures
        be32_value(b) == 0,
{
    assert((((0u8 as u32) << 24u32) | ((0u8 as u32) << 16u32) | ((0u8 as u32) << 8u32) | (
    0u8 as u32)) == 0u32) by (bit_vector);
}

/// The chunks of a non-empty payload sequence start with the first one's.
pub proof fn lemma_chunks_bytes_front(ps: Seq<Seq<u8>>)
    requires
        ps.len() > 0,
    ensures
        chunks_bytes(ps) == chunk_of(ps[0]) + chunks_bytes(ps.skip(1)),
    decreases ps.len(),
{
    if ps.len() == 1 {
        assert(ps.drop_last() =~= Seq::<Seq<u8>>::empty());
        assert(ps.skip(1) =~= Seq::<Seq<u8>>::empty());
        assert(chunks_bytes(ps.drop_last()) == Seq::<u8>::empty());
        assert(chunks_bytes(ps.skip(1)) == Seq::<u8>::empty());
        assert(chunks_bytes(ps) =~= chunk_of(ps[0]));
    } else {
        let dl = ps.drop_last();
        lemma_chunks_bytes_front(dl);
        assert(ps.skip(1).drop_last() =~= dl.skip(1));
        assert(ps.skip(1).last() == ps.last());
        assert(chunks_bytes(ps) =~= chunk_of(ps[0]) + chunks_bytes(ps.skip(1)));
    }
}

/// The chunk of a payload whose compressed form is non-empty and fits a
/// 32-bit length reads back, from the front of any byte sequence, as that
/// compressed form.
pub proof fn lemma_chunk_reads_back(p: Seq<u8>, rest: Seq<u8>)
    requires
        0 < compressed_form(p).len() <= u32::MAX,
    ensures
        !is_end_marker(chunk_of(p) + rest),
        chunk_len_at(chunk_of(p) + rest) == Some(CHUNK_HEADER_LEN + compressed_form(p).len()),
        (chunk_of(p) + rest).subrange(
            CHUNK_HEADER_LEN as int,
            CHUNK_HEADER_LEN + compressed_form(p).len(),
        ) == compressed_form(p),
        (chunk_of(p) + rest).skip(CHUNK_HEADER_LEN + compressed_form(p).len()) == rest,
{
    let c = compressed_form(p);
    let s = chunk_of(p) + rest;
    lemma_be32_round_trip(crc32_of(c));
    lemma_be32_round_trip(c.len() as u32);
    if is_end_marker(s) {
        lemma_be32_of_zeros(s.subrange(4, 8));
        assert(s.subrange(4, 8) =~= be32(c.len() as u32));
    }
    assert(s.subrange(0, 4) =~= be32(crc32_of(c)));
    assert(s.subrange(4, 8) =~= be32(c.len() as u32));
    assert(s.subrange(8, 8 + c.len() as int) =~= c);
    assert(s.skip(8 + c.len() as int) =~= rest);
}

/// Appended payloads read back in order, whatever ends the data after
/// them: when every compressed form is non-empty and fits a 32-bit length,
/// the chunks that frame them parse, each with a matching CRC-32, into
/// exactly their compressed forms.
pub proof fn lemma_chunks_read_back_before(ps: Seq<Seq<u8>>, tail: Seq<u8>)
    requires
        forall|i: int| 0 <= i < ps.len() ==> 0 < #[trigger] compressed_form(ps[i]).len() <= u32::MAX,
        parse_chunks(tail) == Some(Seq::<Seq<u8>>::empty()),
    ensures
        parse_chunks(chunks_bytes(ps) + tail) == Some(
            ps.map_values(|p: Seq<u8>| compressed_form(p)),
        ),
    decreases ps.len(),
{
    let f = |p: Seq<u8>| compressed_form(p);
    if ps.len() == 0 {
        assert(ps.map_values(f) =~= Seq::<Seq<u8>>::empty());
        assert(chunks_bytes(ps) + tail =~= tail);
    } else {
        let rest_ps = ps.skip(1);
        assert forall|i: int| 0 <= i < rest_ps.len() implies 0 < #[trigger] compressed_form(
            rest_ps[i],
        ).len() <= u32::MAX by {
            assert(rest_ps[i] == ps[i + 1]);
        }
        lemma_chunks_read_back_before(rest_ps, tail);
        lemma_chunks_bytes_front(ps);
        let c = compressed_form(ps[0]);
        assert(0 < c.len() <= u32::MAX);
        let rest = chunks_bytes(rest_ps) + tail;
        lemma_chunk_reads_back(ps[0], rest);
        let s = chunk_of(ps[0]) + rest;
        assert(chunks_bytes(ps) + tail =~= s);
        let k = CHUNK_HEADER_LEN + c.len();
        assert(s.len() > 0);
        assert(chunk_len_at(s) == Some(k));
        assert(s.skip(k) == rest);
        assert(parse_chunks(s) == Some(seq![c] + rest_ps.map_values(f)));
        assert(ps.map_values(f) =~= seq![c] + rest_ps.map_values(f));
    }
}

/// Appended payloads read back in order: when every compressed form is
/// non-empty and fits a 32-bit length, the chunks that frame them parse,
/// each with a matching CRC-32, into exactly their compressed forms.
pub proof fn lemma_chunks_read_back(ps: Seq<Seq<u8>>)
    requires
        forall|i: int| 0 <= i < ps.len() ==> 0 < #[trigger] compressed_form(ps[i]).len() <= u32::MAX,
    ensures
        parse_chunks(chunks_bytes(ps)) == Some(ps.map_values(|p: Seq<u8>| compressed_form(p))),
{
    let empty = Seq::<u8>::empty();
    lemma_chunks_read_back_before(ps, empty);
    assert(chunks_bytes(ps) + empty =~= chunks_bytes(ps));
}

/// A whole segment reads back: its preamble names its id, and its chunks
/// parse into the compressed forms of the appended payloads, in order.
pub proof fn lemma_segment_reads_back(id: u64, ps: Seq<Seq<u8>>)
    requires
        forall|i: int| 0 <= i < ps.len() ==> 0 < #[trigger] compressed_form(ps[i]).len() <= u32::MAX,
    ensures
        parse_segment(segment_bytes(id, ps), id) == Some(
            ps.map_values(|p: Seq<u8>| compressed_form(p)),
        ),
{
    let s = segment_bytes(id, ps);
    assert(s.subrange(0, PREAMBLE_LEN as int) =~= preamble_spec(id));
    assert(s.skip(PREAMBLE_LEN as int) =~= chunks_bytes(ps));
    lemma_chunks_read_back(ps);
}

/// A segment that nothing was appended to is exactly its preamble, and
/// reads back as an empty log.
pub proof fn lemma_empty_segment(id: u64)
    ensures
        segment_bytes(id, Seq::empty()) == preamble_spec(id),
        chunk_lens_sum(Seq::empty()) == 0,
        parse_segment(segment_bytes(id, Seq::empty()), id) == Some(Seq::<Seq<u8>>::empty()),
{
    assert(segment_bytes(id, Seq::empty()) =~= preamble_spec(id));
    lemma_segment_reads_back(id, Seq::empty());
    assert(Seq::<Seq<u8>>::empty().map_values(|p: Seq<u8>| compressed_form(p)) =~= Seq::<
        Seq<u8>,
    >::empty());
}

/// What any writer has committed reads back: its segment is exactly
/// `bytes_written` long, and every chunk in it has a matching CRC-32 and
/// holds the compressed form of the payload appended in its place.
pub proof fn lemma_writer_reads_back(m: WriterModel)
    requires
        m.inv(),
    ensures
        segment_bytes(m.id, m.payloads).len() == m.bytes_written,
        parse_segment(segment_bytes(m.id, m.payloads), m.id) == Some(
            m.payloads.map_values(|p: Seq<u8>| compressed_form(p)),
        ),
{
    lemma_segment_len(m.id, m.payloads);
    lemma_segment_reads_back(m.id, m.payloads);
}

/// A segment followed by zeros, as a preallocated file is past its last
/// chunk, reads back as the segment alone.
pub proof fn lemma_zero_tail_reads_back(id: u64, ps: Seq<Seq<u8>>, zeros: nat)
    requires
        forall|i: int| 0 <= i < ps.len() ==> 0 < #[trigger] compressed_form(ps[i]).len() <= u32::MAX,
    ensures
        parse_segment(segment_bytes(id, ps) + Seq::new(zeros, |i: int| 0u8), id) == Some(
            ps.map_values(|p: Seq<u8>| compressed_form(p)),
        ),
{
    let tail = Seq::new(zeros, |i: int| 0u8);
    assert(parse_chunks(tail) == Some(Seq::<Seq<u8>>::empty()));
    lemma_chunks_read_back_before(ps, tail);
    let s = segment_bytes(id, ps) + tail;
    assert(s.subrange(0, PREAMBLE_LEN as int) =~= preamble_spec(id));
    assert(s.skip(PREAMBLE_LEN as int) =~= chunks_bytes(ps) + tail);
}

} // verus!
