use std::io::Read;
use wal_segment::{
    check_chunk_len, file_type_identifier, patch_header, plan_sync, preamble, Error, SegmentId,
    SegmentWriterState, SyncAction, CHUNK_HEADER_LEN, PREALLOCATE_SIZE, PREAMBLE_LEN,
    SOFT_MAX_BUFFER_LEN,
};

/// Bytes that Snappy cannot shrink, from a fixed linear congruential sequence.
fn noise(len: usize, seed: u64) -> Vec<u8> {
    let mut x = seed;
    let mut out = Vec::with_capacity(len);
    for _ in 0..len {
        x = x.wrapping_mul(6364136223846793005).wrapping_add(1442695040888963407);
        out.push((x >> 33) as u8);
    }
    out
}

/// Checks one framed chunk and returns its decompressed payload.
fn decode_chunk(chunk: &[u8]) -> Vec<u8> {
    assert!(chunk.len() >= CHUNK_HEADER_LEN);
    let crc = u32::from_be_bytes([chunk[0], chunk[1], chunk[2], chunk[3]]);
    let len = u32::from_be_bytes([chunk[4], chunk[5], chunk[6], chunk[7]]) as usize;
    let body = &chunk[CHUNK_HEADER_LEN..];
    assert_eq!(len, body.len());
    assert_eq!(crc, crc32fast::hash(body));
    let mut out = Vec::new();
    snap::read::FrameDecoder::new(body).read_to_end(&mut out).unwrap();
    out
}

fn append(w: &mut SegmentWriterState, data: &[u8]) -> (Vec<u8>, wal_segment::WriteSummary, SyncAction) {
    w.frame(data).unwrap();
    let bytes = w.framed().to_vec();
    let action = w.commit().unwrap();
    let summary = w.synced().unwrap();
    (bytes, summary, action)
}

#[test]
fn preamble_layout() {
    let p = preamble(SegmentId::new(0x0102030405060708));
    assert_eq!(p.len(), PREAMBLE_LEN);
    assert_eq!(&p[..8], b"INFLUXV3");
    assert_eq!(&p[..8], &file_type_identifier()[..]);
    assert_eq!(&p[8..16], &[0u8; 8]);
    assert_eq!(&p[16..], &[1u8, 2, 3, 4, 5, 6, 7, 8]);
}

#[test]
fn open_fresh_writer_reports_id_and_preamble_size() {
    let (w, action) = SegmentWriterState::open(SegmentId::new(42), "wal/42.segment".to_string(), true);
    assert_eq!(w.id(), SegmentId::new(42));
    assert_eq!(w.bytes_written(), PREAMBLE_LEN);
    assert_eq!(w.path(), "wal/42.segment");
    assert_eq!(action, SyncAction::Preallocate { pages: 1, seek_to: PREAMBLE_LEN });
    assert_eq!(w.allocated_length(), 16384);
    let closed = w.close();
    assert_eq!(closed.id.get(), 42);
    assert_eq!(closed.size, 8 + 16);
    assert_eq!(closed.path, "wal/42.segment");
}

#[test]
fn open_without_preallocation_syncs_data() {
    let (w, action) = SegmentWriterState::open(SegmentId::new(1), "s".to_string(), false);
    assert_eq!(action, SyncAction::SyncData);
    assert_eq!(w.allocated_length(), 0);
    assert!(!w.preallocate());
}

#[test]
fn append_hello_round_trips() {
    let (mut w, _) = SegmentWriterState::open(SegmentId::new(7), "s".to_string(), true);
    let (bytes, summary, action) = append(&mut w, b"hello");
    assert!(summary.bytes_written > 8);
    assert_eq!(summary.bytes_written, bytes.len());
    assert_eq!(summary.total_bytes, PREAMBLE_LEN + bytes.len());
    assert_eq!(summary.segment_id, SegmentId::new(7));
    assert_eq!(decode_chunk(&bytes), b"hello".to_vec());
    assert_eq!(action, SyncAction::SyncRange { offset: PREAMBLE_LEN, size: bytes.len() });
    assert_eq!(w.close().size as usize, PREAMBLE_LEN + bytes.len());
}

#[test]
fn append_empty_then_world() {
    let (mut w, _) = SegmentWriterState::open(SegmentId::new(3), "s".to_string(), false);
    let (first, s1, a1) = append(&mut w, b"");
    let (second, s2, a2) = append(&mut w, b"world");
    assert_eq!(decode_chunk(&first), Vec::<u8>::new());
    assert_eq!(decode_chunk(&second), b"world".to_vec());
    assert_eq!(a1, SyncAction::SyncData);
    assert_eq!(a2, SyncAction::SyncData);
    assert_eq!(s2.total_bytes, PREAMBLE_LEN + s1.bytes_written + s2.bytes_written);
    assert_eq!(w.bytes_written(), s2.total_bytes);
}

#[test]
fn total_bytes_is_preamble_plus_appends() {
    let (mut w, _) = SegmentWriterState::open(SegmentId::new(9), "s".to_string(), true);
    let mut sum = 0;
    for (i, len) in [0usize, 1, 100, 5000, 20000].iter().enumerate() {
        let (_, summary, _) = append(&mut w, &noise(*len, i as u64));
        sum += summary.bytes_written;
        assert_eq!(summary.total_bytes, PREAMBLE_LEN + sum);
        assert!(w.allocated_length() >= w.bytes_written());
        assert_eq!(w.allocated_length() % PREALLOCATE_SIZE, 0);
    }
}

#[test]
fn buffer_shrinks_back_after_large_payload() {
    let (mut w, _) = SegmentWriterState::open(SegmentId::new(2), "s".to_string(), true);
    w.frame(&noise(200 * 1024, 5)).unwrap();
    // while the large chunk is framed the buffer exceeds the soft cap
    assert!(w.buffer_capacity() > SOFT_MAX_BUFFER_LEN);
    w.commit().unwrap();
    w.synced().unwrap();
    assert!(w.buffer_capacity() <= SOFT_MAX_BUFFER_LEN);
    append(&mut w, b"small");
    assert!(w.buffer_capacity() <= SOFT_MAX_BUFFER_LEN);
}

#[test]
fn preallocation_progresses_in_pages() {
    let (mut w, open_action) = SegmentWriterState::open(SegmentId::new(4), "s".to_string(), true);
    assert_eq!(w.allocated_length(), 16384);
    let mut allocated = vec![w.allocated_length()];
    let mut metadata_syncs = match open_action {
        SyncAction::Preallocate { .. } => 1,
        _ => 0,
    };
    let sizes = [13653usize, 13653, 13654];
    assert_eq!(sizes.iter().sum::<usize>(), 40 * 1024);
    for (i, len) in sizes.iter().enumerate() {
        let (_, _, action) = append(&mut w, &noise(*len, 10 + i as u64));
        if let SyncAction::Preallocate { pages, seek_to } = action {
            assert_eq!(pages, 1);
            assert_eq!(seek_to, w.bytes_written());
            metadata_syncs += 1;
        }
        allocated.push(w.allocated_length());
    }
    assert_eq!(allocated, vec![16384, 16384, 32768, 49152]);
    assert_eq!(metadata_syncs, 3);
}

#[test]
fn plan_sync_exact_values() {
    assert_eq!(
        plan_sync(true, 16385, 16384, 100, 16285),
        (SyncAction::Preallocate { pages: 1, seek_to: 16385 }, 32768)
    );
    // a whole page past the region: one page more than needed is added
    assert_eq!(
        plan_sync(true, 32768, 16384, 0, 10),
        (SyncAction::Preallocate { pages: 2, seek_to: 32768 }, 49152)
    );
    assert_eq!(
        plan_sync(true, 16384, 16384, 16000, 384),
        (SyncAction::SyncRange { offset: 16000, size: 384 }, 16384)
    );
    assert_eq!(plan_sync(false, 99999, 0, 0, 10), (SyncAction::SyncData, 0));
}

#[test]
fn five_gib_payload_is_too_large() {
    assert_eq!(
        check_chunk_len(5_368_709_120),
        Err(Error::ChunkSizeTooLarge { actual: 5_368_709_120 })
    );
    assert_eq!(check_chunk_len(u32::MAX as usize), Ok(u32::MAX));
    assert_eq!(
        check_chunk_len(u32::MAX as usize + 1),
        Err(Error::ChunkSizeTooLarge { actual: 1 << 32 })
    );
}

#[test]
fn patch_header_back_fills_checksum_and_length() {
    let mut buf = vec![0u8, 0, 0, 0, 0, 0, 0, 0, 9, 8, 7];
    assert_eq!(patch_header(&mut buf, 0x01020304), Ok(11));
    assert_eq!(buf, vec![1u8, 2, 3, 4, 0, 0, 0, 3, 9, 8, 7]);
}

#[test]
fn commit_without_frame_does_nothing() {
    let (mut w, _) = SegmentWriterState::open(SegmentId::new(5), "s".to_string(), true);
    assert!(w.commit().is_none());
    assert!(w.synced().is_none());
    assert_eq!(w.bytes_written(), PREAMBLE_LEN);
    assert!(w.framed().is_empty());
}

#[test]
fn open_then_close_is_preamble_only() {
    let (w, _) = SegmentWriterState::open(SegmentId::new(11), "s".to_string(), false);
    assert_eq!(w.close().size as usize, PREAMBLE_LEN);
}

#[test]
fn read_chunk_walks_a_segment() {
    let id = SegmentId::new(21);
    let (mut w, _) = SegmentWriterState::open(id, "s".to_string(), true);
    let mut segment = preamble(id);
    for payload in [&b"alpha"[..], &b""[..], &b"omega"[..]] {
        let (bytes, _, _) = append(&mut w, payload);
        segment.extend_from_slice(&bytes);
    }
    let mut pos = PREAMBLE_LEN;
    let mut bodies = Vec::new();
    while pos < segment.len() {
        let end = wal_segment::decode::read_chunk(&segment, pos).unwrap();
        bodies.push(decode_chunk(&segment[pos..end]));
        pos = end;
    }
    assert_eq!(bodies, vec![b"alpha".to_vec(), Vec::new(), b"omega".to_vec()]);
    assert_eq!(pos, w.bytes_written());

    // a flipped body byte no longer matches the checksum
    let last = segment.len() - 1;
    segment[last] ^= 0xff;
    let mut pos = PREAMBLE_LEN;
    for _ in 0..2 {
        pos = wal_segment::decode::read_chunk(&segment, pos).unwrap();
    }
    assert_eq!(wal_segment::decode::read_chunk(&segment, pos), None);
    assert_eq!(wal_segment::decode::read_chunk(&segment, segment.len() + 1), None);
}

#[test]
fn zero_region_ends_the_data() {
    let id = SegmentId::new(22);
    let (mut w, _) = SegmentWriterState::open(id, "s".to_string(), true);
    let mut segment = preamble(id);
    for payload in [&b""[..], &b"world"[..]] {
        let (bytes, _, _) = append(&mut w, payload);
        segment.extend_from_slice(&bytes);
    }
    let end = segment.len();
    segment.extend_from_slice(&[0u8; 5]);
    let mut pos = PREAMBLE_LEN;
    let mut bodies = Vec::new();
    while !wal_segment::decode::at_end_of_data(&segment, pos) {
        let next = wal_segment::decode::read_chunk(&segment, pos).unwrap();
        bodies.push(decode_chunk(&segment[pos..next]));
        pos = next;
    }
    assert_eq!(pos, end);
    assert_eq!(bodies, vec![Vec::new(), b"world".to_vec()]);
    assert_eq!(wal_segment::decode::read_chunk(&segment, pos), None);
    segment.extend_from_slice(&[0u8; PREALLOCATE_SIZE]);
    assert!(wal_segment::decode::at_end_of_data(&segment, end));
    assert_eq!(wal_segment::decode::read_chunk(&segment, end), None);
}

#[test]
fn failed_durability_step_leaves_the_state() {
    let (mut w, _) = SegmentWriterState::open(SegmentId::new(23), "s".to_string(), true);
    let before = (w.bytes_written(), w.allocated_length());
    w.frame(&noise(20000, 3)).unwrap();
    let action = w.commit().unwrap();
    assert!(matches!(action, SyncAction::Preallocate { pages: 1, .. }));
    // the caller's zero-fill failed: it never reports the append as synced
    assert_eq!((w.bytes_written(), w.allocated_length()), before);
    assert!(w.commit().is_none());
    assert_eq!(w.close().size as usize, before.0);
}

#[test]
fn empty_payload_frames_the_empty_stream() {
    let (mut w, _) = SegmentWriterState::open(SegmentId::new(8), "s".to_string(), true);
    assert_eq!(w.frame(b""), Ok(CHUNK_HEADER_LEN + 10));
    let chunk = w.framed().to_vec();
    let body = &chunk[CHUNK_HEADER_LEN..];
    assert_eq!(body, b"\xff\x06\x00\x00sNaPpY");
    assert_eq!(&chunk[..4], &crc32fast::hash(body).to_be_bytes()[..]);
    assert_eq!(&chunk[4..8], &[0u8, 0, 0, 10]);
    assert!(chunk[..CHUNK_HEADER_LEN].iter().any(|b| *b != 0));
    assert_eq!(decode_chunk(&chunk), Vec::<u8>::new());
    w.commit().unwrap();
    let summary = w.synced().unwrap();
    assert_eq!(summary.bytes_written, CHUNK_HEADER_LEN + 10);
    assert_eq!(summary.total_bytes, PREAMBLE_LEN + CHUNK_HEADER_LEN + 10);
}

#[test]
fn compressed_body_is_not_the_raw_payload() {
    let payload = vec![b'a'; 4096];
    let (mut w, _) = SegmentWriterState::open(SegmentId::new(6), "s".to_string(), true);
    let (bytes, summary, _) = append(&mut w, &payload);
    // a run of one byte compresses well below its own length
    assert!(summary.bytes_written < payload.len());
    assert_eq!(decode_chunk(&bytes), payload);
}

#[test]
fn compressed_size_stays_within_frame_bound() {
    let (mut w, _) = SegmentWriterState::open(SegmentId::new(12), "s".to_string(), false);
    for (len, seed) in [(1usize, 1u64), (65536, 2), (65537, 3), (300_000, 4)] {
        let n = w.frame(&noise(len, seed)).unwrap();
        let body = n - CHUNK_HEADER_LEN;
        assert!(body > 0);
        assert!(body <= 18 + len + 8 * (len / 65536));
        w.commit().unwrap();
        w.synced().unwrap();
    }
}
