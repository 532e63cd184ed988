//! The state of an open segment writer: its id, path, byte cursor,
//! preallocation high-water mark and reusable framing buffer.
//!
//! An append runs in steps. `frame` turns the payload into a chunk in the
//! buffer; the caller writes `framed()` to the file; `commit` says which
//! durability step the caller takes next; once that step has succeeded,
//! `synced` records the append. Until then the writer shows the segment as
//! it was, so an append that fails part way leaves no trace in its state.
use vstd::prelude::*;
use crate::chunk::{chunk_of, compressed_form, frame_chunk, max_snappy_frame_len, shrink_buffer};
use crate::durability::{allocated_after, plan_sync, sync_plan, SyncAction};
use crate::error::Error;
use crate::segment::{
    preamble_spec, ClosedSegment, SegmentId, WriteSummary, PREALLOCATE_SIZE, PREAMBLE_LEN,
    SOFT_MAX_BUFFER_LEN,
};

verus! {

/// The sum of the lengths of the chunks that frame `payloads`.
pub open spec fn chunk_lens_sum(payloads: Seq<Seq<u8>>) -> nat
    decreases payloads.len(),
{
    if payloads.len() == 0 {
        0
    } else {
        chunk_lens_sum(payloads.drop_last()) + chunk_of(payloads.last()).len()
    }
}

/// The chunks that frame `payloads`, in order.
pub open spec fn chunks_bytes(payloads: Seq<Seq<u8>>) -> Seq<u8>
    decreases payloads.len(),
{
    if payloads.len() == 0 {
        Seq::empty()
    } else {
        chunks_bytes(payloads.drop_last()) + chunk_of(payloads.last())
    }
}

/// The logical contents of the segment `id` after `payloads` were appended.
pub open spec fn segment_bytes(id: u64, payloads: Seq<Seq<u8>>) -> Seq<u8> {
    preamble_spec(id) + chunks_bytes(payloads)
}

/// The segment holds exactly the preamble and one chunk per appended
/// payload: its length is the preamble's plus the sum of the chunk lengths
/// that the appends reported.
pub proof fn lemma_segment_len(id: u64, payloads: Seq<Seq<u8>>)
    ensures
        segment_bytes(id, payloads).len() == PREAMBLE_LEN + chunk_lens_sum(payloads),
    decreases payloads.len(),
{
    if payloads.len() > 0 {
        lemma_segment_len(id, payloads.drop_last());
    }
}

/// Relies on `Vec::capacity`: what the allocator gave; nothing is promised.
#[verifier::external_body]
fn vec_capacity(v: &Vec<u8>) -> usize {
    v.capacity()
}

/// What a writer is, as far as its contract goes.
pub struct WriterModel {
    pub id: u64,
    pub path: Seq<char>,
    /// Whether the file is preallocated in zero pages (range sync) or
    /// synced with a data-only sync after each write.
    pub preallocate: bool,
    pub bytes_written: nat,
    pub allocated_length: nat,
    /// The payloads committed so far, in order.
    pub payloads: Seq<Seq<u8>>,
    /// The payload framed and not yet recorded, if any.
    pub pending: Option<Seq<u8>>,
    /// Whether the pending payload's chunk was written to the file, its
    /// durability step not yet recorded.
    pub written: bool,
}

impl WriterModel {
    /// What holds of every writer between operations.
    pub open spec fn inv(self) -> bool {
        &&& self.bytes_written == PREAMBLE_LEN + chunk_lens_sum(self.payloads)
        &&& self.bytes_written + PREALLOCATE_SIZE <= usize::MAX
        &&& self.preallocate ==> self.allocated_length % (PREALLOCATE_SIZE as nat) == 0
            && self.bytes_written <= self.allocated_length <= self.bytes_written
            + PREALLOCATE_SIZE
        &&& !self.preallocate ==> self.allocated_length == 0
        &&& forall|i: int|
            0 <= i < self.payloads.len() ==> 0 < #[trigger] compressed_form(
                self.payloads[i],
            ).len() <= u32::MAX
        &&& self.pending is Some ==> 0 < compressed_form(self.pending->Some_0).len() <= u32::MAX
        &&& self.written ==> self.pending is Some && self.bytes_written + chunk_of(
            self.pending->Some_0,
        ).len() + PREALLOCATE_SIZE <= usize::MAX
    }
}

/// State of a segment file open for appending.
pub struct SegmentWriterState {
    id: SegmentId,
    path: String,
    preallocate: bool,
    bytes_written: usize,
    allocated_length: usize,
    buffer: Vec<u8>,
    payloads: Ghost<Seq<Seq<u8>>>,
    pending: Ghost<Option<Seq<u8>>>,
    written: bool,
}

impl View for SegmentWriterState {
    type V = WriterModel;

    closed spec fn view(&self) -> WriterModel {
        WriterModel {
            id: self.id.0,
            path: self.path@,
            preallocate: self.preallocate,
            bytes_written: self.bytes_written as nat,
            allocated_length: self.allocated_length as nat,
            payloads: self.payloads@,
            pending: self.pending@,
            written: self.written,
        }
    }
}

impl SegmentWriterState {
    pub closed spec fn wf(&self) -> bool {
        &&& self@.inv()
        &&& match self.pending@ {
            None => self.buffer@.len() == 0,
            Some(p) => self.buffer@ == chunk_of(p),
        }
    }

    /// The state right after the preamble of segment `id` was written to
    /// `path`, and the durability step that makes the preamble durable.
    pub fn open(id: SegmentId, path: String, preallocate: bool) -> (r: (Self, SyncAction))
        ensures
            r.0.wf(),
            r.0@.inv(),
            r.0@ == (WriterModel {
                id: id.0,
                path: path@,
                preallocate,
                bytes_written: PREAMBLE_LEN as nat,
                allocated_length: allocated_after(preallocate, PREAMBLE_LEN, 0) as nat,
                payloads: Seq::empty(),
                pending: None,
                written: false,
            }),
            r.1 == sync_plan(preallocate, PREAMBLE_LEN, 0, 0, PREAMBLE_LEN),
    {
        let (action, allocated_length) = plan_sync(preallocate, PREAMBLE_LEN, 0, 0, PREAMBLE_LEN);
        let state = SegmentWriterState {
            id,
            path,
            preallocate,
            bytes_written: PREAMBLE_LEN,
            allocated_length,
            buffer: Vec::with_capacity(8 * 1024),
            payloads: Ghost(Seq::empty()),
            pending: Ghost(None),
            written: false,
        };
        (state, action)
    }

    pub fn id(&self) -> (r: SegmentId)
        ensures
            r.0 == self@.id,
    {
        self.id
    }

    pub fn path(&self) -> (r: &str)
        ensures
            r@ == self@.path,
    {
        self.path.as_str()
    }

    pub fn preallocate(&self) -> (r: bool)
        ensures
            r == self@.preallocate,
    {
        self.preallocate
    }

    pub fn bytes_written(&self) -> (r: usize)
        ensures
            r == self@.bytes_written,
    {
        self.bytes_written
    }

    pub fn allocated_length(&self) -> (r: usize)
        ensures
            r == self@.allocated_length,
    {
        self.allocated_length
    }

    /// The capacity that the reusable framing buffer holds at present.
    pub fn buffer_capacity(&self) -> usize {
        vec_capacity(&self.buffer)
    }

    /// Frames `data` as the next chunk. Nothing is recorded: a payload
    /// framed earlier and not recorded by `synced` is dropped.
    pub fn frame(&mut self, data: &[u8]) -> (r: Result<usize, Error>)
        requires
            old(self).wf(),
        ensures
            final(self).wf(),
            final(self)@.inv(),
            final(self)@ == (WriterModel {
                pending: if r is Ok { Some(data@) } else { None },
                written: false,
                ..old(self)@
            }),
            data@.len() <= u32::MAX ==> compressed_form(data@).len() > 0,
            data@.len() <= u32::MAX ==> compressed_form(data@).len() <= max_snappy_frame_len(
                data@.len() as int,
            ),
            data@.len() > u32::MAX ==> r == Err::<usize, Error>(
                Error::ChunkSizeTooLarge { actual: data@.len() as usize },
            ),
            data@.len() <= u32::MAX ==> r == (if compressed_form(data@).len() <= u32::MAX {
                Ok::<usize, Error>(chunk_of(data@).len() as usize)
            } else {
                Err::<usize, Error>(
                    Error::ChunkSizeTooLarge { actual: compressed_form(data@).len() as usize },
                )
            }),
    {
        let r = frame_chunk(&mut self.buffer, data);
        if r.is_ok() {
            self.pending = Ghost(Some(data@));
            self.written = false;
        } else {
            self.pending = Ghost(None);
            self.written = false;
        }
        r
    }

    /// The framed chunk that the caller writes to the file next.
    pub fn framed(&self) -> (r: &[u8])
        requires
            self.wf(),
        ensures
            r@ == match self@.pending {
                Some(p) => chunk_of(p),
                None => Seq::empty(),
            },
    {
        self.buffer.as_slice()
    }

    /// Records that the framed chunk was written to the file at the cursor,
    /// and returns the durability step to take next. Nothing else changes
    /// until `synced` records the append. `None`, with nothing changed, when
    /// no chunk is framed, when it was already written, or when the cursor
    /// could not advance within the range of `usize`.
    pub fn commit(&mut self) -> (r: Option<SyncAction>)
        requires
            old(self).wf(),
        ensures
            final(self).wf(),
            final(self)@.inv(),
            match old(self)@.pending {
                None => r is None && final(self)@ == old(self)@,
                Some(p) => {
                    let n = chunk_of(p).len();
                    let total = old(self)@.bytes_written + n;
                    if old(self)@.written || total + PREALLOCATE_SIZE > usize::MAX {
                        r is None && final(self)@ == old(self)@
                    } else {
                        &&& final(self)@ == (WriterModel { written: true, ..old(self)@ })
                        &&& r == Some(
                            sync_plan(
                                old(self)@.preallocate,
                                total as usize,
                                old(self)@.allocated_length as usize,
                                old(self)@.bytes_written as usize,
                                n as usize,
                            ),
                        )
                    }
                },
            },
    {
        let n = self.buffer.len();
        if n == 0 {
            proof {
                if let Some(p) = self.pending@ {
                    assert(chunk_of(p).len() >= 8);
                }
            }
            return None;
        }
        if self.written || n > usize::MAX - PREALLOCATE_SIZE - self.bytes_written {
            return None;
        }
        let (action, _) = plan_sync(
            self.preallocate,
            self.bytes_written + n,
            self.allocated_length,
            self.bytes_written,
            n,
        );
        self.written = true;
        Some(action)
    }

    /// Records the append whose chunk was written and whose durability step
    /// was taken: the cursor passes the chunk, the preallocated length
    /// becomes what the step reached, and the framing buffer is cleared and
    /// shrunk towards `SOFT_MAX_BUFFER_LEN`. Returns the append's summary;
    /// `None`, with nothing changed, when no chunk is written.
    ///
    /// A caller whose write or durability step failed does not call this:
    /// the writer then still shows the segment as it was before the append.
    pub fn synced(&mut self) -> (r: Option<WriteSummary>)
        requires
            old(self).wf(),
        ensures
            final(self).wf(),
            final(self)@.inv(),
            !old(self)@.written ==> r is None && final(self)@ == old(self)@,
            old(self)@.written ==> {
                let p = old(self)@.pending->Some_0;
                let n = chunk_of(p).len();
                let total = old(self)@.bytes_written + n;
                &&& final(self)@ == (WriterModel {
                    bytes_written: total,
                    allocated_length: allocated_after(
                        old(self)@.preallocate,
                        total as usize,
                        old(self)@.allocated_length as usize,
                    ) as nat,
                    payloads: old(self)@.payloads.push(p),
                    pending: None,
                    written: false,
                    ..old(self)@
                })
                &&& r == Some(
                    WriteSummary {
                        total_bytes: total as usize,
                        bytes_written: n as usize,
                        segment_id: SegmentId(old(self)@.id),
                    },
                )
            },
    {
        if !self.written {
            return None;
        }
        let n = self.buffer.len();
        let total = self.bytes_written + n;
        let (_, allocated_length) = plan_sync(
            self.preallocate,
            total,
            self.allocated_length,
            self.bytes_written,
            n,
        );
        proof {
            let p = self.pending@.unwrap();
            let ps = self.payloads@.push(p);
            assert(ps.drop_last() =~= self.payloads@);
            if self.preallocate && total > self.allocated_length {
                crate::durability::lemma_preallocation_covers(
                    total as int,
                    self.allocated_length as int,
                );
            }
        }
        self.bytes_written = total;
        self.allocated_length = allocated_length;
        self.payloads = Ghost(self.payloads@.push(self.pending@.unwrap()));
        self.pending = Ghost(None);
        self.written = false;
        self.buffer.clear();
        shrink_buffer(&mut self.buffer, SOFT_MAX_BUFFER_LEN);
        Some(WriteSummary { total_bytes: total, bytes_written: n, segment_id: self.id })
    }

    /// Seals the segment: its id, path and size in bytes.
    pub fn close(self) -> (r: ClosedSegment)
        requires
            self.wf(),
        ensures
            r.id.0 == self@.id,
            r.path@ == self@.path,
            r.size == self@.bytes_written,
    {
        let size = self.bytes_written as u64;
        ClosedSegment { id: self.id, path: self.path, size }
    }
}

} // verus!
