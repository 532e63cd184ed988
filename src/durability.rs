//! Decides, after each write, how the new bytes are made durable.
//!
//! With preallocation the file is extended with zero pages whenever the
//! written bytes pass the preallocated region, followed by a sync of data
//! and metadata; otherwise only the newly written byte range is synced.
//! Without preallocation every write is followed by a data-only sync.
use vstd::prelude::*;
use crate::segment::PREALLOCATE_SIZE;

verus! {

/// The durability step that the caller performs on the segment file.
#[derive(Debug, Clone, Copy, PartialEq, Eq, Structural)]
pub enum SyncAction {
    /// Sync the byte range `[offset, offset + size)`: wait for earlier
    /// writeback, start writeback, wait for it.
    SyncRange { offset: usize, size: usize },
    /// Write `pages` zero-filled pages of `PREALLOCATE_SIZE` bytes at the
    /// cursor, sync data and metadata, then seek back to `seek_to`.
    Preallocate { pages: usize, seek_to: usize },
    /// Sync the file's data without all of its metadata.
    SyncData,
}

/// Zero pages written when `bytes_written` has passed `allocated_length`.
pub open spec fn pages_to_allocate(bytes_written: int, allocated_length: int) -> int {
    (bytes_written - allocated_length) / (PREALLOCATE_SIZE as int) + 1
}

/// The step that follows a write that ended at `bytes_written` and covered
/// `size` bytes from `offset`.
pub open spec fn sync_plan(
    preallocate: bool,
    bytes_written: usize,
    allocated_length: usize,
    offset: usize,
    size: usize,
) -> SyncAction {
    if !preallocate {
        SyncAction::SyncData
    } else if bytes_written > allocated_length {
        SyncAction::Preallocate {
            pages: pages_to_allocate(bytes_written as int, allocated_length as int) as usize,
            seek_to: bytes_written,
        }
    } else {
        SyncAction::SyncRange { offset, size }
    }
}

/// The preallocated length once the step of `sync_plan` has been taken.
pub open spec fn allocated_after(
    preallocate: bool,
    bytes_written: usize,
    allocated_length: usize,
) -> int {
    if preallocate && bytes_written > allocated_length {
        allocated_length + pages_to_allocate(bytes_written as int, allocated_length as int)
            * PREALLOCATE_SIZE
    } else {
        allocated_length as int
    }
}

/// Extending a preallocated region that is a whole number of pages, and
/// that the written bytes have passed, covers them again, stays a whole
/// number of pages, and overshoots by at most one page.
pub proof fn lemma_preallocation_covers(bytes_written: int, allocated_length: int)
    requires
        0 <= allocated_length < bytes_written,
        allocated_length % (PREALLOCATE_SIZE as int) == 0,
    ensures
        ({
            let after = allocated_length + pages_to_allocate(bytes_written, allocated_length)
                * PREALLOCATE_SIZE;
            &&& bytes_written < after <= bytes_written + PREALLOCATE_SIZE
            &&& after % (PREALLOCATE_SIZE as int) == 0
        }),
{
    let p = PREALLOCATE_SIZE as int;
    let d = bytes_written - allocated_length;
    let q = d / p;
    let k = allocated_length / p;
    assert(d == q * p + d % p && 0 <= d % p < p) by (nonlinear_arith)
        requires p > 0, d > 0, q == d / p;
    assert(allocated_length == k * p) by (nonlinear_arith)
        requires p > 0, allocated_length % p == 0, k == allocated_length / p, allocated_length >= 0;
    assert((q + 1) * p == q * p + p) by (nonlinear_arith);
    assert(k * p + (q + 1) * p == (k + q + 1) * p) by (nonlinear_arith);
    assert(((k + q + 1) * p) % p == 0) by (nonlinear_arith)
        requires p > 0, k + q + 1 >= 0;
}

/// Plans the durability step after a write of `size` bytes at `offset`
/// that left the cursor at `bytes_written`. Returns the step and the
/// preallocated length after it.
pub fn plan_sync(
    preallocate: bool,
    bytes_written: usize,
    allocated_length: usize,
    offset: usize,
    size: usize,
) -> (r: (SyncAction, usize))
    requires
        bytes_written + PREALLOCATE_SIZE <= usize::MAX,
        allocated_length % PREALLOCATE_SIZE == 0,
    ensures
        r.0 == sync_plan(preallocate, bytes_written, allocated_length, offset, size),
        r.1 == allocated_after(preallocate, bytes_written, allocated_length),
{
    if !preallocate {
        (SyncAction::SyncData, allocated_length)
    } else if bytes_written > allocated_length {
        let pages = (bytes_written - allocated_length) / PREALLOCATE_SIZE + 1;
        proof {
            lemma_preallocation_covers(bytes_written as int, allocated_length as int);
            assert(pages * PREALLOCATE_SIZE <= bytes_written - allocated_length
                + PREALLOCATE_SIZE);
        }
        let after = allocated_length + pages * PREALLOCATE_SIZE;
        (SyncAction::Preallocate { pages, seek_to: bytes_written }, after)
    } else {
        (SyncAction::SyncRange { offset, size }, allocated_length)
    }
}

} // verus!
