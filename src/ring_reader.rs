use vstd::prelude::*;
use crate::reader::{ReaderError, ReaderView};
use crate::ring::{PerfRing, PerfRingError};

verus! {

/// Errors that can occur when using the ring reader.
#[derive(Debug, Clone, Copy, PartialEq, Eq, Structural)]
pub enum RingReaderError {
    /// No rings were added.
    NoRings,
    /// The reader is not in a read batch.
    NotActive,
    /// The reader is already in a read batch.
    AlreadyActive,
    /// No ring holds a record.
    BufferEmpty,
    /// An error of the ring itself.
    PerfRingError(PerfRingError),
}

pub open spec fn spec_convert(e: ReaderError) -> RingReaderError {
    match e {
        ReaderError::NoRings => RingReaderError::NoRings,
        ReaderError::NotActive => RingReaderError::NotActive,
        ReaderError::AlreadyActive => RingReaderError::AlreadyActive,
        ReaderError::BufferEmpty => RingReaderError::BufferEmpty,
        ReaderError::PerfRingError(p) => RingReaderError::PerfRingError(p),
    }
}

pub open spec fn spec_convert_result<T>(r: Result<T, ReaderError>) -> Result<T, RingReaderError> {
    match r {
        Ok(v) => Ok(v),
        Err(e) => Err(spec_convert(e)),
    }
}

fn convert<T>(r: Result<T, ReaderError>) -> (out: Result<T, RingReaderError>)
    ensures
        out == spec_convert_result(r),
{
    match r {
        Ok(v) => Ok(v),
        Err(ReaderError::NoRings) => Err(RingReaderError::NoRings),
        Err(ReaderError::NotActive) => Err(RingReaderError::NotActive),
        Err(ReaderError::AlreadyActive) => Err(RingReaderError::AlreadyActive),
        Err(ReaderError::BufferEmpty) => Err(RingReaderError::BufferEmpty),
        Err(ReaderError::PerfRingError(p)) => Err(RingReaderError::PerfRingError(p)),
    }
}

/// Offset of the timestamp within a sample's payload, right after its size field.
pub const RECORD_TIMESTAMP_OFFSET: u16 = 4;

/// A merged reader over rings whose samples carry their timestamp as the
/// first eight bytes after the sample size field. It orders records as
/// [`crate::reader::Reader`] does.
pub struct Reader {
    inner: crate::reader::Reader,
}

impl View for Reader {
    type V = ReaderView;

    closed spec fn view(&self) -> ReaderView {
        self.inner@
    }
}

impl Reader {
    pub closed spec fn inv(&self) -> bool {
        self.inner.inv()
    }

    /// Creates a reader with no rings, outside any batch.
    pub fn new() -> (r: Self)
        ensures
            r.inv(),
            !r@.active,
            r@.rings.len() == 0,
            r@.ts_offset == RECORD_TIMESTAMP_OFFSET,
    {
        Reader { inner: crate::reader::Reader::with_timestamp_offset(RECORD_TIMESTAMP_OFFSET) }
    }

    /// Adds a ring; allowed only outside a batch.
    pub fn add_ring(&mut self, ring: PerfRing) -> (r: Result<(), RingReaderError>)
        requires
            old(self).inv(),
            ring.inv(),
        ensures
            final(self).inv(),
            final(self)@.ts_offset == old(self)@.ts_offset,
            final(self)@.active == old(self)@.active,
            old(self)@.active ==> r == Err::<(), RingReaderError>(RingReaderError::AlreadyActive)
                && final(self)@ == old(self)@,
            !old(self)@.active ==> r == Ok::<(), RingReaderError>(()) && final(self)@.rings
                == old(self)@.rings.push(ring@),
    {
        convert(self.inner.add_ring(ring))
    }

    /// Begins a batch: every ring takes a snapshot of its producer's position.
    pub fn start(&mut self) -> (r: Result<(), RingReaderError>)
        requires
            old(self).inv(),
        ensures
            final(self).inv(),
            final(self)@.ts_offset == old(self)@.ts_offset,
            old(self)@.rings.len() == 0 ==> r == Err::<(), RingReaderError>(RingReaderError::NoRings)
                && final(self)@ == old(self)@,
            old(self)@.rings.len() > 0 && old(self)@.active ==> r == Err::<(), RingReaderError>(
                RingReaderError::AlreadyActive,
            ) && final(self)@ == old(self)@,
            old(self)@.rings.len() > 0 && !old(self)@.active ==> r == Ok::<(), RingReaderError>(())
                && final(self)@.active && final(self)@.rings.len() == old(self)@.rings.len()
                && forall|i: int|
                0 <= i < old(self)@.rings.len() ==> #[trigger] final(self)@.rings[i] == (
                crate::ring::RingState { read_end: old(self)@.rings[i].head, ..old(self)@.rings[i] }),
    {
        convert(self.inner.start())
    }

    /// Ends a batch: every ring publishes its consumer's position.
    pub fn finish(&mut self) -> (r: Result<(), RingReaderError>)
        requires
            old(self).inv(),
        ensures
            final(self).inv(),
            r == Ok::<(), RingReaderError>(()),
            !final(self)@.active,
            final(self)@.ts_offset == old(self)@.ts_offset,
            !old(self)@.active ==> final(self)@ == old(self)@,
            old(self)@.active ==> final(self)@.rings.len() == old(self)@.rings.len() && forall|
                i: int,
            |
                0 <= i < old(self)@.rings.len() ==> #[trigger] final(self)@.rings[i] == (
                crate::ring::RingState { tail: old(self)@.rings[i].read_pos, ..old(self)@.rings[i] }),
    {
        convert(self.inner.finish())
    }

    /// True outside a batch, or when no ring holds a record.
    pub fn is_empty(&self) -> (r: bool)
        requires
            self.inv(),
        ensures
            r == (!self@.active || self@.all_empty()),
    {
        self.inner.is_empty()
    }

    /// Key of the next record (its timestamp, or 0 for a record that has none).
    pub fn peek_timestamp(&self) -> (r: Result<u64, RingReaderError>)
        requires
            self.inv(),
        ensures
            !self@.active ==> r == Err::<u64, RingReaderError>(RingReaderError::NotActive),
            self@.active && self@.all_empty() ==> r == Err::<u64, RingReaderError>(
                RingReaderError::BufferEmpty,
            ),
            self@.active && !self@.all_empty() ==> exists|i: int|
                self@.is_next(i) && r == Ok::<u64, RingReaderError>(self@.key(i)),
    {
        convert(self.inner.peek_timestamp())
    }

    /// The ring that holds the next record, and its index.
    pub fn current_ring(&self) -> (r: Result<(&PerfRing, usize), RingReaderError>)
        requires
            self.inv(),
        ensures
            !self@.active ==> (r matches Err(RingReaderError::NotActive)),
            self@.active && self@.all_empty() ==> (r matches Err(RingReaderError::BufferEmpty)),
            self@.active && !self@.all_empty() ==> (r matches Ok((ring, i)) && self@.is_next(
                i as int,
            ) && ring@ == self@.rings[i as int] && ring.inv()),
    {
        convert(self.inner.current_ring())
    }

    /// Consumes the next record.
    pub fn pop(&mut self) -> (r: Result<(), RingReaderError>)
        requires
            old(self).inv(),
        ensures
            final(self).inv(),
            final(self)@.ts_offset == old(self)@.ts_offset,
            final(self)@.active == old(self)@.active,
            !old(self)@.active ==> r == Err::<(), RingReaderError>(RingReaderError::NotActive)
                && final(self)@ == old(self)@,
            old(self)@.active && old(self)@.all_empty() ==> r == Err::<(), RingReaderError>(
                RingReaderError::BufferEmpty,
            ) && final(self)@ == old(self)@,
            old(self)@.active && !old(self)@.all_empty() ==> r == Ok::<(), RingReaderError>(())
                && exists|i: int|
                old(self)@.is_next(i) && final(self)@.rings == old(self)@.rings.update(
                    i,
                    crate::ring::RingState {
                        read_pos: old(self)@.rings[i].next_read_pos(),
                        ..old(self)@.rings[i]
                    },
                ),
    {
        convert(self.inner.pop())
    }
}

} // verus!
