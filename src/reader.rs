use vstd::prelude::*;
use crate::bytes::{le_u64_at, read_u64_le};
use crate::ring::{PerfRing, PerfRingError, RingState, PERF_RECORD_SAMPLE};

verus! {

/// Errors that can occur when using the ring reader.
#[derive(Debug, Clone, Copy, PartialEq, Eq, Structural)]
pub enum ReaderError {
    /// No rings were added.
    NoRings,
    /// The reader is not in a read batch.
    NotActive,
    /// The reader is already in a read batch.
    AlreadyActive,
    /// No ring holds a record.
    BufferEmpty,
    /// An error of the ring itself.
    PerfRingError(PerfRingError),
}

/// The header that samples carry at the start of their payload.
#[derive(Debug, Clone, Copy, PartialEq, Eq, Structural)]
pub struct SampleHeader {
    pub size: u32,
    pub type_: u32,
    pub timestamp: u64,
}

/// Offset of `timestamp` within [`SampleHeader`].
pub const SAMPLE_TIMESTAMP_OFFSET: u16 = 8;

/// The ordering key of the record at the head of a ring: the sample's
/// timestamp, read `ts_offset` bytes into its payload. A record that is not a
/// sample (a lost-records notification) has key 0, as does a sample too short
/// to hold a timestamp there, so that both are surfaced at once rather than
/// ordered by bytes that are no timestamp.
pub open spec fn head_key(s: RingState, ts_offset: int) -> u64 {
    if s.head_type() != PERF_RECORD_SAMPLE || s.head_payload_size() < ts_offset + 8 {
        0
    } else {
        le_u64_at(s.head_payload(ts_offset, 8), 0)
    }
}

/// What a reader holds: whether a batch is active, and its rings.
pub struct ReaderView {
    pub active: bool,
    pub rings: Seq<RingState>,
    pub ts_offset: int,
}

impl ReaderView {
    pub open spec fn key(self, i: int) -> u64 {
        head_key(self.rings[i], self.ts_offset)
    }

    /// Every ring is empty.
    pub open spec fn all_empty(self) -> bool {
        forall|i: int| 0 <= i < self.rings.len() ==> #[trigger] self.rings[i].is_empty()
    }

    /// Ring `i` holds the next record of the merged stream: it is not empty,
    /// and no other non-empty ring has a smaller key, nor an equal key and a
    /// smaller index.
    pub open spec fn is_next(self, i: int) -> bool {
        &&& 0 <= i < self.rings.len()
        &&& !self.rings[i].is_empty()
        &&& forall|j: int|
            0 <= j < self.rings.len() && !(#[trigger] self.rings[j]).is_empty() ==> self.key(i)
                < self.key(j) || (self.key(i) == self.key(j) && i <= j)
    }
}

/// Reads records from several rings in one stream, ordered by the key of the
/// record at the head of each ring (see [`head_key`]), ties broken by ring
/// index.
pub struct Reader {
    rings: Vec<PerfRing>,
    keys: Vec<Option<u64>>,
    active: bool,
    ts_offset: u16,
}

impl View for Reader {
    type V = ReaderView;

    closed spec fn view(&self) -> ReaderView {
        ReaderView {
            active: self.active,
            rings: self.rings@.map_values(|r: PerfRing| r@),
            ts_offset: self.ts_offset as int,
        }
    }
}

/// The ordering key of a ring's head record.
fn ring_key(ring: &PerfRing, ts_offset: u16) -> (r: u64)
    requires
        ring.inv(),
        !ring@.is_empty(),
    ensures
        r == head_key(ring@, ts_offset as int),
{
    if ring.peek_type() != PERF_RECORD_SAMPLE {
        return 0;
    }
    let size = match ring.peek_size() {
        Ok(size) => size,
        Err(_) => {
            return 0;
        },
    };
    if (size as u64) < ts_offset as u64 + 8 {
        return 0;
    }
    let mut buf: Vec<u8> = vec![0u8; 8];
    match ring.peek_copy(&mut buf, ts_offset) {
        Ok(()) => read_u64_le(buf.as_slice(), 0),
        Err(_) => 0,
    }
}

impl Reader {
    pub closed spec fn inv(&self) -> bool {
        &&& self.rings@.len() == self.keys@.len()
        &&& forall|i: int| 0 <= i < self.rings@.len() ==> (#[trigger] self.rings@[i]).inv()
        &&& forall|i: int|
            0 <= i < self.rings@.len() ==> #[trigger] self.keys@[i] == if self.active
                && !self.rings@[i]@.is_empty() {
                Some(head_key(self.rings@[i]@, self.ts_offset as int))
            } else {
                None
            }
    }

    /// Every ring of a well-formed reader is in a valid state.
    pub proof fn lemma_rings_valid(&self)
        requires
            self.inv(),
        ensures
            forall|i: int| 0 <= i < self@.rings.len() ==> (#[trigger] self@.rings[i]).valid(),
    {
        assert forall|i: int| 0 <= i < self@.rings.len() implies (#[trigger] self@.rings[i]).valid() by {
            self.rings@[i].lemma_inv_valid();
        }
    }

    /// Creates a reader with no rings, outside any batch, for samples that
    /// begin with a [`SampleHeader`].
    pub fn new() -> (r: Self)
        ensures
            r.inv(),
            !r@.active,
            r@.rings.len() == 0,
            r@.ts_offset == SAMPLE_TIMESTAMP_OFFSET,
    {
        Reader::with_timestamp_offset(SAMPLE_TIMESTAMP_OFFSET)
    }

    /// Creates a reader with no rings that reads a sample's timestamp
    /// `ts_offset` bytes into its payload.
    pub fn with_timestamp_offset(ts_offset: u16) -> (r: Self)
        ensures
            r.inv(),
            !r@.active,
            r@.rings.len() == 0,
            r@.ts_offset == ts_offset,
    {
        let r = Reader { rings: Vec::new(), keys: Vec::new(), active: false, ts_offset };
        assert(r@.rings =~= Seq::<RingState>::empty());
        r
    }

    /// Adds a ring; allowed only outside a batch.
    pub fn add_ring(&mut self, ring: PerfRing) -> (r: Result<(), ReaderError>)
        requires
            old(self).inv(),
            ring.inv(),
        ensures
            final(self).inv(),
            final(self)@.ts_offset == old(self)@.ts_offset,
            final(self)@.active == old(self)@.active,
            old(self)@.active ==> r == Err::<(), ReaderError>(ReaderError::AlreadyActive)
                && final(self)@ == old(self)@,
            !old(self)@.active ==> r == Ok::<(), ReaderError>(()) && final(self)@.rings
                == old(self)@.rings.push(ring@),
    {
        if self.active {
            return Err(ReaderError::AlreadyActive);
        }
        self.rings.push(ring);
        self.keys.push(None);
        assert(self@.rings =~= old(self)@.rings.push(ring@));
        Ok(())
    }

    /// Takes in what the outside producer of ring `i` published (see
    /// [`PerfRing::sync_from_shared`]); allowed only outside a batch.
    pub fn sync_ring(&mut self, i: usize, shared: &[u8]) -> (r: Result<(), ReaderError>)
        requires
            old(self).inv(),
            i < old(self)@.rings.len(),
        ensures
            final(self).inv(),
            final(self)@.active == old(self)@.active,
            final(self)@.ts_offset == old(self)@.ts_offset,
            final(self)@.rings.len() == old(self)@.rings.len(),
            old(self)@.active ==> r == Err::<(), ReaderError>(ReaderError::AlreadyActive)
                && final(self)@ == old(self)@,
            forall|j: int| 0 <= j < old(self)@.rings.len() && j != i ==> #[trigger] final(self)@.rings[j]
                == old(self)@.rings[j],
            r is Ok ==> final(self)@.rings[i as int].head >= old(self)@.rings[i as int].head,
    {
        if self.active {
            return Err(ReaderError::AlreadyActive);
        }
        let mut ring = self.rings.remove(i);
        let res = ring.sync_from_shared(shared);
        self.rings.insert(i, ring);
        assert forall|j: int| 0 <= j < self.rings@.len() implies #[trigger] self.keys@[j] == if self.active
            && !self.rings@[j]@.is_empty() {
            Some(head_key(self.rings@[j]@, self.ts_offset as int))
        } else {
            None
        } by {
            if j != i {
                assert(self.rings@[j] == old(self).rings@[j]);
            }
        }
        match res {
            Ok(()) => Ok(()),
            Err(e) => Err(ReaderError::PerfRingError(e)),
        }
    }

    /// The published consumer position of ring `i`.
    pub fn published_tail(&self, i: usize) -> (r: u64)
        requires
            self.inv(),
            i < self@.rings.len(),
        ensures
            r == self@.rings[i as int].tail,
    {
        self.rings[i].published_tail()
    }

    /// Begins a batch: every ring takes a snapshot of its producer's position.
    pub fn start(&mut self) -> (r: Result<(), ReaderError>)
        requires
            old(self).inv(),
        ensures
            final(self).inv(),
            final(self)@.ts_offset == old(self)@.ts_offset,
            old(self)@.rings.len() == 0 ==> r == Err::<(), ReaderError>(ReaderError::NoRings)
                && final(self)@ == old(self)@,
            old(self)@.rings.len() > 0 && old(self)@.active ==> r == Err::<(), ReaderError>(
                ReaderError::AlreadyActive,
            ) && final(self)@ == old(self)@,
            old(self)@.rings.len() > 0 && !old(self)@.active ==> r == Ok::<(), ReaderError>(())
                && final(self)@.active && final(self)@.rings.len() == old(self)@.rings.len()
                && forall|i: int|
                0 <= i < old(self)@.rings.len() ==> #[trigger] final(self)@.rings[i] == (RingState {
                    read_end: old(self)@.rings[i].head,
                    ..old(self)@.rings[i]
                }),
    {
        if self.rings.len() == 0 {
            return Err(ReaderError::NoRings);
        }
        if self.active {
            return Err(ReaderError::AlreadyActive);
        }
        let n = self.rings.len();
        let mut i: usize = 0;
        while i < n
            invariant
                n == self.rings@.len() == self.keys@.len() == old(self).rings@.len(),
                i <= n,
                !self.active,
                self.ts_offset == old(self).ts_offset,
                forall|j: int| 0 <= j < n ==> (#[trigger] self.rings@[j]).inv(),
                forall|j: int|
                    0 <= j < i ==> #[trigger] self.rings@[j]@ == (RingState {
                        read_end: old(self).rings@[j]@.head,
                        ..old(self).rings@[j]@
                    }),
                forall|j: int| i <= j < n ==> #[trigger] self.rings@[j] == old(self).rings@[j],
                forall|j: int|
                    0 <= j < i ==> #[trigger] self.keys@[j] == if !self.rings@[j]@.is_empty() {
                        Some(head_key(self.rings@[j]@, self.ts_offset as int))
                    } else {
                        None
                    },
            decreases n - i,
        {
            let mut ring = self.rings.remove(i);
            ring.start_read_batch();
            let key = if ring_is_empty(&ring) {
                None
            } else {
                Some(ring_key(&ring, self.ts_offset))
            };
            self.rings.insert(i, ring);
            self.keys.set(i, key);
            i = i + 1;
        }
        self.active = true;
        assert(self@.rings.len() == n);
        Ok(())
    }

    /// Ends a batch: every ring publishes its consumer's position.
    pub fn finish(&mut self) -> (r: Result<(), ReaderError>)
        requires
            old(self).inv(),
        ensures
            final(self).inv(),
            r == Ok::<(), ReaderError>(()),
            !final(self)@.active,
            final(self)@.ts_offset == old(self)@.ts_offset,
            !old(self)@.active ==> final(self)@ == old(self)@,
            old(self)@.active ==> final(self)@.rings.len() == old(self)@.rings.len() && forall|
                i: int,
            |
                0 <= i < old(self)@.rings.len() ==> #[trigger] final(self)@.rings[i] == (
                RingState { tail: old(self)@.rings[i].read_pos, ..old(self)@.rings[i] }),
    {
        if !self.active {
            return Ok(());
        }
        let n = self.rings.len();
        let mut i: usize = 0;
        while i < n
            invariant
                n == self.rings@.len() == self.keys@.len() == old(self).rings@.len(),
                i <= n,
                self.active,
                self.ts_offset == old(self).ts_offset,
                forall|j: int| 0 <= j < n ==> (#[trigger] self.rings@[j]).inv(),
                forall|j: int|
                    0 <= j < i ==> #[trigger] self.rings@[j]@ == (RingState {
                        tail: old(self).rings@[j]@.read_pos,
                        ..old(self).rings@[j]@
                    }),
                forall|j: int| i <= j < n ==> #[trigger] self.rings@[j] == old(self).rings@[j],
                forall|j: int| 0 <= j < i ==> #[trigger] self.keys@[j] == None::<u64>,
            decreases n - i,
        {
            let mut ring = self.rings.remove(i);
            ring.finish_read_batch();
            self.rings.insert(i, ring);
            self.keys.set(i, None);
            i = i + 1;
        }
        self.active = false;
        Ok(())
    }

    /// Index of the ring that holds the next record, if any ring holds one.
    fn select(&self) -> (r: Option<usize>)
        requires
            self.inv(),
            self.active,
        ensures
            r is None <==> self@.all_empty(),
            r matches Some(i) ==> self@.is_next(i as int),
    {
        let mut best: Option<usize> = None;
        let mut best_key: u64 = 0;
        let mut i: usize = 0;
        while i < self.keys.len()
            invariant
                self.inv(),
                self.active,
                i <= self.keys@.len(),
                best is None <==> forall|j: int| 0 <= j < i ==> #[trigger] self@.rings[j].is_empty(),
                best matches Some(b) ==> b < i && !self@.rings[b as int].is_empty() && best_key
                    == self@.key(b as int) && forall|j: int|
                    0 <= j < i && !(#[trigger] self@.rings[j]).is_empty() ==> best_key
                        < self@.key(j) || (best_key == self@.key(j) && b <= j),
            decreases self.keys@.len() - i,
        {
            assert(self.keys@[i as int] == if !self@.rings[i as int].is_empty() {
                Some(self@.key(i as int))
            } else {
                None
            });
            match self.keys[i] {
                Some(k) => {
                    if best.is_none() || k < best_key {
                        best = Some(i);
                        best_key = k;
                    }
                },
                None => {},
            }
            i = i + 1;
        }
        best
    }

    /// True outside a batch, or when no ring holds a record.
    pub fn is_empty(&self) -> (r: bool)
        requires
            self.inv(),
        ensures
            r == (!self@.active || self@.all_empty()),
    {
        if !self.active {
            return true;
        }
        self.select().is_none()
    }

    /// Key of the next record (its timestamp, or 0; see [`head_key`]).
    pub fn peek_timestamp(&self) -> (r: Result<u64, ReaderError>)
        requires
            self.inv(),
        ensures
            !self@.active ==> r == Err::<u64, ReaderError>(ReaderError::NotActive),
            self@.active && self@.all_empty() ==> r == Err::<u64, ReaderError>(
                ReaderError::BufferEmpty,
            ),
            self@.active && !self@.all_empty() ==> exists|i: int|
                self@.is_next(i) && r == Ok::<u64, ReaderError>(self@.key(i)),
    {
        if !self.active {
            return Err(ReaderError::NotActive);
        }
        match self.select() {
            Some(i) => {
                let k = self.keys[i];
                match k {
                    Some(k) => Ok(k),
                    None => Ok(0),
                }
            },
            None => Err(ReaderError::BufferEmpty),
        }
    }

    /// The ring that holds the next record, and its index.
    pub fn current_ring(&self) -> (r: Result<(&PerfRing, usize), ReaderError>)
        requires
            self.inv(),
        ensures
            !self@.active ==> (r matches Err(ReaderError::NotActive)),
            self@.active && self@.all_empty() ==> (r matches Err(ReaderError::BufferEmpty)),
            self@.active && !self@.all_empty() ==> (r matches Ok((ring, i)) && self@.is_next(
                i as int,
            ) && ring@ == self@.rings[i as int] && ring.inv()),
    {
        if !self.active {
            return Err(ReaderError::NotActive);
        }
        match self.select() {
            Some(i) => Ok((&self.rings[i], i)),
            None => Err(ReaderError::BufferEmpty),
        }
    }

    /// Consumes the next record.
    pub fn pop(&mut self) -> (r: Result<(), ReaderError>)
        requires
            old(self).inv(),
        ensures
            final(self).inv(),
            final(self)@.ts_offset == old(self)@.ts_offset,
            final(self)@.active == old(self)@.active,
            !old(self)@.active ==> r == Err::<(), ReaderError>(ReaderError::NotActive)
                && final(self)@ == old(self)@,
            old(self)@.active && old(self)@.all_empty() ==> r == Err::<(), ReaderError>(
                ReaderError::BufferEmpty,
            ) && final(self)@ == old(self)@,
            old(self)@.active && !old(self)@.all_empty() ==> r == Ok::<(), ReaderError>(())
                && exists|i: int|
                old(self)@.is_next(i) && final(self)@.rings == old(self)@.rings.update(
                    i,
                    RingState { read_pos: old(self)@.rings[i].next_read_pos(), ..old(self)@.rings[i] },
                ),
    {
        if !self.active {
            return Err(ReaderError::NotActive);
        }
        let i = match self.select() {
            Some(i) => i,
            None => {
                return Err(ReaderError::BufferEmpty);
            },
        };
        let mut ring = self.rings.remove(i);
        let popped = ring.pop();
        let key = if ring_is_empty(&ring) {
            None
        } else {
            Some(ring_key(&ring, self.ts_offset))
        };
        self.rings.insert(i, ring);
        self.keys.set(i, key);
        assert(self@.rings =~= old(self)@.rings.update(
            i as int,
            RingState { read_pos: old(self)@.rings[i as int].next_read_pos(), ..old(self)@.rings[i as int] },
        ));
        match popped {
            Ok(()) => Ok(()),
            Err(e) => Err(ReaderError::PerfRingError(e)),
        }
    }
}

/// Whether the ring holds no record in the current batch.
fn ring_is_empty(ring: &PerfRing) -> (r: bool)
    requires
        ring.inv(),
    ensures
        r == ring@.is_empty(),
{
    match ring.peek_size() {
        Ok(_) => false,
        Err(_) => true,
    }
}

/// Merge order: when the next record is consumed from ring `i`, and the
/// record that ring `i` then shows has a key no smaller than the consumed one
/// (each ring holds its samples in timestamp order), the record that comes
/// next has a key no smaller than the consumed one. So records leave the
/// reader in ascending key order.
pub proof fn lemma_merge_order(v: ReaderView, w: ReaderView, i: int, k: int)
    requires
        v.is_next(i),
        w.ts_offset == v.ts_offset,
        w.rings == v.rings.update(
            i,
            RingState { read_pos: v.rings[i].next_read_pos(), ..v.rings[i] },
        ),
        !w.rings[i].is_empty() ==> w.key(i) >= v.key(i),
        w.is_next(k),
    ensures
        w.key(k) >= v.key(i),
{
    if k != i {
        assert(w.rings[k] == v.rings[k]);
        assert(!v.rings[k].is_empty());
    }
}

/// Lost records first: when any ring shows a record that is not a sample (a
/// lost-records notification), the next record has key 0, so it comes before
/// every sample whose timestamp is not 0.
pub proof fn lemma_lost_records_first(v: ReaderView, i: int, j: int)
    requires
        v.is_next(i),
        0 <= j < v.rings.len(),
        !v.rings[j].is_empty(),
        v.rings[j].head_type() != PERF_RECORD_SAMPLE,
    ensures
        v.key(i) == 0,
        v.key(j) == 0,
{
    assert(!v.rings[j].is_empty());
}

} // verus!
