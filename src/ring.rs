use vstd::prelude::*;
use vstd::arithmetic::div_mod::{lemma_mod_equivalence, lemma_add_mod_noop_right, lemma_small_mod};
use crate::bytes::{le_u16, le_u32_at, le_u64_at, u32_le_bytes, read_u64_le, push_u32_le};

verus! {

/// Errors that can occur when using the perf ring buffer.
#[derive(Debug, Clone, Copy, PartialEq, Eq, Structural)]
pub enum PerfRingError {
    /// The data region is not a power of two of at least eight bytes, or the
    /// buffer cannot hold the layout that its metadata page describes.
    InvalidBufferLength,
    /// The buffer is empty.
    NilBuffer,
    /// The ring has no room for the record.
    NoSpace,
    /// There is no record to read.
    BufferEmpty,
    /// The record is larger than the ring.
    CannotFit,
    /// An empty payload cannot be written.
    EmptyWrite,
    /// A read asked for more bytes than the record holds.
    SizeExceeded,
}

/// Header of a record in the ring: `{type:u32, misc:u16, size:u16}`.
#[derive(Debug, Clone, Copy, PartialEq, Eq, Structural)]
pub struct PerfEventHeader {
    pub type_: u32,
    pub misc: u16,
    pub size: u16,
}

/// The fields of the shared metadata page that the ring uses.
#[derive(Debug, Clone, Copy, PartialEq, Eq, Structural)]
pub struct PerfEventMmapPage {
    pub version: u32,
    pub compat_version: u32,
    pub data_head: u64,
    pub data_tail: u64,
    pub data_offset: u64,
    pub data_size: u64,
    pub aux_offset: u64,
    pub aux_size: u64,
}

/// Record type of a sample.
pub const PERF_RECORD_SAMPLE: u32 = 9;

/// Record type of a lost-records notification.
pub const PERF_RECORD_LOST: u32 = 2;

/// Size of [`PerfEventHeader`] in bytes.
pub const HEADER_SIZE: u64 = 8;

/// Offset of `data_head` within the metadata page.
pub const META_DATA_HEAD: usize = 1024;

/// Offset of `data_tail` within the metadata page.
pub const META_DATA_TAIL: usize = 1032;

/// Offset of `data_offset` within the metadata page.
pub const META_DATA_OFFSET: usize = 1040;

/// Size of the part of the metadata page that holds the fields above.
pub const META_PAGE_SIZE: usize = 1088;

/// Largest data region that a ring accepts, so that a count of unread bytes
/// always fits a `u32`.
pub const MAX_DATA_LEN: u64 = 0x8000_0000;

impl PerfEventMmapPage {
    /// Decodes the metadata page at the start of `page`.
    pub fn from_bytes(page: &[u8]) -> (r: PerfEventMmapPage)
        requires
            page@.len() >= META_PAGE_SIZE,
        ensures
            r.version == le_u32_at(page@, 0),
            r.compat_version == le_u32_at(page@, 4),
            r.data_head == le_u64_at(page@, META_DATA_HEAD as int),
            r.data_tail == le_u64_at(page@, META_DATA_TAIL as int),
            r.data_offset == le_u64_at(page@, META_DATA_OFFSET as int),
            r.data_size == le_u64_at(page@, 1048),
            r.aux_offset == le_u64_at(page@, 1056),
            r.aux_size == le_u64_at(page@, 1064),
    {
        PerfEventMmapPage {
            version: crate::bytes::read_u32_le(page, 0),
            compat_version: crate::bytes::read_u32_le(page, 4),
            data_head: read_u64_le(page, META_DATA_HEAD),
            data_tail: read_u64_le(page, META_DATA_TAIL),
            data_offset: read_u64_le(page, META_DATA_OFFSET),
            data_size: read_u64_le(page, 1048),
            aux_offset: read_u64_le(page, 1056),
            aux_size: read_u64_le(page, 1064),
        }
    }
}

/// The abstract state of a ring: its data region and the positions of both
/// sides, as byte counters that only grow.
pub struct RingState {
    /// The data region.
    pub data: Seq<u8>,
    /// Position published by the producer (`data_head`).
    pub head: int,
    /// Position published by the consumer (`data_tail`).
    pub tail: int,
    /// Consumer: position of the next record to read.
    pub read_pos: int,
    /// Consumer: snapshot of `head` taken when the read batch began.
    pub read_end: int,
    /// Producer: position where the next record goes.
    pub write_pos: int,
    /// Producer: snapshot of `tail` taken when the write batch began.
    pub write_base: int,
}

impl RingState {
    pub open spec fn len(self) -> int {
        self.data.len() as int
    }

    /// The positions are ordered, and the producer never gets more than one
    /// ring length ahead of what the consumer released.
    pub open spec fn valid(self) -> bool {
        &&& 8 <= self.len() <= MAX_DATA_LEN
        &&& self.len() % 8 == 0
        &&& 0 <= self.write_base <= self.tail <= self.read_pos <= self.read_end <= self.head
            <= self.write_pos
        &&& self.write_pos - self.write_base <= self.len()
        &&& self.write_pos <= u64::MAX
    }

    /// The byte at (unbounded) position `pos`.
    pub open spec fn byte_at(self, pos: int) -> u8 {
        self.data[pos % self.len()]
    }

    /// `n` bytes starting at position `pos`.
    pub open spec fn bytes_at(self, pos: int, n: int) -> Seq<u8> {
        Seq::new(n as nat, |i: int| self.byte_at(pos + i))
    }

    pub open spec fn is_empty(self) -> bool {
        self.read_pos == self.read_end
    }

    /// Type of the record at the read position.
    pub open spec fn head_type(self) -> u32 {
        le_u32_at(self.bytes_at(self.read_pos, 4), 0)
    }

    /// Size field of the header at the read position.
    pub open spec fn head_size(self) -> u16 {
        le_u16(self.byte_at(self.read_pos + 6), self.byte_at(self.read_pos + 7))
    }

    /// Payload size of the record at the read position, as `peek_size` reports it.
    pub open spec fn head_payload_size(self) -> int {
        if self.head_size() >= 8 {
            self.head_size() - 8
        } else {
            0
        }
    }

    /// Bytes of the record at the read position, after its header.
    pub open spec fn head_payload(self, offset: int, n: int) -> Seq<u8> {
        self.bytes_at(self.read_pos + HEADER_SIZE + offset, n)
    }

    /// Where the read position goes when the current record is consumed: past
    /// the record, or to the end of the batch when the header's size cannot
    /// belong to a record of this batch.
    pub open spec fn next_read_pos(self) -> int {
        let size = self.head_size() as int;
        if 8 <= size && self.read_pos + size <= self.read_end {
            self.read_pos + size
        } else {
            self.read_end
        }
    }
}

/// The 8-byte aligned size of a record that carries `payload_len` bytes.
pub open spec fn record_len(payload_len: int, event_type: u32) -> int {
    let unaligned = payload_len + HEADER_SIZE + if event_type == PERF_RECORD_SAMPLE {
        4int
    } else {
        0int
    };
    ((unaligned + 7) / 8) * 8
}

/// The value of the size field that precedes a sample's payload.
pub open spec fn sample_size_field(payload_len: int) -> u32 {
    (((payload_len + 4 + 7) / 8) * 8) as u32
}

/// The bytes of a record as they are laid into the ring, padding excluded.
pub open spec fn record_bytes(payload: Seq<u8>, event_type: u32) -> Seq<u8> {
    let size = record_len(payload.len() as int, event_type);
    u32_le_bytes(event_type) + seq![0u8, 0u8] + seq![
        (size % 256) as u8,
        ((size / 256) % 256) as u8,
    ] + if event_type == PERF_RECORD_SAMPLE {
        u32_le_bytes(sample_size_field(payload.len() as int))
    } else {
        Seq::<u8>::empty()
    } + payload
}

/// `data` with `rec` stored from position `start` on, wrapping at its end.
pub open spec fn ring_store(data: Seq<u8>, start: int, rec: Seq<u8>) -> Seq<u8> {
    Seq::new(
        data.len(),
        |j: int|
            {
                let k = (j - start) % (data.len() as int);
                if k < rec.len() {
                    rec[k]
                } else {
                    data[j]
                }
            },
    )
}

/// Why a write of `payload_len` bytes fails on state `s`, if it does.
pub open spec fn write_error(s: RingState, payload_len: int, event_type: u32) -> Option<
    PerfRingError,
> {
    let size = record_len(payload_len, event_type);
    if payload_len == 0 {
        Some(PerfRingError::EmptyWrite)
    } else if size > s.len() || size > u16::MAX {
        Some(PerfRingError::CannotFit)
    } else if s.write_pos + size - s.write_base > s.len() || s.write_pos + size > u64::MAX {
        Some(PerfRingError::NoSpace)
    } else {
        None
    }
}

/// The state after a successful write.
pub open spec fn state_after_write(s: RingState, payload: Seq<u8>, event_type: u32) -> RingState {
    RingState {
        data: ring_store(s.data, s.write_pos, record_bytes(payload, event_type)),
        write_pos: s.write_pos + record_len(payload.len() as int, event_type),
        ..s
    }
}

/// The offset in the data region at which a record's payload starts.
pub open spec fn payload_offset(s: RingState, event_type: u32) -> int {
    (s.write_pos + HEADER_SIZE + if event_type == PERF_RECORD_SAMPLE {
        4int
    } else {
        0int
    }) % s.len()
}

/// `(j - start) % n` is `k` exactly when position `start + k` lands on `j`.
proof fn lemma_ring_offset(j: int, start: int, k: int, n: int)
    requires
        0 < n,
        0 <= j < n,
        0 <= k < n,
    ensures
        ((j - start) % n == k) <==> ((start + k) % n == j),
{
    lemma_small_mod(k as nat, n as nat);
    lemma_small_mod(j as nat, n as nat);
    lemma_mod_equivalence(j - start, k, n);
    lemma_mod_equivalence(start + k, j, n);
    lemma_mod_equivalence(0, j - start - k, n);
    assert(0int % n == 0);
    assert((0 - (j - start - k)) == (start + k) - j);
}

/// Storing bytes one after another builds up `ring_store`.
proof fn lemma_store_step(data: Seq<u8>, cur: Seq<u8>, start: int, rec: Seq<u8>, k: int)
    requires
        data.len() > 0,
        rec.len() <= data.len(),
        0 <= k < rec.len(),
        cur == ring_store(data, start, rec.take(k)),
    ensures
        cur.update((start + k) % (data.len() as int), rec[k]) == ring_store(
            data,
            start,
            rec.take(k + 1),
        ),
{
    let n = data.len() as int;
    let p = (start + k) % n;
    let lhs = cur.update(p, rec[k]);
    let rhs = ring_store(data, start, rec.take(k + 1));
    assert forall|j: int| 0 <= j < n implies lhs[j] == rhs[j] by {
        lemma_ring_offset(j, start, k, n);
    }
    assert(lhs =~= rhs);
}

/// A single-producer, single-consumer ring of records over a data region
/// whose length is a power of two. The producer and the consumer each keep a
/// local position and publish it through the metadata fields at the end of a
/// batch.
pub struct PerfRing {
    data: Vec<u8>,
    data_start: usize,
    buf_mask: u64,
    meta_head: u64,
    meta_tail: u64,
    read_pos: u64,
    read_end: u64,
    write_pos: u64,
    write_base: u64,
}

impl View for PerfRing {
    type V = RingState;

    closed spec fn view(&self) -> RingState {
        RingState {
            data: self.data@,
            head: self.meta_head as int,
            tail: self.meta_tail as int,
            read_pos: self.read_pos as int,
            read_end: self.read_end as int,
            write_pos: self.write_pos as int,
            write_base: self.write_base as int,
        }
    }
}

/// The length of the data region that `n_pages` pages of `page_size` bytes make.
pub open spec fn region_len(n_pages: u32, page_size: u64) -> int {
    n_pages as int * page_size as int
}

/// The region length is one that a ring accepts.
pub open spec fn region_len_ok(n_pages: u32, page_size: u64) -> bool {
    let len = region_len(n_pages, page_size);
    &&& 8 <= len <= MAX_DATA_LEN
    &&& (len as u64) & ((len - 1) as u64) == 0
}

/// Where the data region starts: `data_offset`, or the page after the
/// metadata page when `data_offset` is zero.
pub open spec fn region_start(data: Seq<u8>, page_size: u64) -> int {
    let off = le_u64_at(data, META_DATA_OFFSET as int);
    if off == 0 {
        page_size as int
    } else {
        off as int
    }
}

/// The buffer holds the metadata page and the data region, and its
/// published positions are consistent with the region's length.
pub open spec fn layout_ok(data: Seq<u8>, n_pages: u32, page_size: u64) -> bool {
    let len = region_len(n_pages, page_size);
    let head = le_u64_at(data, META_DATA_HEAD as int) as int;
    let tail = le_u64_at(data, META_DATA_TAIL as int) as int;
    &&& region_len_ok(n_pages, page_size)
    &&& data.len() >= META_PAGE_SIZE
    &&& region_start(data, page_size) + len <= data.len()
    &&& tail <= head <= tail + len
}

impl PerfRing {
    pub closed spec fn inv(&self) -> bool {
        &&& self@.valid()
        &&& self.buf_mask == self.data@.len() - 1
    }

    /// Where the data region starts in the shared buffer.
    pub closed spec fn spec_data_start(&self) -> int {
        self.data_start as int
    }

    /// A well-formed ring is in a valid state.
    pub proof fn lemma_inv_valid(&self)
        requires
            self.inv(),
        ensures
            self@.valid(),
    {
    }

    /// Builds a ring over a buffer that holds the metadata page followed by
    /// the data region of `n_pages` pages of `page_size` bytes.
    pub fn init_contiguous(data: &[u8], n_pages: u32, page_size: u64) -> (r: Result<
        PerfRing,
        PerfRingError,
    >)
        ensures
            data@.len() == 0 <==> r == Err::<PerfRing, PerfRingError>(PerfRingError::NilBuffer),
            data@.len() > 0 && !layout_ok(data@, n_pages, page_size) <==> r == Err::<
                PerfRing,
                PerfRingError,
            >(PerfRingError::InvalidBufferLength),
            r matches Ok(ring) ==> {
                let start = region_start(data@, page_size);
                let len = region_len(n_pages, page_size);
                let head = le_u64_at(data@, META_DATA_HEAD as int) as int;
                let tail = le_u64_at(data@, META_DATA_TAIL as int) as int;
                &&& ring.inv()
                &&& ring.spec_data_start() == start
                &&& ring@.data == data@.subrange(start, start + len)
                &&& ring@.head == head && ring@.write_pos == head && ring@.read_end == head
                &&& ring@.tail == tail && ring@.read_pos == tail && ring@.write_base == tail
            },
    {
        if data.len() == 0 {
            return Err(PerfRingError::NilBuffer);
        }
        proof {
            let a = n_pages as int;
            let b = page_size as int;
            assert(a * b <= 0xffff_ffff * 0xffff_ffff_ffff_ffff) by (nonlinear_arith)
                requires
                    0 <= a <= 0xffff_ffff,
                    0 <= b <= 0xffff_ffff_ffff_ffff,
            ;
        }
        let buf_len_wide: u128 = n_pages as u128 * page_size as u128;
        if buf_len_wide < 8 || buf_len_wide > MAX_DATA_LEN as u128 {
            return Err(PerfRingError::InvalidBufferLength);
        }
        let buf_len: u64 = buf_len_wide as u64;
        let mask: u64 = buf_len - 1;
        if (buf_len & mask) != 0 {
            return Err(PerfRingError::InvalidBufferLength);
        }
        if data.len() < META_PAGE_SIZE {
            return Err(PerfRingError::InvalidBufferLength);
        }
        let meta = PerfEventMmapPage::from_bytes(data);
        let data_start: u64 = if meta.data_offset == 0 {
            page_size
        } else {
            meta.data_offset
        };
        if data_start as u128 + buf_len as u128 > data.len() as u128 {
            return Err(PerfRingError::InvalidBufferLength);
        }
        if meta.data_tail > meta.data_head || meta.data_head - meta.data_tail > buf_len {
            return Err(PerfRingError::InvalidBufferLength);
        }
        proof {
            assert(buf_len % 8 == 0) by (bit_vector)
                requires
                    buf_len >= 8,
                    buf_len & mask == 0,
                    mask == buf_len - 1,
            ;
        }
        let start = data_start as usize;
        let end = start + buf_len as usize;
        let mut region: Vec<u8> = Vec::with_capacity(buf_len as usize);
        let mut i = start;
        while i < end
            invariant
                start <= i <= end <= data@.len(),
                region@ == data@.subrange(start as int, i as int),
            decreases end - i,
        {
            region.push(data[i]);
            i = i + 1;
            assert(region@ =~= data@.subrange(start as int, i as int));
        }
        Ok(
            PerfRing {
                data: region,
                data_start: start,
                buf_mask: buf_len - 1,
                meta_head: meta.data_head,
                meta_tail: meta.data_tail,
                read_pos: meta.data_tail,
                read_end: meta.data_head,
                write_pos: meta.data_head,
                write_base: meta.data_tail,
            },
        )
    }
}


impl PerfRing {
    /// The byte at position `base + delta`.
    fn byte_at(&self, base: u64, delta: u64) -> (r: u8)
        requires
            self.inv(),
            delta <= 0x10_0000,
        ensures
            r == self@.byte_at(base + delta),
    {
        let len = self.data.len() as u64;
        let idx = ((base % len) + delta) % len;
        proof {
            lemma_add_mod_noop_right(delta as int, base as int, len as int);
        }
        self.data[idx as usize]
    }

    /// Begins a write batch: takes a snapshot of the consumer's position.
    pub fn start_write_batch(&mut self)
        requires
            old(self).inv(),
        ensures
            final(self).inv(),
            final(self)@ == (RingState { write_base: old(self)@.tail, ..old(self)@ }),
    {
        self.write_base = self.meta_tail;
    }

    /// Writes one record whose payload is `data`. A sample's payload is
    /// preceded by a 32-bit size field. Returns the offset in the data region
    /// at which the payload starts.
    pub fn write(&mut self, data: &[u8], event_type: u32) -> (r: Result<usize, PerfRingError>)
        requires
            old(self).inv(),
        ensures
            final(self).inv(),
            match write_error(old(self)@, data@.len() as int, event_type) {
                Some(e) => r == Err::<usize, PerfRingError>(e) && final(self)@ == old(self)@,
                None => r == Ok::<usize, PerfRingError>(payload_offset(old(self)@, event_type) as usize)
                    && final(self)@ == state_after_write(old(self)@, data@, event_type),
            },
    {
        if data.len() == 0 {
            return Err(PerfRingError::EmptyWrite);
        }
        let len = self.data.len() as u64;
        if data.len() as u64 > len {
            return Err(PerfRingError::CannotFit);
        }
        let extra: u64 = if event_type == PERF_RECORD_SAMPLE {
            4
        } else {
            0
        };
        let unaligned: u64 = data.len() as u64 + HEADER_SIZE + extra;
        let aligned: u64 = (unaligned + 7) / 8 * 8;
        if aligned > len || aligned > 0xffff {
            return Err(PerfRingError::CannotFit);
        }
        if self.write_pos > u64::MAX - aligned {
            return Err(PerfRingError::NoSpace);
        }
        if self.write_pos + aligned - self.write_base > len {
            return Err(PerfRingError::NoSpace);
        }
        let mut rec: Vec<u8> = Vec::with_capacity(aligned as usize);
        push_u32_le(&mut rec, event_type);
        rec.push(0);
        rec.push(0);
        rec.push((aligned % 256) as u8);
        rec.push(((aligned / 256) % 256) as u8);
        if event_type == PERF_RECORD_SAMPLE {
            let size_value: u32 = ((data.len() as u64 + 4 + 7) / 8 * 8) as u32;
            push_u32_le(&mut rec, size_value);
        }
        let ghost prefix = rec@;
        let mut i: usize = 0;
        while i < data.len()
            invariant
                i <= data@.len(),
                rec@ == prefix + data@.take(i as int),
            decreases data@.len() - i,
        {
            rec.push(data[i]);
            i = i + 1;
            assert(rec@ =~= prefix + data@.take(i as int));
        }
        assert(data@.take(data@.len() as int) =~= data@);
        assert(rec@ =~= record_bytes(data@, event_type));
        assert(aligned as int == record_len(data@.len() as int, event_type));
        assert(rec@.len() <= aligned);
        let start = self.write_pos;
        let ghost old_data = self.data@;
        assert(ring_store(old_data, start as int, rec@.take(0)) =~= old_data);
        let mut k: usize = 0;
        while k < rec.len()
            invariant
                self.data@.len() == len,
                8 <= len <= MAX_DATA_LEN,
                rec@.len() <= len,
                k <= rec@.len(),
                self.data@ == ring_store(old_data, start as int, rec@.take(k as int)),
                old_data.len() == len,
                self.buf_mask == old(self).buf_mask,
                self.meta_head == old(self).meta_head,
                self.meta_tail == old(self).meta_tail,
                self.read_pos == old(self).read_pos,
                self.read_end == old(self).read_end,
                self.write_pos == old(self).write_pos,
                self.write_base == old(self).write_base,
            decreases rec@.len() - k,
        {
            let idx = ((start % len) + k as u64) % len;
            proof {
                lemma_add_mod_noop_right(k as int, start as int, len as int);
                lemma_store_step(old_data, self.data@, start as int, rec@, k as int);
            }
            self.data.set(idx as usize, rec[k]);
            k = k + 1;
        }
        assert(rec@.take(rec@.len() as int) =~= rec@);
        let payload_pos = ((start % len) + HEADER_SIZE + extra) % len;
        proof {
            lemma_add_mod_noop_right((HEADER_SIZE + extra) as int, start as int, len as int);
        }
        self.write_pos = start + aligned;
        Ok(payload_pos as usize)
    }

    /// Ends a write batch: publishes the producer's position.
    pub fn finish_write_batch(&mut self)
        requires
            old(self).inv(),
        ensures
            final(self).inv(),
            final(self)@ == (RingState { head: old(self)@.write_pos, ..old(self)@ }),
    {
        self.meta_head = self.write_pos;
    }

    /// Begins a read batch: takes a snapshot of the producer's position.
    pub fn start_read_batch(&mut self)
        requires
            old(self).inv(),
        ensures
            final(self).inv(),
            final(self)@ == (RingState { read_end: old(self)@.head, ..old(self)@ }),
    {
        self.read_end = self.meta_head;
    }

    /// Payload size of the record at the read position (its size less the header).
    pub fn peek_size(&self) -> (r: Result<usize, PerfRingError>)
        requires
            self.inv(),
        ensures
            self@.is_empty() ==> r == Err::<usize, PerfRingError>(PerfRingError::BufferEmpty),
            !self@.is_empty() ==> r == Ok::<usize, PerfRingError>(
                self@.head_payload_size() as usize,
            ),
    {
        if self.read_pos == self.read_end {
            return Err(PerfRingError::BufferEmpty);
        }
        let size = self.head_size();
        if size >= 8 {
            Ok((size - 8) as usize)
        } else {
            Ok(0)
        }
    }

    fn head_size(&self) -> (r: u16)
        requires
            self.inv(),
        ensures
            r == self@.head_size(),
    {
        let b6 = self.byte_at(self.read_pos, 6);
        let b7 = self.byte_at(self.read_pos, 7);
        (b6 as u16) | ((b7 as u16) << 8u16)
    }

    /// The header of the record at the read position.
    pub fn peek_header(&self) -> (r: PerfEventHeader)
        requires
            self.inv(),
        ensures
            r.type_ == self@.head_type(),
            r.misc == le_u16(self@.byte_at(self@.read_pos + 4), self@.byte_at(self@.read_pos + 5)),
            r.size == self@.head_size(),
    {
        let b4 = self.byte_at(self.read_pos, 4);
        let b5 = self.byte_at(self.read_pos, 5);
        PerfEventHeader {
            type_: self.peek_type(),
            misc: (b4 as u16) | ((b5 as u16) << 8u16),
            size: self.head_size(),
        }
    }

    /// Type of the record at the read position.
    pub fn peek_type(&self) -> (r: u32)
        requires
            self.inv(),
        ensures
            r == self@.head_type(),
    {
        let b0 = self.byte_at(self.read_pos, 0);
        let b1 = self.byte_at(self.read_pos, 1);
        let b2 = self.byte_at(self.read_pos, 2);
        let b3 = self.byte_at(self.read_pos, 3);
        (b0 as u32) | ((b1 as u32) << 8u32) | ((b2 as u32) << 16u32) | ((b3 as u32) << 24u32)
    }

    /// Copies `buf.len()` payload bytes of the record at the read position,
    /// starting `offset` bytes after its header, into `buf`. A copy that
    /// crosses the end of the data region continues at its start.
    pub fn peek_copy(&self, buf: &mut Vec<u8>, offset: u16) -> (r: Result<(), PerfRingError>)
        requires
            self.inv(),
        ensures
            final(buf)@.len() == old(buf)@.len(),
            self@.is_empty() ==> r == Err::<(), PerfRingError>(PerfRingError::BufferEmpty)
                && final(buf)@ == old(buf)@,
            !self@.is_empty() && old(buf)@.len() > self@.head_payload_size() ==> r == Err::<
                (),
                PerfRingError,
            >(PerfRingError::SizeExceeded) && final(buf)@ == old(buf)@,
            !self@.is_empty() && old(buf)@.len() <= self@.head_payload_size() ==> r == Ok::<
                (),
                PerfRingError,
            >(()) && final(buf)@ == self@.head_payload(offset as int, old(buf)@.len() as int),
    {
        let size = self.peek_size();
        match size {
            Err(e) => {
                return Err(e);
            },
            Ok(size) => {
                if buf.len() > size {
                    return Err(PerfRingError::SizeExceeded);
                }
            },
        }
        let n = buf.len();
        let ghost target = self@.head_payload(offset as int, n as int);
        let mut i: usize = 0;
        while i < n
            invariant
                self.inv(),
                n == buf@.len(),
                n <= 0xffff,
                i <= n,
                target == self@.head_payload(offset as int, n as int),
                forall|j: int| 0 <= j < i ==> buf@[j] == target[j],
            decreases n - i,
        {
            let b = self.byte_at(self.read_pos, HEADER_SIZE + offset as u64 + i as u64);
            buf.set(i, b);
            i = i + 1;
        }
        assert(buf@ =~= target);
        Ok(())
    }

    /// Consumes the record at the read position. Only the local position
    /// moves; the consumer's position is published by `finish_read_batch`.
    pub fn pop(&mut self) -> (r: Result<(), PerfRingError>)
        requires
            old(self).inv(),
        ensures
            final(self).inv(),
            old(self)@.is_empty() ==> r == Err::<(), PerfRingError>(PerfRingError::BufferEmpty)
                && final(self)@ == old(self)@,
            !old(self)@.is_empty() ==> r == Ok::<(), PerfRingError>(()) && final(self)@ == (
            RingState { read_pos: old(self)@.next_read_pos(), ..old(self)@ }),
    {
        if self.read_pos == self.read_end {
            return Err(PerfRingError::BufferEmpty);
        }
        let size = self.head_size() as u64;
        if 8 <= size && size <= self.read_end - self.read_pos {
            self.read_pos = self.read_pos + size;
        } else {
            self.read_pos = self.read_end;
        }
        Ok(())
    }

    /// Takes in what a producer outside this process published: `shared` is
    /// the buffer the ring was built over, as it is now. Its `data_head` and
    /// its data region replace the ring's. Refused, with nothing changed,
    /// when the buffer is too short, or when the head went back or got more
    /// than one ring length ahead of the consumer's published position.
    pub fn sync_from_shared(&mut self, shared: &[u8]) -> (r: Result<(), PerfRingError>)
        requires
            old(self).inv(),
        ensures
            final(self).inv(),
            final(self).spec_data_start() == old(self).spec_data_start(),
            ({
                let start = old(self).spec_data_start();
                let len = old(self)@.len();
                let ok = shared@.len() >= META_PAGE_SIZE && start + len <= shared@.len() && {
                    let h = le_u64_at(shared@, META_DATA_HEAD as int) as int;
                    old(self)@.head <= h <= old(self)@.tail + len
                };
                &&& !ok ==> r == Err::<(), PerfRingError>(PerfRingError::InvalidBufferLength)
                    && final(self)@ == old(self)@
                &&& ok ==> r == Ok::<(), PerfRingError>(()) && final(self)@ == (RingState {
                    data: shared@.subrange(start, start + len),
                    head: le_u64_at(shared@, META_DATA_HEAD as int) as int,
                    write_pos: le_u64_at(shared@, META_DATA_HEAD as int) as int,
                    write_base: old(self)@.tail,
                    ..old(self)@
                })
            }),
    {
        let len = self.data.len();
        if shared.len() < META_PAGE_SIZE || self.data_start > shared.len() || shared.len()
            - self.data_start < len {
            return Err(PerfRingError::InvalidBufferLength);
        }
        let head = read_u64_le(shared, META_DATA_HEAD);
        if head < self.meta_head || head - self.meta_tail > len as u64 {
            return Err(PerfRingError::InvalidBufferLength);
        }
        let start = self.data_start;
        let sl = shared.len();
        let mut i: usize = 0;
        while i < len
            invariant
                len == self.data@.len(),
                sl == shared@.len(),
                start + len <= shared@.len(),
                start == self.data_start,
                i <= len,
                self.buf_mask == old(self).buf_mask,
                self.meta_head == old(self).meta_head,
                self.meta_tail == old(self).meta_tail,
                self.read_pos == old(self).read_pos,
                self.read_end == old(self).read_end,
                self.write_pos == old(self).write_pos,
                self.write_base == old(self).write_base,
                forall|k: int| 0 <= k < i ==> self.data@[k] == shared@[start + k],
            decreases len - i,
        {
            self.data.set(i, shared[start + i]);
            i = i + 1;
        }
        assert(self.data@ =~= shared@.subrange(start as int, start + len));
        self.meta_head = head;
        self.write_pos = head;
        self.write_base = self.meta_tail;
        Ok(())
    }

    /// The consumer's published position (`data_tail`), which an outside
    /// producer is to see.
    pub fn published_tail(&self) -> (r: u64)
        ensures
            r == self@.tail,
    {
        self.meta_tail
    }

    /// Ends a read batch: publishes the consumer's position.
    pub fn finish_read_batch(&mut self)
        requires
            old(self).inv(),
        ensures
            final(self).inv(),
            final(self)@ == (RingState { tail: old(self)@.read_pos, ..old(self)@ }),
    {
        self.meta_tail = self.read_pos;
    }

    /// Number of unread bytes of the batch: from the read position to the
    /// snapshot of the producer's position. A full ring reports its length.
    pub fn bytes_remaining(&self) -> (r: u32)
        requires
            self.inv(),
        ensures
            r as int == self@.read_end - self@.read_pos,
    {
        (self.read_end - self.read_pos) as u32
    }
}


/// The bytes that `record_bytes` puts at offset `k` of the ring after `start`.
proof fn lemma_stored_byte(data: Seq<u8>, start: int, rec: Seq<u8>, k: int)
    requires
        data.len() > 0,
        rec.len() <= data.len(),
        0 <= k < rec.len(),
    ensures
        ring_store(data, start, rec)[(start + k) % (data.len() as int)] == rec[k],
{
    let n = data.len() as int;
    let j = (start + k) % n;
    lemma_ring_offset(j, start, k, n);
}

proof fn lemma_u32_bytes_round_trip(v: u32)
    ensures
        le_u32_at(u32_le_bytes(v), 0) == v,
{
    let b = u32_le_bytes(v);
    let b0 = (v & 0xff) as u8;
    let b1 = ((v >> 8u32) & 0xff) as u8;
    let b2 = ((v >> 16u32) & 0xff) as u8;
    let b3 = ((v >> 24u32) & 0xff) as u8;
    assert(b[0] == b0 && b[1] == b1 && b[2] == b2 && b[3] == b3);
    assert((b0 as u32) | ((b1 as u32) << 8u32) | ((b2 as u32) << 16u32) | ((b3 as u32) << 24u32)
        == v) by (bit_vector)
        requires
            b0 == (v & 0xffu32) as u8,
            b1 == ((v >> 8u32) & 0xffu32) as u8,
            b2 == ((v >> 16u32) & 0xffu32) as u8,
            b3 == ((v >> 24u32) & 0xffu32) as u8,
    ;
}

proof fn lemma_u16_bytes_round_trip(size: int)
    requires
        0 <= size <= 0xffff,
    ensures
        le_u16((size % 256) as u8, ((size / 256) % 256) as u8) == size,
{
    let x = size as u16;
    let lo = (size % 256) as u8;
    let hi = ((size / 256) % 256) as u8;
    assert(lo == (x % 256u16) as u8 && hi == ((x / 256u16) % 256u16) as u8);
    assert((((x % 256u16) as u8) as u16) | (((((x / 256u16) % 256u16) as u8) as u16) << 8u16) == x)
        by (bit_vector);
}

/// Where the parts of a record lie in `record_bytes`.
proof fn lemma_record_layout(payload: Seq<u8>, event_type: u32)
    ensures
        ({
            let rec = record_bytes(payload, event_type);
            let size = record_len(payload.len() as int, event_type);
            let off: int = if event_type == PERF_RECORD_SAMPLE {
                4
            } else {
                0
            };
            &&& rec.len() == 8 + off + payload.len()
            &&& rec.subrange(0, 4) == u32_le_bytes(event_type)
            &&& rec[6] == (size % 256) as u8
            &&& rec[7] == ((size / 256) % 256) as u8
            &&& forall|i: int| 0 <= i < payload.len() ==> rec[8 + off + i] == payload[i]
        }),
{
    let rec = record_bytes(payload, event_type);
    let size = record_len(payload.len() as int, event_type);
    let a = u32_le_bytes(event_type) + seq![0u8, 0u8] + seq![
        (size % 256) as u8,
        ((size / 256) % 256) as u8,
    ];
    let b = if event_type == PERF_RECORD_SAMPLE {
        u32_le_bytes(sample_size_field(payload.len() as int))
    } else {
        Seq::<u8>::empty()
    };
    assert(rec == a + b + payload);
    assert(a.len() == 8);
    assert((a + b).subrange(0, 4) =~= u32_le_bytes(event_type));
    assert(rec.subrange(0, 4) =~= u32_le_bytes(event_type));
}

/// Ring round trip: on a ring whose reader has consumed everything and whose
/// writer has seen that, a record written, published, and read back has the
/// written type, and its payload (after the sample size field, for a sample)
/// is the written payload, byte for byte, also when it wraps the end of the
/// data region. Consuming it leaves the ring empty. Payloads whose record
/// would not fit the 16-bit size field of the header are left out.
pub proof fn lemma_round_trip(s: RingState, payload: Seq<u8>, event_type: u32)
    requires
        s.valid(),
        s.read_pos == s.read_end == s.head == s.write_pos,
        s.write_base == s.write_pos,
        1 <= payload.len() <= s.len() - 1 - HEADER_SIZE - 4,
        record_len(payload.len() as int, event_type) <= u16::MAX,
        s.write_pos + record_len(payload.len() as int, event_type) <= u64::MAX,
    ensures
        write_error(s, payload.len() as int, event_type) == None::<PerfRingError>,
        ({
            let w = state_after_write(s, payload, event_type);
            let published = RingState { head: w.write_pos, ..w };
            let r = RingState { read_end: published.head, ..published };
            let off: int = if event_type == PERF_RECORD_SAMPLE {
                4
            } else {
                0
            };
            &&& r.valid()
            &&& !r.is_empty()
            &&& r.head_type() == event_type
            &&& r.head_payload_size() >= off + payload.len()
            &&& r.head_payload(off, payload.len() as int) == payload
            &&& (RingState { read_pos: r.next_read_pos(), ..r }).is_empty()
        }),
{
    let size = record_len(payload.len() as int, event_type);
    let rec = record_bytes(payload, event_type);
    let n = s.len();
    let off: int = if event_type == PERF_RECORD_SAMPLE {
        4
    } else {
        0
    };
    assert(size <= n) by {
        assert(n % 8 == 0);
        assert(payload.len() + HEADER_SIZE + off <= n);
    }
    lemma_record_layout(payload, event_type);
    let w = state_after_write(s, payload, event_type);
    let published = RingState { head: w.write_pos, ..w };
    let r = RingState { read_end: published.head, ..published };
    let start = s.write_pos;
    assert(r.data == ring_store(s.data, start, rec));
    assert forall|k: int| 0 <= k < rec.len() implies #[trigger] r.byte_at(start + k) == rec[k] by {
        lemma_stored_byte(s.data, start, rec, k);
    }
    lemma_u32_bytes_round_trip(event_type);
    assert(r.bytes_at(start, 4) =~= u32_le_bytes(event_type)) by {
        assert forall|k: int| 0 <= k < 4 implies r.bytes_at(start, 4)[k] == u32_le_bytes(
            event_type,
        )[k] by {
            assert(r.byte_at(start + k) == rec[k]);
            assert(rec.subrange(0, 4)[k] == rec[k]);
        }
    }
    assert(r.byte_at(start + 6) == rec[6]);
    assert(r.byte_at(start + 7) == rec[7]);
    lemma_u16_bytes_round_trip(size);
    assert(r.head_size() == size);
    assert(r.head_payload(off, payload.len() as int) =~= payload) by {
        assert forall|i: int| 0 <= i < payload.len() implies r.head_payload(
            off,
            payload.len() as int,
        )[i] == payload[i] by {
            assert(start + HEADER_SIZE + off + i == start + (8 + off + i));
            assert(r.byte_at(start + (8 + off + i)) == rec[8 + off + i]);
        }
    }
}

} // verus!
