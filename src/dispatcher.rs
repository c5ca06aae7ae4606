use vstd::prelude::*;
use crate::bytes::le_u32_at;
use crate::messages::SAMPLE_HEADER_SIZE;
use crate::reader::{Reader, ReaderError, ReaderView};
use crate::ring::{PerfRingError, RingState, PERF_RECORD_LOST, PERF_RECORD_SAMPLE};

verus! {

/// Errors that can occur during dispatch.
#[derive(Debug, Clone, PartialEq, Eq)]
pub enum DispatchError {
    ReaderError(ReaderError),
    RingError(PerfRingError),
    /// A sample too short to hold its header. The record was consumed.
    InvalidFormat(String),
}

/// Dispatch statistics.
#[derive(Debug, Default, Clone, Copy, PartialEq, Eq, Structural)]
pub struct Stats {
    /// Number of samples handed to subscribers
    pub samples_processed: usize,
    /// Number of lost-records notifications handed to subscribers
    pub lost_events_processed: usize,
    /// Number of errors that subscribers reported
    pub callback_errors: usize,
    /// Number of records that no subscriber took
    pub dropped_messages: usize,
}

/// A record to hand to subscribers: the ring it came from, its type, its
/// payload, and the subscribers that take it, in the order they subscribed.
pub struct Delivery {
    pub ring_index: usize,
    pub record_type: u32,
    pub data: Vec<u8>,
    pub subscribers: Vec<usize>,
}

/// The subscribers to samples of `kind`, in the order they subscribed.
pub open spec fn subscribers_of(s: Seq<(u32, usize)>, kind: u32) -> Seq<usize>
    decreases s.len(),
{
    if s.len() == 0 {
        Seq::empty()
    } else {
        let rest = subscribers_of(s.drop_last(), kind);
        if s.last().0 == kind {
            rest.push(s.last().1)
        } else {
            rest
        }
    }
}

/// One more than `n`, stopping at the largest `usize`.
pub open spec fn bump(n: usize) -> usize {
    if n < usize::MAX {
        (n + 1) as usize
    } else {
        n
    }
}

fn inc(n: usize) -> (r: usize)
    ensures
        r == bump(n),
{
    if n < usize::MAX {
        n + 1
    } else {
        n
    }
}

/// Bytes that the rings of a batch still hold.
pub open spec fn pending_bytes(rings: Seq<RingState>) -> int
    decreases rings.len(),
{
    if rings.len() == 0 {
        0
    } else {
        pending_bytes(rings.drop_last()) + (rings.last().read_end - rings.last().read_pos)
    }
}

proof fn lemma_pending_update(rings: Seq<RingState>, i: int, r: RingState)
    requires
        0 <= i < rings.len(),
        r.read_end - r.read_pos < rings[i].read_end - rings[i].read_pos,
    ensures
        pending_bytes(rings.update(i, r)) < pending_bytes(rings),
    decreases rings.len(),
{
    let u = rings.update(i, r);
    if i == rings.len() - 1 {
        assert(u.drop_last() =~= rings.drop_last());
    } else {
        assert(u.drop_last() =~= rings.drop_last().update(i, r));
        lemma_pending_update(rings.drop_last(), i, r);
    }
}

proof fn lemma_pending_nonneg(rings: Seq<RingState>)
    requires
        forall|i: int| 0 <= i < rings.len() ==> (#[trigger] rings[i]).valid(),
    ensures
        pending_bytes(rings) >= 0,
    decreases rings.len(),
{
    if rings.len() > 0 {
        assert(rings.last().valid());
        lemma_pending_nonneg(rings.drop_last());
    }
}

/// The reader after its next record, from ring `i`, is consumed.
pub open spec fn popped(v: ReaderView, i: int) -> Seq<RingState> {
    v.rings.update(i, RingState { read_pos: v.rings[i].next_read_pos(), ..v.rings[i] })
}

/// A delivery as values.
pub struct DeliveryView {
    pub ring_index: usize,
    pub record_type: u32,
    pub data: Seq<u8>,
    pub subscribers: Seq<usize>,
}

impl Delivery {
    pub open spec fn value(&self) -> DeliveryView {
        DeliveryView {
            ring_index: self.ring_index,
            record_type: self.record_type,
            data: self.data@,
            subscribers: self.subscribers@,
        }
    }
}

/// The ring that holds the next record of `v`.
pub open spec fn next_ring(v: ReaderView) -> int {
    choose|i: int| v.is_next(i)
}

/// At most one ring holds the next record.
proof fn lemma_next_unique(v: ReaderView, i: int, j: int)
    requires
        v.is_next(i),
        v.is_next(j),
    ensures
        i == j,
{
    assert(!v.rings[j].is_empty());
    assert(!v.rings[i].is_empty());
}

/// The reader after its next record is consumed.
pub open spec fn after_pop(v: ReaderView) -> ReaderView {
    ReaderView { rings: popped(v, next_ring(v)), ..v }
}

/// What dispatching the next record of `v` gives: the delivery, or `None`
/// for a sample too short to hold its header; and the new statistics.
pub open spec fn dispatch_step(
    v: ReaderView,
    subs: Seq<(u32, usize)>,
    lost: Seq<usize>,
    st: Stats,
) -> (Option<DeliveryView>, Stats) {
    let i = next_ring(v);
    let ring = v.rings[i];
    let data = ring.head_payload(0, ring.head_payload_size());
    if ring.head_type() == PERF_RECORD_SAMPLE {
        if data.len() < SAMPLE_HEADER_SIZE {
            (None, Stats { dropped_messages: bump(st.dropped_messages), ..st })
        } else {
            let s = subscribers_of(subs, le_u32_at(data, 4));
            (
                Some(
                    DeliveryView {
                        ring_index: i as usize,
                        record_type: PERF_RECORD_SAMPLE,
                        data,
                        subscribers: s,
                    },
                ),
                if s.len() > 0 {
                    Stats { samples_processed: bump(st.samples_processed), ..st }
                } else {
                    Stats { dropped_messages: bump(st.dropped_messages), ..st }
                },
            )
        }
    } else if ring.head_type() == PERF_RECORD_LOST {
        (
            Some(
                DeliveryView {
                    ring_index: i as usize,
                    record_type: PERF_RECORD_LOST,
                    data,
                    subscribers: lost,
                },
            ),
            Stats { lost_events_processed: bump(st.lost_events_processed), ..st },
        )
    } else {
        (
            Some(
                DeliveryView {
                    ring_index: i as usize,
                    record_type: ring.head_type(),
                    data,
                    subscribers: Seq::empty(),
                },
            ),
            Stats { dropped_messages: bump(st.dropped_messages), ..st },
        )
    }
}

/// Dispatching a whole batch, one record after another in merged order:
/// the deliveries, the reader and the statistics at the end, and whether the
/// batch was drained (`false` when it stopped at a sample too short to hold
/// its header, which is consumed). `fuel` bounds the steps; the bytes still
/// pending are enough.
pub open spec fn dispatch_run(
    v: ReaderView,
    subs: Seq<(u32, usize)>,
    lost: Seq<usize>,
    st: Stats,
    fuel: nat,
) -> (Seq<DeliveryView>, ReaderView, Stats, bool)
    decreases fuel,
{
    if !v.active || v.all_empty() {
        (Seq::empty(), v, st, true)
    } else {
        let (d, st1) = dispatch_step(v, subs, lost, st);
        let v1 = after_pop(v);
        match d {
            None => (Seq::empty(), v1, st1, false),
            Some(dv) => {
                let p = pending_bytes(v1.rings);
                if 0 <= p < fuel {
                    let (ds, v2, st2, ok) = dispatch_run(v1, subs, lost, st1, p as nat);
                    (seq![dv] + ds, v2, st2, ok)
                } else {
                    (seq![dv], v1, st1, false)
                }
            },
        }
    }
}

/// The whole-batch outcome from reader `v` with the dispatcher's state.
pub open spec fn dispatch_all_outcome(
    v: ReaderView,
    subs: Seq<(u32, usize)>,
    lost: Seq<usize>,
    st: Stats,
) -> (Seq<DeliveryView>, ReaderView, Stats, bool) {
    dispatch_run(v, subs, lost, st, pending_bytes(v.rings) as nat)
}

/// Routes records from a reader to subscribers by sample kind; lost-records
/// notifications go to their own subscribers. Subscribers are numbered in the
/// order they subscribe; the caller runs them.
pub struct Dispatcher {
    sample_subscribers: Vec<(u32, usize)>,
    lost_subscribers: Vec<usize>,
    next_id: usize,
    stats: Stats,
}

impl Dispatcher {
    pub closed spec fn sample_subs(&self) -> Seq<(u32, usize)> {
        self.sample_subscribers@
    }

    pub closed spec fn lost_subs(&self) -> Seq<usize> {
        self.lost_subscribers@
    }

    pub closed spec fn spec_stats(&self) -> Stats {
        self.stats
    }

    pub closed spec fn next_id(&self) -> usize {
        self.next_id
    }

    pub fn new() -> (r: Self)
        ensures
            r.sample_subs() == Seq::<(u32, usize)>::empty(),
            r.lost_subs() == Seq::<usize>::empty(),
            r.spec_stats() == (Stats {
                samples_processed: 0,
                lost_events_processed: 0,
                callback_errors: 0,
                dropped_messages: 0,
            }),
            r.next_id() == 0,
    {
        Dispatcher {
            sample_subscribers: Vec::new(),
            lost_subscribers: Vec::new(),
            next_id: 0,
            stats: Stats {
                samples_processed: 0,
                lost_events_processed: 0,
                callback_errors: 0,
                dropped_messages: 0,
            },
        }
    }

    /// The current statistics.
    pub fn stats(&self) -> (r: Stats)
        ensures
            r == self.spec_stats(),
    {
        self.stats
    }

    /// Subscribes to samples of `message_type`; returns the subscriber's
    /// number, or `None` once every number is taken.
    pub fn subscribe(&mut self, message_type: u32) -> (r: Option<usize>)
        ensures
            final(self).lost_subs() == old(self).lost_subs(),
            final(self).spec_stats() == old(self).spec_stats(),
            old(self).next_id() == usize::MAX ==> r is None && final(self).sample_subs() == old(self).sample_subs() && final(self).next_id() == old(self).next_id(),
            old(self).next_id() < usize::MAX ==> r == Some(old(self).next_id()) && final(self).sample_subs() == old(self).sample_subs().push((message_type, old(self).next_id()))
                && final(self).next_id() == old(self).next_id() + 1,
    {
        if self.next_id == usize::MAX {
            return None;
        }
        let id = self.next_id;
        self.sample_subscribers.push((message_type, id));
        self.next_id = id + 1;
        Some(id)
    }

    /// Subscribes to lost-records notifications; returns the subscriber's
    /// number, or `None` once every number is taken.
    pub fn subscribe_lost_samples(&mut self) -> (r: Option<usize>)
        ensures
            final(self).sample_subs() == old(self).sample_subs(),
            final(self).spec_stats() == old(self).spec_stats(),
            old(self).next_id() == usize::MAX ==> r is None && final(self).lost_subs() == old(self).lost_subs() && final(self).next_id() == old(self).next_id(),
            old(self).next_id() < usize::MAX ==> r == Some(old(self).next_id()) && final(self).lost_subs() == old(self).lost_subs().push(old(self).next_id()) && final(self).next_id()
                == old(self).next_id() + 1,
    {
        if self.next_id == usize::MAX {
            return None;
        }
        let id = self.next_id;
        self.lost_subscribers.push(id);
        self.next_id = id + 1;
        Some(id)
    }

    /// Counts an error that a subscriber reported.
    pub fn record_callback_error(&mut self)
        ensures
            final(self).sample_subs() == old(self).sample_subs(),
            final(self).lost_subs() == old(self).lost_subs(),
            final(self).next_id() == old(self).next_id(),
            final(self).spec_stats() == (Stats {
                callback_errors: bump(old(self).spec_stats().callback_errors),
                ..old(self).spec_stats()
            }),
    {
        self.stats.callback_errors = inc(self.stats.callback_errors);
    }

    fn sample_subscribers_of(&self, kind: u32) -> (r: Vec<usize>)
        ensures
            r@ == subscribers_of(self.sample_subscribers@, kind),
    {
        let mut out: Vec<usize> = Vec::new();
        let mut i: usize = 0;
        while i < self.sample_subscribers.len()
            invariant
                i <= self.sample_subscribers@.len(),
                out@ == subscribers_of(self.sample_subscribers@.take(i as int), kind),
            decreases self.sample_subscribers@.len() - i,
        {
            let (k, id) = self.sample_subscribers[i];
            assert(self.sample_subscribers@.take(i + 1).drop_last() =~= self.sample_subscribers@.take(
                i as int,
            ));
            if k == kind {
                out.push(id);
            }
            i = i + 1;
        }
        assert(self.sample_subscribers@.take(i as int) =~= self.sample_subscribers@);
        out
    }

    fn lost_subscriber_list(&self) -> (r: Vec<usize>)
        ensures
            r@ == self.lost_subscribers@,
    {
        let mut out: Vec<usize> = Vec::new();
        let mut i: usize = 0;
        while i < self.lost_subscribers.len()
            invariant
                i <= self.lost_subscribers@.len(),
                out@ == self.lost_subscribers@.take(i as int),
            decreases self.lost_subscribers@.len() - i,
        {
            out.push(self.lost_subscribers[i]);
            i = i + 1;
            assert(out@ =~= self.lost_subscribers@.take(i as int));
        }
        assert(self.lost_subscribers@.take(i as int) =~= self.lost_subscribers@);
        out
    }

    /// Dispatches the records of the batch one after another, in merged
    /// order, until the reader holds none, and returns the deliveries in that
    /// order. It stops with `InvalidFormat` at the first sample too short to
    /// hold its header, which is consumed; see [`dispatch_all_outcome`].
    pub fn dispatch_all(&mut self, reader: &mut Reader) -> (r: Result<Vec<Delivery>, DispatchError>)
        requires
            old(reader).inv(),
        ensures
            final(reader).inv(),
            final(self).sample_subs() == old(self).sample_subs(),
            final(self).lost_subs() == old(self).lost_subs(),
            final(self).next_id() == old(self).next_id(),
            ({
                let o = dispatch_all_outcome(
                    old(reader)@,
                    old(self).sample_subs(),
                    old(self).lost_subs(),
                    old(self).spec_stats(),
                );
                &&& final(reader)@ == o.1
                &&& final(self).spec_stats() == o.2
                &&& o.3 ==> (r matches Ok(v) && v@.len() == o.0.len() && forall|k: int|
                    0 <= k < v@.len() ==> (#[trigger] v@[k]).value() == o.0[k])
                &&& !o.3 ==> (r matches Err(DispatchError::InvalidFormat(_)))
            }),
    {
        let ghost subs = self.sample_subs();
        let ghost lost = self.lost_subs();
        let ghost total = dispatch_all_outcome(reader@, subs, lost, self.spec_stats());
        proof {
            reader.lemma_rings_valid();
            lemma_pending_nonneg(reader@.rings);
        }
        let mut out: Vec<Delivery> = Vec::new();
        while !reader.is_empty()
            invariant
                reader.inv(),
                self.sample_subs() == subs,
                self.lost_subs() == lost,
                subs == old(self).sample_subs(),
                lost == old(self).lost_subs(),
                total == dispatch_all_outcome(
                    old(reader)@,
                    old(self).sample_subs(),
                    old(self).lost_subs(),
                    old(self).spec_stats(),
                ),
                self.next_id() == old(self).next_id(),
                pending_bytes(reader@.rings) >= 0,
                ({
                    let rest = dispatch_all_outcome(reader@, subs, lost, self.spec_stats());
                    &&& total.0.len() == out@.len() + rest.0.len()
                    &&& forall|k: int| 0 <= k < out@.len() ==> (#[trigger] out@[k]).value() == total.0[k]
                    &&& forall|k: int|
                        0 <= k < rest.0.len() ==> #[trigger] rest.0[k] == total.0[out@.len() + k]
                    &&& total.1 == rest.1
                    &&& total.2 == rest.2
                    &&& total.3 == rest.3
                }),
            decreases pending_bytes(reader@.rings),
        {
            let ghost before = reader@;
            let ghost st0 = self.spec_stats();
            let ghost out0 = out@;
            proof {
                reader.lemma_rings_valid();
            }
            let res = self.dispatch(reader);
            proof {
                let i = choose|i: int| #[trigger] before.is_next(i) && reader@.rings == popped(before, i);
                let n = next_ring(before);
                lemma_next_unique(before, i, n);
                lemma_pending_update(
                    before.rings,
                    i,
                    RingState { read_pos: before.rings[i].next_read_pos(), ..before.rings[i] },
                );
                reader.lemma_rings_valid();
                lemma_pending_nonneg(reader@.rings);
                assert(reader@ == after_pop(before));
            }
            match res {
                Ok(Some(d)) => {
                    out.push(d);
                    proof {
                        let rest0 = dispatch_all_outcome(before, subs, lost, st0);
                        let rest1 = dispatch_all_outcome(reader@, subs, lost, self.spec_stats());
                        assert(rest0.0 == seq![d.value()] + rest1.0);
                        assert forall|k: int| 0 <= k < out@.len() implies (#[trigger] out@[k]).value()
                            == total.0[k] by {
                            if k < out0.len() {
                                assert(out@[k] == out0[k]);
                            } else {
                                assert(rest0.0[0] == d.value());
                            }
                        }
                        assert forall|k: int| 0 <= k < rest1.0.len() implies #[trigger] rest1.0[k]
                            == total.0[out@.len() + k] by {
                            assert(rest0.0[k + 1] == rest1.0[k]);
                        }
                    }
                },
                Ok(None) => {},
                Err(e) => {
                    return Err(e);
                },
            }
        }
        proof {
            let rest = dispatch_all_outcome(reader@, subs, lost, self.spec_stats());
            assert(rest.0.len() == 0);
        }
        Ok(out)
    }

    /// Takes the next record from the reader and consumes it. A sample goes
    /// to the subscribers of its kind, a lost-records notification to the
    /// lost-records subscribers; a record that nobody takes is counted as
    /// dropped. Returns `None` when the reader holds no record.
    pub fn dispatch(&mut self, reader: &mut Reader) -> (r: Result<Option<Delivery>, DispatchError>)
        requires
            old(reader).inv(),
        ensures
            final(reader).inv(),
            final(reader)@.active == old(reader)@.active,
            final(reader)@.ts_offset == old(reader)@.ts_offset,
            final(self).sample_subs() == old(self).sample_subs(),
            final(self).lost_subs() == old(self).lost_subs(),
            final(self).next_id() == old(self).next_id(),
            (!old(reader)@.active || old(reader)@.all_empty()) ==> (r matches Ok(None)) && final(reader)@ == old(reader)@ && final(self).spec_stats() == old(self).spec_stats(),
            (old(reader)@.active && !old(reader)@.all_empty()) ==> exists|i: int|
                #![trigger old(reader)@.is_next(i)]
                {
                    let ring = old(reader)@.rings[i];
                    let data = ring.head_payload(0, ring.head_payload_size());
                    let st = old(self).spec_stats();
                    &&& old(reader)@.is_next(i)
                    &&& final(reader)@.rings == popped(old(reader)@, i)
                    &&& if ring.head_type() == PERF_RECORD_SAMPLE {
                        if data.len() < SAMPLE_HEADER_SIZE {
                            (r matches Err(DispatchError::InvalidFormat(_))) && final(self).spec_stats()
                                == (Stats { dropped_messages: bump(st.dropped_messages), ..st })
                        } else {
                            let subs = subscribers_of(old(self).sample_subs(), le_u32_at(data, 4));
                            &&& (r matches Ok(Some(d)) && d.ring_index == i && d.record_type
                                == PERF_RECORD_SAMPLE && d.data@ == data && d.subscribers@ == subs)
                            &&& final(self).spec_stats() == if subs.len() > 0 {
                                Stats { samples_processed: bump(st.samples_processed), ..st }
                            } else {
                                Stats { dropped_messages: bump(st.dropped_messages), ..st }
                            }
                        }
                    } else if ring.head_type() == PERF_RECORD_LOST {
                        &&& (r matches Ok(Some(d)) && d.ring_index == i && d.record_type
                            == PERF_RECORD_LOST && d.data@ == data && d.subscribers@ == old(self).lost_subs())
                        &&& final(self).spec_stats() == (Stats {
                            lost_events_processed: bump(st.lost_events_processed),
                            ..st
                        })
                    } else {
                        &&& (r matches Ok(Some(d)) && d.ring_index == i && d.record_type
                            == ring.head_type() && d.data@ == data && d.subscribers@ == Seq::<usize>::empty())
                        &&& final(self).spec_stats() == (Stats {
                            dropped_messages: bump(st.dropped_messages),
                            ..st
                        })
                    }
                },
    {
        if reader.is_empty() {
            return Ok(None);
        }
        let (record_type, ring_index, data) = match reader.current_ring() {
            Ok((ring, ring_index)) => {
                let size = match ring.peek_size() {
                    Ok(size) => size,
                    Err(e) => {
                        return Err(DispatchError::RingError(e));
                    },
                };
                let mut data: Vec<u8> = vec![0u8; size];
                match ring.peek_copy(&mut data, 0) {
                    Ok(()) => {},
                    Err(e) => {
                        return Err(DispatchError::RingError(e));
                    },
                }
                (ring.peek_type(), ring_index, data)
            },
            Err(e) => {
                return Err(DispatchError::ReaderError(e));
            },
        };
        let subscribers = if record_type == PERF_RECORD_SAMPLE {
            if data.len() < SAMPLE_HEADER_SIZE {
                self.stats.dropped_messages = inc(self.stats.dropped_messages);
                match reader.pop() {
                    Ok(()) => {},
                    Err(e) => {
                        return Err(DispatchError::ReaderError(e));
                    },
                }
                return Err(
                    DispatchError::InvalidFormat(
                        String::from_str("sample too small to hold its kind and timestamp"),
                    ),
                );
            }
            let kind = crate::bytes::read_u32_le(data.as_slice(), 4);
            let subs = self.sample_subscribers_of(kind);
            if subs.len() > 0 {
                self.stats.samples_processed = inc(self.stats.samples_processed);
            } else {
                self.stats.dropped_messages = inc(self.stats.dropped_messages);
            }
            subs
        } else if record_type == PERF_RECORD_LOST {
            self.stats.lost_events_processed = inc(self.stats.lost_events_processed);
            self.lost_subscriber_list()
        } else {
            self.stats.dropped_messages = inc(self.stats.dropped_messages);
            Vec::new()
        };
        match reader.pop() {
            Ok(()) => {},
            Err(e) => {
                return Err(DispatchError::ReaderError(e));
            },
        }
        Ok(Some(Delivery { ring_index, record_type, data, subscribers }))
    }
}

} // verus!
