use vstd::prelude::*;
use crate::messages::{spec_header, TimerFinishedProcessingMsg, SAMPLE_HEADER_SIZE};
use crate::min_tracker::{MinTracker, MinTrackerView};

verus! {

/// Width of a timeslot in nanoseconds.
pub const TIMESLOT_WIDTH_NS: u64 = 1_000_000;

/// A change of the smallest timeslot over all CPUs.
#[derive(Debug, Clone, Copy, PartialEq, Eq, Structural)]
pub struct TimeslotAdvance {
    pub old_timeslot: u64,
    pub new_timeslot: u64,
}

/// What a timeslot tracker holds.
pub struct TimeslotTrackerView {
    pub min: MinTrackerView,
    pub last_min_slot: Option<u64>,
    pub subscribers: nat,
}

/// The smallest slot that a tracker state reports: `None` until every CPU
/// has reported.
pub open spec fn reports_min(v: MinTrackerView, m: Option<u64>) -> bool {
    &&& (m is None <==> (!v.all_reported() || v.timestamps.len() == 0))
    &&& (m matches Some(x) ==> v.is_min_slot(x as int))
}

/// The event that a change of the minimum from `last` to `new_min` fires:
/// none when it did not change, nor when it goes from unknown to unknown.
pub open spec fn advance_event(last: Option<u64>, new_min: Option<u64>) -> Option<TimeslotAdvance> {
    let old_ts = match last {
        Some(x) => x,
        None => 0,
    };
    let new_ts = match new_min {
        Some(x) => x,
        None => 0,
    };
    if new_min != last && (new_min is Some || old_ts > 0) {
        Some(TimeslotAdvance { old_timeslot: old_ts, new_timeslot: new_ts })
    } else {
        None
    }
}

/// Follows the timer-finished samples of every CPU and reports when the
/// smallest timeslot over all CPUs changes.
pub struct BpfTimeslotTracker {
    min_tracker: MinTracker,
    last_min_slot: Option<u64>,
    subscribers: usize,
}

impl View for BpfTimeslotTracker {
    type V = TimeslotTrackerView;

    closed spec fn view(&self) -> TimeslotTrackerView {
        TimeslotTrackerView {
            min: self.min_tracker@,
            last_min_slot: self.last_min_slot,
            subscribers: self.subscribers as nat,
        }
    }
}

impl BpfTimeslotTracker {
    pub closed spec fn inv(&self) -> bool {
        &&& self.min_tracker.inv()
        &&& reports_min(self.min_tracker@, self.last_min_slot)
    }

    /// A well-formed tracker remembers the current smallest slot: an
    /// advance starts from it.
    pub proof fn lemma_last_is_current_min(&self)
        requires
            self.inv(),
        ensures
            reports_min(self@.min, self@.last_min_slot),
            self@.min.slot_size > 0,
    {
        self.min_tracker.lemma_slot_size_positive();
    }

    /// A tracker for `num_cpus` CPUs with timeslots of [`TIMESLOT_WIDTH_NS`].
    pub fn new(num_cpus: usize) -> (r: Self)
        ensures
            r.inv(),
            r@.min.slot_size == TIMESLOT_WIDTH_NS,
            r@.min.timestamps == Seq::new(num_cpus as nat, |i: int| None::<u64>),
            r@.last_min_slot is None,
            r@.subscribers == 0,
    {
        let min_tracker = MinTracker::new(TIMESLOT_WIDTH_NS, num_cpus);
        proof {
            if num_cpus > 0 {
                assert(min_tracker@.timestamps[0] is None);
            }
        }
        BpfTimeslotTracker { min_tracker, last_min_slot: None, subscribers: 0 }
    }

    /// Registers one more receiver of timeslot changes and returns its index.
    pub fn subscribe(&mut self) -> (r: Option<usize>)
        ensures
            final(self).inv() == old(self).inv(),
            final(self)@.min == old(self)@.min,
            final(self)@.last_min_slot == old(self)@.last_min_slot,
            old(self)@.subscribers < usize::MAX ==> r == Some(old(self)@.subscribers as usize)
                && final(self)@.subscribers == old(self)@.subscribers + 1,
            old(self)@.subscribers == usize::MAX ==> r is None && final(self)@ == old(self)@,
    {
        if self.subscribers == usize::MAX {
            return None;
        }
        let id = self.subscribers;
        self.subscribers = self.subscribers + 1;
        Some(id)
    }

    /// Number of receivers registered so far.
    pub fn subscriber_count(&self) -> (r: usize)
        ensures
            r == self@.subscribers,
    {
        self.subscribers
    }

    /// Handles a timer-finished sample from the ring (and CPU) `ring_index`,
    /// and returns the timeslot change that every receiver is to be told of.
    /// A sample too short to decode, or one that the minimum tracker refuses,
    /// changes nothing.
    pub fn handle_timer_finished_processing(&mut self, ring_index: usize, data: &[u8]) -> (r:
        Option<TimeslotAdvance>)
        requires
            old(self).inv(),
        ensures
            final(self).inv(),
            final(self)@.subscribers == old(self)@.subscribers,
            final(self)@.min.slot_size == old(self)@.min.slot_size,
            data@.len() < SAMPLE_HEADER_SIZE ==> r is None && final(self)@ == old(self)@,
            data@.len() >= SAMPLE_HEADER_SIZE ==> {
                let ts = spec_header(data@).timestamp;
                let refused = ring_index >= old(self)@.min.timestamps.len() || (old(
                    self,
                )@.min.timestamps[ring_index as int] matches Some(prev) && prev > ts);
                &&& refused ==> r is None && final(self)@ == old(self)@
                &&& !refused ==> {
                    &&& final(self)@.min.timestamps == old(self)@.min.timestamps.update(
                        ring_index as int,
                        Some(ts),
                    )
                    &&& reports_min(final(self)@.min, final(self)@.last_min_slot)
                    &&& r == advance_event(old(self)@.last_min_slot, final(self)@.last_min_slot)
                }
            },
    {
        let event = match TimerFinishedProcessingMsg::parse(data) {
            Some(event) => event,
            None => {
                return None;
            },
        };
        let timestamp = event.header.timestamp;
        match self.min_tracker.update(ring_index, timestamp) {
            Ok(()) => {},
            Err(_) => {
                return None;
            },
        }
        let new_min_slot = self.min_tracker.get_min();
        let last = self.last_min_slot;
        let changed = match (new_min_slot, last) {
            (Some(a), Some(b)) => a != b,
            (None, None) => false,
            _ => true,
        };
        if changed {
            let old_timeslot = match last {
                Some(x) => x,
                None => 0,
            };
            let new_timeslot = match new_min_slot {
                Some(x) => x,
                None => 0,
            };
            self.last_min_slot = new_min_slot;
            if new_min_slot.is_some() || old_timeslot > 0 {
                return Some(TimeslotAdvance { old_timeslot, new_timeslot });
            }
        }
        None
    }
}

} // verus!
