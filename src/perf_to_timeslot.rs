use vstd::prelude::*;
use crate::bytes::{le_u32_at, le_u64_at};
use crate::messages::{PerfMeasurementMsg, PERF_MEASUREMENT_MSG_SIZE};
use crate::metrics::Metric;
use crate::task_tracker::BpfTaskTracker;
use crate::timeslot_data::{TimeslotData, TimeslotView, after_update};

verus! {

/// The metric that a perf measurement message at the start of `d` carries.
pub open spec fn spec_message_metric(d: Seq<u8>) -> Metric {
    Metric {
        cycles: le_u64_at(d, 24),
        instructions: le_u64_at(d, 32),
        llc_misses: le_u64_at(d, 40),
        cache_references: le_u64_at(d, 48),
        time_ns: le_u64_at(d, 56),
    }
}

/// Accumulates perf measurements per task into the current timeslot, and
/// hands the timeslot over when the timeslot advances.
pub struct BpfPerfToTimeslot {
    current_timeslot: TimeslotData,
    error_counter: u64,
}

impl BpfPerfToTimeslot {
    pub closed spec fn current(&self) -> TimeslotView {
        self.current_timeslot@
    }

    pub closed spec fn errors(&self) -> u64 {
        self.error_counter
    }

    pub closed spec fn inv(&self) -> bool {
        self.current_timeslot.wf()
    }

    /// Starts with an empty timeslot at timestamp 0.
    pub fn new() -> (r: Self)
        ensures
            r.inv(),
            r.current() == (TimeslotView {
                start_timestamp: 0,
                tasks: Map::empty(),
                order: Seq::empty(),
            }),
            r.errors() == 0,
    {
        BpfPerfToTimeslot { current_timeslot: TimeslotData::new(0), error_counter: 0 }
    }

    /// Accounts a perf measurement sample to its task in the current
    /// timeslot, with the task's metadata as `tasks` knows it. A sample too
    /// short to decode is ignored.
    pub fn handle_perf_measurement(&mut self, tasks: &BpfTaskTracker, ring_index: usize, data: &[u8])
        requires
            old(self).inv(),
        ensures
            final(self).inv(),
            final(self).errors() == old(self).errors(),
            data@.len() < PERF_MEASUREMENT_MSG_SIZE ==> final(self).current() == old(self).current(),
            data@.len() >= PERF_MEASUREMENT_MSG_SIZE ==> {
                let pid = le_u32_at(data@, 16);
                let metadata = if tasks@.tasks.contains_key(pid) {
                    Some(tasks@.tasks[pid])
                } else {
                    None
                };
                final(self).current() == after_update(
                    old(self).current(),
                    pid,
                    metadata,
                    spec_message_metric(data@),
                )
            },
    {
        let event = match PerfMeasurementMsg::parse(data) {
            Some(event) => event,
            None => {
                return ;
            },
        };
        let metric = Metric::from_deltas(
            event.cycles_delta,
            event.instructions_delta,
            event.llc_misses_delta,
            event.cache_references_delta,
            event.time_delta_ns,
        );
        let pid = event.pid;
        let metadata = match tasks.lookup(pid) {
            Some(m) => Some(*m),
            None => None,
        };
        self.current_timeslot.update(pid, metadata, metric);
    }

    /// The timeslot advanced: the current timeslot is returned, and an empty
    /// one starting at `new_timeslot` takes its place.
    pub fn on_new_timeslot(&mut self, old_timeslot: u64, new_timeslot: u64) -> (r: TimeslotData)
        requires
            old(self).inv(),
        ensures
            final(self).inv(),
            r.wf(),
            r@ == old(self).current(),
            final(self).current() == (TimeslotView {
                start_timestamp: new_timeslot,
                tasks: Map::empty(),
                order: Seq::empty(),
            }),
            final(self).errors() == old(self).errors(),
    {
        let mut completed = TimeslotData::new(new_timeslot);
        std::mem::swap(&mut self.current_timeslot, &mut completed);
        completed
    }

    /// Counts a completed timeslot that could not be handed over.
    pub fn record_send_failure(&mut self)
        requires
            old(self).inv(),
        ensures
            final(self).inv(),
            final(self).current() == old(self).current(),
            final(self).errors() == if old(self).errors() < u64::MAX {
                (old(self).errors() + 1) as u64
            } else {
                u64::MAX
            },
    {
        if self.error_counter < u64::MAX {
            self.error_counter = self.error_counter + 1;
        }
    }

    /// Returns the failures counted since the last call, and starts over.
    pub fn take_error_count(&mut self) -> (r: u64)
        requires
            old(self).inv(),
        ensures
            final(self).inv(),
            r == old(self).errors(),
            final(self).errors() == 0,
            final(self).current() == old(self).current(),
    {
        let n = self.error_counter;
        self.error_counter = 0;
        n
    }
}

} // verus!
