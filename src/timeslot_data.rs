use vstd::prelude::*;
use std::collections::HashMap;
use crate::metrics::{Metric, metric_sum};
use crate::task_metadata::TaskMetadata;

verus! {

broadcast use vstd::std_specs::hash::group_hash_axioms;

/// Metadata of a task with the metrics accumulated for it.
#[derive(Debug, Clone, Copy)]
pub struct TaskData {
    /// Task metadata (None when none was known, as for kernel threads)
    pub metadata: Option<TaskMetadata>,
    /// Counters accumulated for the task
    pub metrics: Metric,
}

impl TaskData {
    pub fn new(metadata: Option<TaskMetadata>, metrics: Metric) -> (r: Self)
        ensures
            r.metadata == metadata,
            r.metrics == metrics,
    {
        TaskData { metadata, metrics }
    }
}

/// What a timeslot holds: its start, its tasks by pid, and the order in which
/// the pids first appeared.
pub struct TimeslotView {
    pub start_timestamp: u64,
    pub tasks: Map<u32, TaskData>,
    pub order: Seq<u32>,
}

/// The timeslot after a sample of `pid` with `metrics` is accounted: the
/// metrics are added to the task's, or a task is created with them and with
/// `metadata`.
pub open spec fn after_update(
    v: TimeslotView,
    pid: u32,
    metadata: Option<TaskMetadata>,
    metrics: Metric,
) -> TimeslotView {
    if v.tasks.contains_key(pid) {
        TimeslotView {
            tasks: v.tasks.insert(
                pid,
                TaskData { metrics: metric_sum(v.tasks[pid].metrics, metrics), ..v.tasks[pid] },
            ),
            ..v
        }
    } else {
        TimeslotView {
            tasks: v.tasks.insert(pid, TaskData { metadata, metrics }),
            order: v.order.push(pid),
            ..v
        }
    }
}

/// Data collected for one timeslot.
pub struct TimeslotData {
    /// Timestamp at which this timeslot starts
    pub start_timestamp: u64,
    tasks: HashMap<u32, TaskData>,
    order: Vec<u32>,
}

impl View for TimeslotData {
    type V = TimeslotView;

    closed spec fn view(&self) -> TimeslotView {
        TimeslotView { start_timestamp: self.start_timestamp, tasks: self.tasks@, order: self.order@ }
    }
}

impl TimeslotData {
    pub open spec fn wf(&self) -> bool {
        &&& self@.order.no_duplicates()
        &&& self@.order.to_set() == self@.tasks.dom()
    }

    /// An empty timeslot starting at `start_timestamp`.
    pub fn new(start_timestamp: u64) -> (r: Self)
        ensures
            r.wf(),
            r@.start_timestamp == start_timestamp,
            r@.tasks == Map::<u32, TaskData>::empty(),
            r@.order == Seq::<u32>::empty(),
    {
        let r = TimeslotData { start_timestamp, tasks: HashMap::new(), order: Vec::new() };
        assert(r@.order.to_set() =~= r@.tasks.dom());
        r
    }

    /// Accounts a sample of `pid`: adds `metrics` to the task's metrics, or
    /// creates the task with `metadata` and `metrics`.
    pub fn update(&mut self, pid: u32, metadata: Option<TaskMetadata>, metrics: Metric)
        requires
            old(self).wf(),
        ensures
            final(self).wf(),
            final(self)@ == after_update(old(self)@, pid, metadata, metrics),
    {
        match self.tasks.get(&pid) {
            Some(existing) => {
                let mut data = *existing;
                data.metrics.add(&metrics);
                self.tasks.insert(pid, data);
                assert(self@.tasks.dom() =~= old(self)@.tasks.dom());
            },
            None => {
                self.tasks.insert(pid, TaskData::new(metadata, metrics));
                self.order.push(pid);
                proof {
                    old(self)@.order.lemma_push_to_set_commute(pid);
                    assert(self@.order.to_set() =~= self@.tasks.dom());
                    assert(self@.order.no_duplicates()) by {
                        assert(!old(self)@.order.contains(pid));
                        assert forall|a: int, b: int|
                            0 <= a < b < self@.order.len() implies self@.order[a]
                            != self@.order[b] by {
                            if b == self@.order.len() - 1 {
                                assert(old(self)@.order[a] != pid) by {
                                    if old(self)@.order[a] == pid {
                                        assert(old(self)@.order.contains(pid));
                                    }
                                }
                            }
                        }
                    }
                }
            },
        }
    }

    /// Every task with its pid, in the order the pids first appeared.
    pub fn iter_tasks(&self) -> (r: Vec<(u32, TaskData)>)
        requires
            self.wf(),
        ensures
            r@.len() == self@.order.len(),
            forall|k: int|
                0 <= k < r@.len() ==> #[trigger] r@[k] == (self@.order[k], self@.tasks[self@.order[k]]),
    {
        let mut out: Vec<(u32, TaskData)> = Vec::new();
        let mut i: usize = 0;
        while i < self.order.len()
            invariant
                self.wf(),
                i <= self@.order.len(),
                out@.len() == i,
                forall|k: int|
                    0 <= k < i ==> #[trigger] out@[k] == (self@.order[k], self@.tasks[self@.order[k]]),
            decreases self@.order.len() - i,
        {
            let pid = self.order[i];
            assert(self@.order.to_set().contains(pid));
            match self.tasks.get(&pid) {
                Some(data) => {
                    out.push((pid, *data));
                },
                None => {},
            }
            i = i + 1;
        }
        out
    }

    /// Timestamp at which this timeslot starts.
    pub fn start_timestamp(&self) -> (r: u64)
        ensures
            r == self@.start_timestamp,
    {
        self.start_timestamp
    }

    /// Number of tasks in this timeslot.
    pub fn task_count(&self) -> (r: usize)
        requires
            self.wf(),
        ensures
            r == self@.tasks.len(),
    {
        proof {
            self@.order.unique_seq_to_set();
        }
        self.order.len()
    }
}

} // verus!
