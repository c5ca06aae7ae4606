use vstd::prelude::*;
use crate::bytes::{le_u32_at, le_u64_at};
use crate::messages::{TaskFreeMsg, TaskMetadataMsg, TASK_FREE_MSG_SIZE, TASK_METADATA_MSG_SIZE};
use crate::task_metadata::{
    TaskCollection, TaskCollectionView, TaskMetadata, after_flush, after_queue_removal,
};

verus! {

/// Keeps task metadata from task metadata samples, and drops a task on the
/// first timeslot boundary after its task free sample, so that samples still
/// in flight for it find its metadata.
pub struct BpfTaskTracker {
    task_collection: TaskCollection,
}

impl View for BpfTaskTracker {
    type V = TaskCollectionView;

    closed spec fn view(&self) -> TaskCollectionView {
        self.task_collection@
    }
}

impl BpfTaskTracker {
    pub fn new() -> (r: Self)
        ensures
            r@.tasks == Map::<u32, TaskMetadata>::empty(),
            r@.pending == Seq::<u32>::empty(),
    {
        BpfTaskTracker { task_collection: TaskCollection::new() }
    }

    /// The metadata of task `pid`, if known.
    pub fn lookup(&self, pid: u32) -> (r: Option<&TaskMetadata>)
        ensures
            r is Some <==> self@.tasks.contains_key(pid),
            r matches Some(m) ==> *m == self@.tasks[pid],
    {
        self.task_collection.lookup(pid)
    }

    /// A timeslot boundary: tasks freed before it are dropped.
    pub fn on_new_timeslot(&mut self, old_timeslot: u64, new_timeslot: u64)
        ensures
            final(self)@ == after_flush(old(self)@),
    {
        self.task_collection.flush_removals();
    }

    /// Handles a task metadata sample; a sample too short to decode is ignored.
    pub fn handle_task_metadata(&mut self, ring_index: usize, data: &[u8])
        ensures
            data@.len() < TASK_METADATA_MSG_SIZE ==> final(self)@ == old(self)@,
            data@.len() >= TASK_METADATA_MSG_SIZE ==> {
                let pid = le_u32_at(data@, 16);
                &&& final(self)@.pending == old(self)@.pending
                &&& final(self)@.tasks.dom() == old(self)@.tasks.dom().insert(pid)
                &&& final(self)@.tasks[pid].pid == pid
                &&& final(self)@.tasks[pid].comm@ == data@.subrange(20, 36)
                &&& final(self)@.tasks[pid].cgroup_id == le_u64_at(data@, 40)
                &&& forall|p: u32| p != pid && old(self)@.tasks.contains_key(p) ==> #[trigger] final(self)@.tasks[p]
                    == old(self)@.tasks[p]
            },
    {
        match TaskMetadataMsg::parse(data) {
            Some(event) => {
                let metadata = TaskMetadata::new(event.pid, event.comm, event.cgroup_id);
                self.task_collection.add(metadata);
            },
            None => {},
        }
    }

    /// Handles a task free sample: the task is dropped at the next timeslot
    /// boundary. A sample too short to decode is ignored.
    pub fn handle_task_free(&mut self, ring_index: usize, data: &[u8])
        ensures
            data@.len() < TASK_FREE_MSG_SIZE ==> final(self)@ == old(self)@,
            data@.len() >= TASK_FREE_MSG_SIZE ==> final(self)@ == after_queue_removal(
                old(self)@,
                le_u32_at(data@, 16),
            ),
    {
        match TaskFreeMsg::parse(data) {
            Some(event) => {
                self.task_collection.queue_removal(event.pid);
            },
            None => {},
        }
    }
}

} // verus!
