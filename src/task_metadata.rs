use vstd::prelude::*;
use std::collections::HashMap;

verus! {

broadcast use vstd::std_specs::hash::group_hash_axioms;

/// Metadata of one task.
#[derive(Debug, Clone, Copy)]
pub struct TaskMetadata {
    pub pid: u32,
    pub comm: [u8; 16],
    pub cgroup_id: u64,
}

impl TaskMetadata {
    pub fn new(pid: u32, comm: [u8; 16], cgroup_id: u64) -> (r: Self)
        ensures
            r.pid == pid,
            r.comm == comm,
            r.cgroup_id == cgroup_id,
    {
        TaskMetadata { pid, comm, cgroup_id }
    }
}

/// What a task collection holds: the live tasks, and the pids queued for
/// removal at the next flush.
pub struct TaskCollectionView {
    pub tasks: Map<u32, TaskMetadata>,
    pub pending: Seq<u32>,
}

/// The collection after `pid` is queued for removal: queued only if present.
pub open spec fn after_queue_removal(v: TaskCollectionView, pid: u32) -> TaskCollectionView {
    if v.tasks.contains_key(pid) {
        TaskCollectionView { pending: v.pending.push(pid), ..v }
    } else {
        v
    }
}

/// The collection after the queued removals are carried out.
pub open spec fn after_flush(v: TaskCollectionView) -> TaskCollectionView {
    TaskCollectionView { tasks: v.tasks.remove_keys(v.pending.to_set()), pending: Seq::empty() }
}

/// Tasks by pid, with removals that wait for an explicit flush.
pub struct TaskCollection {
    tasks: HashMap<u32, TaskMetadata>,
    removal_queue: Vec<u32>,
}

impl View for TaskCollection {
    type V = TaskCollectionView;

    closed spec fn view(&self) -> TaskCollectionView {
        TaskCollectionView { tasks: self.tasks@, pending: self.removal_queue@ }
    }
}

impl TaskCollection {
    pub fn new() -> (r: Self)
        ensures
            r@.tasks == Map::<u32, TaskMetadata>::empty(),
            r@.pending == Seq::<u32>::empty(),
    {
        TaskCollection { tasks: HashMap::new(), removal_queue: Vec::new() }
    }

    /// Adds a task, replacing any task with the same pid.
    pub fn add(&mut self, metadata: TaskMetadata)
        ensures
            final(self)@.tasks == old(self)@.tasks.insert(metadata.pid, metadata),
            final(self)@.pending == old(self)@.pending,
    {
        self.tasks.insert(metadata.pid, metadata);
    }

    /// The task with `pid`, if any.
    pub fn lookup(&self, pid: u32) -> (r: Option<&TaskMetadata>)
        ensures
            r is Some <==> self@.tasks.contains_key(pid),
            r matches Some(m) ==> *m == self@.tasks[pid],
    {
        self.tasks.get(&pid)
    }

    /// Queues the task with `pid` for removal at the next flush; a pid with
    /// no task is ignored.
    pub fn queue_removal(&mut self, pid: u32)
        ensures
            final(self)@ == after_queue_removal(old(self)@, pid),
    {
        if self.tasks.contains_key(&pid) {
            self.removal_queue.push(pid);
        }
    }

    /// Removes every queued task.
    pub fn flush_removals(&mut self)
        ensures
            final(self)@ == after_flush(old(self)@),
    {
        let n = self.removal_queue.len();
        let mut i: usize = 0;
        while i < n
            invariant
                n == self.removal_queue@.len(),
                i <= n,
                self.removal_queue@ == old(self).removal_queue@,
                self.tasks@ == old(self).tasks@.remove_keys(
                    self.removal_queue@.take(i as int).to_set(),
                ),
            decreases n - i,
        {
            let pid = self.removal_queue[i];
            self.tasks.remove(&pid);
            proof {
                let q = self.removal_queue@;
                assert(q.take(i + 1) == q.take(i as int).push(pid));
                assert(q.take(i + 1).to_set() =~= q.take(i as int).to_set().insert(pid)) by {
                    q.take(i as int).lemma_push_to_set_commute(pid);
                }
            }
            assert(self.tasks@ =~= old(self).tasks@.remove_keys(
                self.removal_queue@.take(i + 1).to_set(),
            ));
            i = i + 1;
        }
        assert(self.removal_queue@.take(n as int) =~= self.removal_queue@);
        self.removal_queue.clear();
        assert(self@ =~= after_flush(old(self)@)) by {
            assert(self.removal_queue@ =~= Seq::<u32>::empty());
        }
    }
}

/// Deferred removal: after a free of a present task, the task is still found
/// until the next flush, and is gone after it.
pub proof fn lemma_deferred_removal(v: TaskCollectionView, pid: u32)
    requires
        v.tasks.contains_key(pid),
    ensures
        after_queue_removal(v, pid).tasks.contains_key(pid),
        after_queue_removal(v, pid).tasks[pid] == v.tasks[pid],
        !after_flush(after_queue_removal(v, pid)).tasks.contains_key(pid),
{
    let w = after_queue_removal(v, pid);
    assert(w.pending.last() == pid);
    assert(w.pending.to_set().contains(pid)) by {
        assert(w.pending[w.pending.len() - 1] == pid);
    }
}

} // verus!
