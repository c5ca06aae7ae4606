use vstd::prelude::*;

verus! {

/// Errors that can occur during [`MinTracker`] operations.
#[derive(Debug, Clone, Copy, PartialEq, Eq, Structural)]
pub enum Error {
    /// The CPU id (first) is past the largest valid id (second).
    CpuIdOutOfRange(usize, usize),
    /// A CPU (first) reported a timestamp (third) before its previous one (second).
    NonMonotonicTimestamp(usize, u64, u64),
}

/// What a tracker holds: the slot width and each CPU's latest timestamp.
pub struct MinTrackerView {
    pub slot_size: nat,
    pub timestamps: Seq<Option<u64>>,
}

impl MinTrackerView {
    /// Every CPU has reported at least once.
    pub open spec fn all_reported(self) -> bool {
        forall|i: int| 0 <= i < self.timestamps.len() ==> (#[trigger] self.timestamps[i]) is Some
    }

    /// The lower boundary of the slot that CPU `i` last reported.
    pub open spec fn slot_of(self, i: int) -> int {
        (self.timestamps[i]->Some_0 as int / self.slot_size as int) * self.slot_size as int
    }

    /// `m` is the smallest slot boundary over all CPUs.
    pub open spec fn is_min_slot(self, m: int) -> bool {
        &&& exists|i: int| 0 <= i < self.timestamps.len() && #[trigger] self.slot_of(i) == m
        &&& forall|j: int| 0 <= j < self.timestamps.len() ==> m <= #[trigger] self.slot_of(j)
    }
}

/// Tracks the latest timestamp of each CPU and the smallest time slot that
/// every CPU has reached.
pub struct MinTracker {
    time_slot_size: u64,
    cpu_timestamps: Vec<Option<u64>>,
    uninitialized_cpus: usize,
}

impl View for MinTracker {
    type V = MinTrackerView;

    closed spec fn view(&self) -> MinTrackerView {
        MinTrackerView { slot_size: self.time_slot_size as nat, timestamps: self.cpu_timestamps@ }
    }
}

/// Number of `None` entries among the first `n`.
pub open spec fn count_unreported(ts: Seq<Option<u64>>, n: int) -> int
    decreases n,
{
    if n <= 0 {
        0
    } else {
        count_unreported(ts, n - 1) + if ts[n - 1] is None {
            1int
        } else {
            0int
        }
    }
}

proof fn lemma_count_zero(ts: Seq<Option<u64>>, n: int)
    requires
        0 <= n <= ts.len(),
    ensures
        count_unreported(ts, n) == 0 <==> forall|i: int| 0 <= i < n ==> (#[trigger] ts[i]) is Some,
        0 <= count_unreported(ts, n) <= n,
    decreases n,
{
    if n > 0 {
        lemma_count_zero(ts, n - 1);
    }
}

proof fn lemma_count_update(ts: Seq<Option<u64>>, n: int, c: int, v: u64)
    requires
        0 <= c < n <= ts.len(),
    ensures
        count_unreported(ts.update(c, Some(v)), n) == count_unreported(ts, n) - if ts[c] is None {
            1int
        } else {
            0int
        },
    decreases n,
{
    if n - 1 > c {
        lemma_count_update(ts, n - 1, c, v);
    } else {
        assert forall|k: int| 0 <= k < n - 1 implies ts.update(c, Some(v))[k] == ts[k] by {}
        lemma_count_same(ts.update(c, Some(v)), ts, n - 1);
    }
}

proof fn lemma_count_same(a: Seq<Option<u64>>, b: Seq<Option<u64>>, n: int)
    requires
        0 <= n <= a.len(),
        n <= b.len(),
        forall|k: int| 0 <= k < n ==> a[k] == b[k],
    ensures
        count_unreported(a, n) == count_unreported(b, n),
    decreases n,
{
    if n > 0 {
        lemma_count_same(a, b, n - 1);
    }
}

impl MinTracker {
    pub closed spec fn inv(&self) -> bool {
        &&& self.time_slot_size > 0
        &&& self.uninitialized_cpus == count_unreported(
            self.cpu_timestamps@,
            self.cpu_timestamps@.len() as int,
        )
    }

    /// The slot width of a well-formed tracker is not zero.
    pub proof fn lemma_slot_size_positive(&self)
        requires
            self.inv(),
        ensures
            self@.slot_size > 0,
    {
    }

    /// Creates a tracker for `num_cpus` CPUs and slots `time_slot_size`
    /// nanoseconds wide; no CPU has reported yet.
    pub fn new(time_slot_size: u64, num_cpus: usize) -> (r: Self)
        requires
            time_slot_size > 0,
        ensures
            r.inv(),
            r@.slot_size == time_slot_size,
            r@.timestamps == Seq::new(num_cpus as nat, |i: int| None::<u64>),
    {
        let mut ts: Vec<Option<u64>> = Vec::new();
        let mut i: usize = 0;
        while i < num_cpus
            invariant
                i <= num_cpus,
                ts@ == Seq::new(i as nat, |k: int| None::<u64>),
                count_unreported(ts@, i as int) == i,
            decreases num_cpus - i,
        {
            let ghost before = ts@;
            ts.push(None);
            proof {
                lemma_count_same(ts@, before, i as int);
                assert(count_unreported(ts@, i + 1) == count_unreported(ts@, i as int) + 1);
            }
            i = i + 1;
            assert(ts@ =~= Seq::new(i as nat, |k: int| None::<u64>));
        }
        MinTracker { time_slot_size, cpu_timestamps: ts, uninitialized_cpus: num_cpus }
    }

    /// Records `timestamp` as the latest of CPU `cpu_id`.
    pub fn update(&mut self, cpu_id: usize, timestamp: u64) -> (r: Result<(), Error>)
        requires
            old(self).inv(),
        ensures
            final(self).inv(),
            final(self)@.slot_size == old(self)@.slot_size,
            cpu_id >= old(self)@.timestamps.len() ==> r == Err::<(), Error>(
                Error::CpuIdOutOfRange(
                    cpu_id,
                    if old(self)@.timestamps.len() > 0 {
                        (old(self)@.timestamps.len() - 1) as usize
                    } else {
                        0
                    },
                ),
            ) && final(self)@ == old(self)@,
            cpu_id < old(self)@.timestamps.len() ==> match old(self)@.timestamps[cpu_id as int] {
                Some(prev) if prev > timestamp => r == Err::<(), Error>(
                    Error::NonMonotonicTimestamp(cpu_id, prev, timestamp),
                ) && final(self)@ == old(self)@,
                _ => r == Ok::<(), Error>(()) && final(self)@.timestamps == old(
                    self,
                )@.timestamps.update(cpu_id as int, Some(timestamp)),
            },
    {
        let n = self.cpu_timestamps.len();
        if cpu_id >= n {
            let max = if n > 0 {
                n - 1
            } else {
                0
            };
            return Err(Error::CpuIdOutOfRange(cpu_id, max));
        }
        let prev = self.cpu_timestamps[cpu_id];
        match prev {
            None => {
                proof {
                    lemma_count_update(self.cpu_timestamps@, n as int, cpu_id as int, timestamp);
                    lemma_count_zero(self.cpu_timestamps@, n as int);
                    assert(count_unreported(self.cpu_timestamps@, n as int) > 0);
                }
                self.uninitialized_cpus = self.uninitialized_cpus - 1;
            },
            Some(p) => {
                if p > timestamp {
                    return Err(Error::NonMonotonicTimestamp(cpu_id, p, timestamp));
                }
                proof {
                    lemma_count_update(self.cpu_timestamps@, n as int, cpu_id as int, timestamp);
                }
            },
        }
        self.cpu_timestamps.set(cpu_id, Some(timestamp));
        Ok(())
    }

    /// The lower boundary of the smallest slot over all CPUs, once every CPU
    /// has reported.
    pub fn get_min(&self) -> (r: Option<u64>)
        requires
            self.inv(),
        ensures
            r is None <==> (!self@.all_reported() || self@.timestamps.len() == 0),
            r matches Some(m) ==> self@.is_min_slot(m as int),
    {
        proof {
            lemma_count_zero(self.cpu_timestamps@, self.cpu_timestamps@.len() as int);
        }
        if self.uninitialized_cpus > 0 || self.cpu_timestamps.len() == 0 {
            return None;
        }
        let size = self.time_slot_size;
        let mut best: u64 = 0;
        let mut i: usize = 0;
        while i < self.cpu_timestamps.len()
            invariant
                self.inv(),
                self@.all_reported(),
                self@.timestamps.len() > 0,
                size == self.time_slot_size,
                i <= self@.timestamps.len(),
                i > 0 ==> exists|k: int| 0 <= k < i && #[trigger] self@.slot_of(k) == best,
                forall|j: int| 0 <= j < i ==> best <= #[trigger] self@.slot_of(j),
            decreases self@.timestamps.len() - i,
        {
            assert(self@.timestamps[i as int] is Some);
            let t = match self.cpu_timestamps[i] {
                Some(t) => t,
                None => 0,
            };
            proof {
                vstd::arithmetic::div_mod::lemma_fundamental_div_mod(t as int, size as int);
                vstd::arithmetic::mul::lemma_mul_is_commutative(t as int / size as int, size as int);
                vstd::arithmetic::div_mod::lemma_mod_pos_bound(t as int, size as int);
            }
            let slot = t / size * size;
            assert(slot == self@.slot_of(i as int));
            if i == 0 || slot < best {
                best = slot;
            }
            i = i + 1;
        }
        Some(best)
    }
}

/// The smallest slot never goes back: once every CPU has reported, a
/// successful update leaves every CPU reported and a minimum slot at least
/// as large as before.
pub proof fn lemma_min_monotone(v: MinTrackerView, w: MinTrackerView, cpu: int, ts: u64, m: int, m2: int)
    requires
        v.slot_size > 0,
        w.slot_size == v.slot_size,
        0 <= cpu < v.timestamps.len(),
        v.all_reported(),
        v.timestamps[cpu]->Some_0 <= ts,
        w.timestamps == v.timestamps.update(cpu, Some(ts)),
        v.is_min_slot(m),
        w.is_min_slot(m2),
    ensures
        m <= m2,
        w.all_reported(),
{
    assert forall|i: int| 0 <= i < w.timestamps.len() implies (#[trigger] w.timestamps[i]) is Some by {
        if i != cpu {
            assert(v.timestamps[i] is Some);
        }
    }
    let k = choose|k: int| 0 <= k < w.timestamps.len() && #[trigger] w.slot_of(k) == m2;
    if k == cpu {
        let a = v.timestamps[cpu]->Some_0 as int;
        let s = v.slot_size as int;
        assert((a / s) * s <= (ts as int / s) * s) by {
            vstd::arithmetic::div_mod::lemma_div_is_ordered(a, ts as int, s);
            vstd::arithmetic::mul::lemma_mul_inequality(a / s, ts as int / s, s);
        }
        assert(v.slot_of(cpu) <= w.slot_of(cpu));
        assert(m <= v.slot_of(cpu));
    } else {
        assert(w.slot_of(k) == v.slot_of(k));
        assert(m <= v.slot_of(k));
    }
}

} // verus!
