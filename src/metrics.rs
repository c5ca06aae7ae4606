use vstd::prelude::*;

verus! {

/// `a + b` on 64-bit counters, wrapping past `u64::MAX`.
pub open spec fn wrap_add(a: u64, b: u64) -> u64 {
    if a + b <= u64::MAX {
        (a + b) as u64
    } else {
        (a + b - 0x1_0000_0000_0000_0000) as u64
    }
}

fn counter_add(a: u64, b: u64) -> (r: u64)
    ensures
        r == wrap_add(a, b),
{
    if a <= u64::MAX - b {
        a + b
    } else {
        a - (u64::MAX - b) - 1
    }
}

/// Performance counters accumulated for one task.
#[derive(Debug, Default, Clone, Copy, PartialEq, Eq)]
pub struct Metric {
    /// Total CPU cycles
    pub cycles: u64,
    /// Total CPU instructions
    pub instructions: u64,
    /// Last-level cache misses
    pub llc_misses: u64,
    /// Cache references
    pub cache_references: u64,
    /// Total time measured in nanoseconds
    pub time_ns: u64,
}

/// The field-wise sum of two metrics.
pub open spec fn metric_sum(a: Metric, b: Metric) -> Metric {
    Metric {
        cycles: wrap_add(a.cycles, b.cycles),
        instructions: wrap_add(a.instructions, b.instructions),
        llc_misses: wrap_add(a.llc_misses, b.llc_misses),
        cache_references: wrap_add(a.cache_references, b.cache_references),
        time_ns: wrap_add(a.time_ns, b.time_ns),
    }
}

/// The metric with every counter at zero.
pub open spec fn metric_zero() -> Metric {
    Metric { cycles: 0, instructions: 0, llc_misses: 0, cache_references: 0, time_ns: 0 }
}

impl Metric {
    /// Adds another metric to this one, field by field.
    pub fn add(&mut self, other: &Metric)
        ensures
            *final(self) == metric_sum(*old(self), *other),
    {
        self.cycles = counter_add(self.cycles, other.cycles);
        self.instructions = counter_add(self.instructions, other.instructions);
        self.llc_misses = counter_add(self.llc_misses, other.llc_misses);
        self.cache_references = counter_add(self.cache_references, other.cache_references);
        self.time_ns = counter_add(self.time_ns, other.time_ns);
    }

    /// Builds a metric from raw counter deltas.
    pub fn from_deltas(
        cycles: u64,
        instructions: u64,
        llc_misses: u64,
        cache_references: u64,
        time_ns: u64,
    ) -> (r: Self)
        ensures
            r == (Metric { cycles, instructions, llc_misses, cache_references, time_ns }),
    {
        Metric { cycles, instructions, llc_misses, cache_references, time_ns }
    }
}

/// Counters form a commutative monoid: the sum does not depend on the order
/// of its arguments nor on how it is grouped, and zero changes nothing.
pub proof fn lemma_metric_monoid(a: Metric, b: Metric, c: Metric)
    ensures
        metric_sum(a, b) == metric_sum(b, a),
        metric_sum(metric_sum(a, b), c) == metric_sum(a, metric_sum(b, c)),
        metric_sum(a, metric_zero()) == a,
{
}

} // verus!
