use vstd::prelude::*;
use crate::bytes::{le_u32_at, le_u64_at, read_u32_le, read_u64_le};
use crate::reader::SampleHeader;

verus! {

/// Kind of a task metadata sample.
pub const MSG_TYPE_TASK_METADATA: u32 = 1;
/// Kind of a task free sample.
pub const MSG_TYPE_TASK_FREE: u32 = 2;
/// Kind of a perf measurement sample.
pub const MSG_TYPE_PERF_MEASUREMENT: u32 = 3;
/// Kind of a timer-finished sample.
pub const MSG_TYPE_TIMER_FINISHED_PROCESSING: u32 = 4;
/// Kind of a timer-migration sample.
pub const MSG_TYPE_TIMER_MIGRATION_DETECTED: u32 = 5;

/// Size of the sample header `{size:u32, kind:u32, timestamp:u64}`.
pub const SAMPLE_HEADER_SIZE: usize = 16;
/// Size of a task metadata message.
pub const TASK_METADATA_MSG_SIZE: usize = 48;
/// Size of a task free message.
pub const TASK_FREE_MSG_SIZE: usize = 24;
/// Size of a timer migration message.
pub const TIMER_MIGRATION_MSG_SIZE: usize = 24;
/// Size of a perf measurement message.
pub const PERF_MEASUREMENT_MSG_SIZE: usize = 64;

pub open spec fn spec_header(d: Seq<u8>) -> SampleHeader {
    SampleHeader { size: le_u32_at(d, 0), type_: le_u32_at(d, 4), timestamp: le_u64_at(d, 8) }
}

/// Decodes the sample header at the start of `data`, if it is long enough.
pub fn parse_header(data: &[u8]) -> (r: Option<SampleHeader>)
    ensures
        r is None <==> data@.len() < SAMPLE_HEADER_SIZE,
        r matches Some(h) ==> h == spec_header(data@),
{
    if data.len() < SAMPLE_HEADER_SIZE {
        return None;
    }
    Some(
        SampleHeader {
            size: read_u32_le(data, 0),
            type_: read_u32_le(data, 4),
            timestamp: read_u64_le(data, 8),
        },
    )
}

/// A task's metadata, as the producer reports it.
#[derive(Debug, Clone, Copy)]
pub struct TaskMetadataMsg {
    pub header: SampleHeader,
    pub pid: u32,
    pub comm: [u8; 16],
    pub cgroup_id: u64,
}

impl TaskMetadataMsg {
    /// Decodes a task metadata message: header, pid at 16, command name at
    /// 20..36, cgroup id at 40.
    pub fn parse(data: &[u8]) -> (r: Option<TaskMetadataMsg>)
        ensures
            r is None <==> data@.len() < TASK_METADATA_MSG_SIZE,
            r matches Some(m) ==> {
                &&& m.header == spec_header(data@)
                &&& m.pid == le_u32_at(data@, 16)
                &&& m.comm@ == data@.subrange(20, 36)
                &&& m.cgroup_id == le_u64_at(data@, 40)
            },
    {
        if data.len() < TASK_METADATA_MSG_SIZE {
            return None;
        }
        let mut comm = [0u8; 16];
        let mut i: usize = 0;
        while i < 16
            invariant
                i <= 16,
                data@.len() >= TASK_METADATA_MSG_SIZE,
                comm@.len() == 16,
                forall|k: int| 0 <= k < i ==> comm@[k] == data@[20 + k],
            decreases 16 - i,
        {
            comm[i] = data[20 + i];
            i = i + 1;
        }
        assert(comm@ =~= data@.subrange(20, 36));
        let header = SampleHeader {
            size: read_u32_le(data, 0),
            type_: read_u32_le(data, 4),
            timestamp: read_u64_le(data, 8),
        };
        Some(
            TaskMetadataMsg {
                header,
                pid: read_u32_le(data, 16),
                comm,
                cgroup_id: read_u64_le(data, 40),
            },
        )
    }
}

/// The end of a task.
#[derive(Debug, Clone, Copy, PartialEq, Eq, Structural)]
pub struct TaskFreeMsg {
    pub header: SampleHeader,
    pub pid: u32,
}

impl TaskFreeMsg {
    /// Decodes a task free message: header, then the pid at 16.
    pub fn parse(data: &[u8]) -> (r: Option<TaskFreeMsg>)
        ensures
            r is None <==> data@.len() < TASK_FREE_MSG_SIZE,
            r matches Some(m) ==> m.header == spec_header(data@) && m.pid == le_u32_at(data@, 16),
    {
        if data.len() < TASK_FREE_MSG_SIZE {
            return None;
        }
        let header = SampleHeader {
            size: read_u32_le(data, 0),
            type_: read_u32_le(data, 4),
            timestamp: read_u64_le(data, 8),
        };
        Some(TaskFreeMsg { header, pid: read_u32_le(data, 16) })
    }
}

/// Report that a CPU's timer fired and closed a timeslot.
#[derive(Debug, Clone, Copy, PartialEq, Eq, Structural)]
pub struct TimerFinishedProcessingMsg {
    pub header: SampleHeader,
}

impl TimerFinishedProcessingMsg {
    /// Decodes a timer-finished message: the header alone.
    pub fn parse(data: &[u8]) -> (r: Option<TimerFinishedProcessingMsg>)
        ensures
            r is None <==> data@.len() < SAMPLE_HEADER_SIZE,
            r matches Some(m) ==> m.header == spec_header(data@),
    {
        match parse_header(data) {
            Some(header) => Some(TimerFinishedProcessingMsg { header }),
            None => None,
        }
    }
}

/// Report that a timer fired on another CPU than the one it was pinned to.
#[derive(Debug, Clone, Copy, PartialEq, Eq, Structural)]
pub struct TimerMigrationMsg {
    pub header: SampleHeader,
    pub expected_cpu: u32,
    pub actual_cpu: u32,
}

impl TimerMigrationMsg {
    /// Decodes a timer migration message: header, expected CPU at 16, actual
    /// CPU at 20.
    pub fn parse(data: &[u8]) -> (r: Option<TimerMigrationMsg>)
        ensures
            r is None <==> data@.len() < TIMER_MIGRATION_MSG_SIZE,
            r matches Some(m) ==> m.header == spec_header(data@) && m.expected_cpu == le_u32_at(
                data@,
                16,
            ) && m.actual_cpu == le_u32_at(data@, 20),
    {
        if data.len() < TIMER_MIGRATION_MSG_SIZE {
            return None;
        }
        let header = SampleHeader {
            size: read_u32_le(data, 0),
            type_: read_u32_le(data, 4),
            timestamp: read_u64_le(data, 8),
        };
        Some(
            TimerMigrationMsg {
                header,
                expected_cpu: read_u32_le(data, 16),
                actual_cpu: read_u32_le(data, 20),
            },
        )
    }
}

/// Counter deltas of one task on one CPU since the previous sample there.
#[derive(Debug, Clone, Copy, PartialEq, Eq, Structural)]
pub struct PerfMeasurementMsg {
    pub header: SampleHeader,
    pub pid: u32,
    pub is_context_switch: u32,
    pub cycles_delta: u64,
    pub instructions_delta: u64,
    pub llc_misses_delta: u64,
    pub cache_references_delta: u64,
    pub time_delta_ns: u64,
}

impl PerfMeasurementMsg {
    /// Decodes a perf measurement message: header, pid at 16, context switch
    /// flag at 20, then the cycles, instructions, LLC misses, cache
    /// references and time deltas at 24, 32, 40, 48 and 56.
    pub fn parse(data: &[u8]) -> (r: Option<PerfMeasurementMsg>)
        ensures
            r is None <==> data@.len() < PERF_MEASUREMENT_MSG_SIZE,
            r matches Some(m) ==> {
                &&& m.header == spec_header(data@)
                &&& m.pid == le_u32_at(data@, 16)
                &&& m.is_context_switch == le_u32_at(data@, 20)
                &&& m.cycles_delta == le_u64_at(data@, 24)
                &&& m.instructions_delta == le_u64_at(data@, 32)
                &&& m.llc_misses_delta == le_u64_at(data@, 40)
                &&& m.cache_references_delta == le_u64_at(data@, 48)
                &&& m.time_delta_ns == le_u64_at(data@, 56)
            },
    {
        if data.len() < PERF_MEASUREMENT_MSG_SIZE {
            return None;
        }
        let header = SampleHeader {
            size: read_u32_le(data, 0),
            type_: read_u32_le(data, 4),
            timestamp: read_u64_le(data, 8),
        };
        Some(
            PerfMeasurementMsg {
                header,
                pid: read_u32_le(data, 16),
                is_context_switch: read_u32_le(data, 20),
                cycles_delta: read_u64_le(data, 24),
                instructions_delta: read_u64_le(data, 32),
                llc_misses_delta: read_u64_le(data, 40),
                cache_references_delta: read_u64_le(data, 48),
                time_delta_ns: read_u64_le(data, 56),
            },
        )
    }
}

} // verus!
