use vstd::prelude::*;
use crate::bytes::{le_u32_at, le_u64_at};
use crate::messages::{spec_header, PerfMeasurementMsg, PERF_MEASUREMENT_MSG_SIZE};
use crate::task_metadata::TaskMetadata;
use crate::task_tracker::BpfTaskTracker;
use crate::timeslot_data::{TaskData, TimeslotData};

verus! {

/// The text that a byte string holds as UTF-8, if it is valid UTF-8.
pub uninterp spec fn utf8_text(b: Seq<u8>) -> Option<Seq<char>>;

/// Relies on std::str::from_utf8: the bytes as text when they are valid
/// UTF-8, and an error otherwise; the result depends on the bytes alone.
#[verifier::external_body]
fn decode_utf8(b: &[u8]) -> (r: Option<String>)
    ensures
        match r {
            Some(s) => utf8_text(b@) == Some(s@),
            None => utf8_text(b@) is None,
        },
{
    std::str::from_utf8(b).ok().map(|s| s.to_string())
}

/// `s` without its trailing NUL characters.
pub open spec fn trim_nul(s: Seq<char>) -> Seq<char>
    decreases s.len(),
{
    if s.len() > 0 && s.last() == '\0' {
        trim_nul(s.drop_last())
    } else {
        s
    }
}

/// The process name that a decoded command name gives: the text without its
/// NUL padding, or `<invalid utf8>`.
pub open spec fn spec_process_name(decoded: Option<Seq<char>>) -> Seq<char> {
    match decoded {
        Some(t) => trim_nul(t),
        None => trim_nul("<invalid utf8>"@),
    }
}

/// The process name for a decoded command name (`None` when it was not UTF-8).
pub fn process_name_from_text(decoded: Option<&str>) -> (r: String)
    ensures
        r@ == spec_process_name(
            match decoded {
                Some(t) => Some(t@),
                None => None,
            },
        ),
{
    let text = match decoded {
        Some(t) => t,
        None => "<invalid utf8>",
    };
    let n = text.unicode_len();
    let mut end: usize = n;
    assert(text@.subrange(0, n as int) =~= text@);
    while end > 0 && text.get_char(end - 1) == '\0'
        invariant
            end <= n == text@.len(),
            trim_nul(text@) == trim_nul(text@.subrange(0, end as int)),
        decreases end,
    {
        assert(text@.subrange(0, end as int).drop_last() =~= text@.subrange(0, end - 1));
        end = end - 1;
    }
    assert(text@.subrange(0, end as int) == trim_nul(text@.subrange(0, end as int)));
    String::from_str(text.substring_char(0, end))
}

/// The process name of a 16-byte command name.
pub fn process_name(comm: &[u8; 16]) -> (r: String)
    ensures
        r@ == spec_process_name(utf8_text(comm@)),
{
    let decoded = decode_utf8(comm.as_slice());
    match &decoded {
        Some(s) => process_name_from_text(Some(s.as_str())),
        None => process_name_from_text(None),
    }
}

/// A 64-bit counter as the signed column type stores it.
pub open spec fn to_i64(x: u64) -> i64 {
    if x <= i64::MAX {
        x as i64
    } else {
        (x - 0x1_0000_0000_0000_0000) as i64
    }
}

/// A 32-bit id as the signed column type stores it.
pub open spec fn to_i32(x: u32) -> i32 {
    if x <= i32::MAX {
        x as i32
    } else {
        (x - 0x1_0000_0000) as i32
    }
}

fn cast_i64(x: u64) -> (r: i64)
    ensures
        r == to_i64(x),
{
    if x <= i64::MAX as u64 {
        x as i64
    } else {
        let y: u64 = x - (i64::MAX as u64) - 1;
        i64::MIN + y as i64
    }
}

fn cast_i32(x: u32) -> (r: i32)
    ensures
        r == to_i32(x),
{
    if x <= i32::MAX as u32 {
        x as i32
    } else {
        let y: u32 = x - (i32::MAX as u32) - 1;
        i32::MIN + y as i32
    }
}

/// One row of the timeslot output.
pub struct TimeslotRow {
    pub start_time: i64,
    pub pid: i32,
    pub process_name: Option<String>,
    pub cgroup_id: i64,
    pub cycles: i64,
    pub instructions: i64,
    pub llc_misses: i64,
    pub cache_references: i64,
    pub duration: i64,
}

/// The row of task `pid` in a timeslot that starts at `start`.
pub open spec fn spec_timeslot_row(start: u64, pid: u32, d: TaskData, r: TimeslotRow) -> bool {
    &&& r.start_time == to_i64(start)
    &&& r.pid == to_i32(pid)
    &&& match d.metadata {
        Some(m) => r.process_name matches Some(n) && n@ == spec_process_name(utf8_text(m.comm@))
            && r.cgroup_id == to_i64(m.cgroup_id),
        None => r.process_name is None && r.cgroup_id == 0,
    }
    &&& r.cycles == to_i64(d.metrics.cycles)
    &&& r.instructions == to_i64(d.metrics.instructions)
    &&& r.llc_misses == to_i64(d.metrics.llc_misses)
    &&& r.cache_references == to_i64(d.metrics.cache_references)
    &&& r.duration == to_i64(d.metrics.time_ns)
}

fn name_and_cgroup(metadata: &Option<TaskMetadata>) -> (r: (Option<String>, i64))
    ensures
        match *metadata {
            Some(m) => r.0 matches Some(n) && n@ == spec_process_name(utf8_text(m.comm@)) && r.1
                == to_i64(m.cgroup_id),
            None => r.0 is None && r.1 == 0,
        },
{
    match metadata {
        Some(m) => (Some(process_name(&m.comm)), cast_i64(m.cgroup_id)),
        None => (None, 0),
    }
}

/// The rows of a completed timeslot, one per task, in the order the tasks
/// first appeared.
pub fn timeslot_rows(ts: &TimeslotData) -> (r: Vec<TimeslotRow>)
    requires
        ts.wf(),
    ensures
        r@.len() == ts@.order.len(),
        forall|k: int|
            0 <= k < r@.len() ==> spec_timeslot_row(
                ts@.start_timestamp,
                ts@.order[k],
                ts@.tasks[ts@.order[k]],
                #[trigger] r@[k],
            ),
{
    let tasks = ts.iter_tasks();
    let start = cast_i64(ts.start_timestamp());
    let mut out: Vec<TimeslotRow> = Vec::new();
    let mut i: usize = 0;
    while i < tasks.len()
        invariant
            tasks@.len() == ts@.order.len(),
            forall|k: int|
                0 <= k < tasks@.len() ==> #[trigger] tasks@[k] == (
                ts@.order[k],
                ts@.tasks[ts@.order[k]],
            ),
            start == to_i64(ts@.start_timestamp),
            i <= tasks@.len(),
            out@.len() == i,
            forall|k: int|
                0 <= k < i ==> spec_timeslot_row(
                    ts@.start_timestamp,
                    ts@.order[k],
                    ts@.tasks[ts@.order[k]],
                    #[trigger] out@[k],
                ),
        decreases tasks@.len() - i,
    {
        let (pid, data) = tasks[i];
        assert(tasks@[i as int] == (ts@.order[i as int], ts@.tasks[ts@.order[i as int]]));
        let (process_name, cgroup_id) = name_and_cgroup(&data.metadata);
        out.push(
            TimeslotRow {
                start_time: start,
                pid: cast_i32(pid),
                process_name,
                cgroup_id,
                cycles: cast_i64(data.metrics.cycles),
                instructions: cast_i64(data.metrics.instructions),
                llc_misses: cast_i64(data.metrics.llc_misses),
                cache_references: cast_i64(data.metrics.cache_references),
                duration: cast_i64(data.metrics.time_ns),
            },
        );
        i = i + 1;
    }
    out
}

/// One row of the raw trace output.
pub struct TraceRecord {
    pub timestamp: i64,
    pub pid: i32,
    pub process_name: Option<String>,
    pub cgroup_id: i64,
    pub cpu_id: i32,
    pub cycles_delta: i64,
    pub instructions_delta: i64,
    pub llc_misses_delta: i64,
    pub cache_references_delta: i64,
    pub is_context_switch: bool,
}

/// The trace row of a perf measurement `d` from ring `ring_index`, with the
/// metadata that `tasks` holds for its pid.
pub open spec fn spec_trace_record(
    tasks: Map<u32, TaskMetadata>,
    ring_index: usize,
    d: Seq<u8>,
    r: TraceRecord,
) -> bool {
    let pid = le_u32_at(d, 16);
    &&& r.timestamp == to_i64(spec_header(d).timestamp)
    &&& r.pid == to_i32(pid)
    &&& if tasks.contains_key(pid) {
        r.process_name matches Some(n) && n@ == spec_process_name(utf8_text(tasks[pid].comm@))
            && r.cgroup_id == to_i64(tasks[pid].cgroup_id)
    } else {
        r.process_name is None && r.cgroup_id == 0
    }
    &&& r.cpu_id as int == ring_index as int % 0x1_0000_0000 - if ring_index as int % 0x1_0000_0000
        > i32::MAX {
        0x1_0000_0000int
    } else {
        0int
    }
    &&& r.cycles_delta == to_i64(le_u64_at(d, 24))
    &&& r.instructions_delta == to_i64(le_u64_at(d, 32))
    &&& r.llc_misses_delta == to_i64(le_u64_at(d, 40))
    &&& r.cache_references_delta == to_i64(le_u64_at(d, 48))
    &&& r.is_context_switch == (le_u32_at(d, 20) != 0)
}

/// The trace row of a perf measurement sample from ring (and CPU)
/// `ring_index`; `None` when the sample is too short to decode.
pub fn trace_record(tasks: &BpfTaskTracker, ring_index: usize, data: &[u8]) -> (r: Option<TraceRecord>)
    ensures
        r is None <==> data@.len() < PERF_MEASUREMENT_MSG_SIZE,
        r matches Some(t) ==> spec_trace_record(tasks@.tasks, ring_index, data@, t),
{
    let event = match PerfMeasurementMsg::parse(data) {
        Some(e) => e,
        None => {
            return None;
        },
    };
    let metadata = match tasks.lookup(event.pid) {
        Some(m) => Some(*m),
        None => None,
    };
    let (process_name, cgroup_id) = name_and_cgroup(&metadata);
    let low: u32 = (ring_index as u64 % 0x1_0000_0000) as u32;
    Some(
        TraceRecord {
            timestamp: cast_i64(event.header.timestamp),
            pid: cast_i32(event.pid),
            process_name,
            cgroup_id,
            cpu_id: cast_i32(low),
            cycles_delta: cast_i64(event.cycles_delta),
            instructions_delta: cast_i64(event.instructions_delta),
            llc_misses_delta: cast_i64(event.llc_misses_delta),
            cache_references_delta: cast_i64(event.cache_references_delta),
            is_context_switch: event.is_context_switch != 0,
        },
    )
}

/// Interval after which a partial trace batch is emitted, in milliseconds.
pub const TRACE_FLUSH_INTERVAL_MS: u64 = 1000;

/// Trace rows waiting to be emitted as a batch: a batch leaves when it holds
/// `capacity` rows, or when a row arrives a second or more after the last
/// batch left.
pub struct TraceBuffer {
    rows: Vec<TraceRecord>,
    capacity: usize,
    last_flush_ms: u64,
}

impl TraceBuffer {
    /// The rows waiting, oldest first.
    pub closed spec fn pending(&self) -> Seq<TraceRecord> {
        self.rows@
    }

    pub open spec fn len(&self) -> nat {
        self.pending().len()
    }

    pub closed spec fn spec_capacity(&self) -> usize {
        self.capacity
    }

    pub closed spec fn last_flush(&self) -> u64 {
        self.last_flush_ms
    }

    /// An empty buffer whose batches hold up to `capacity` rows; `now_ms` is
    /// the time in milliseconds.
    pub fn new(capacity: usize, now_ms: u64) -> (r: Self)
        ensures
            r.len() == 0,
            r.spec_capacity() == capacity,
            r.last_flush() == now_ms,
    {
        TraceBuffer { rows: Vec::new(), capacity, last_flush_ms: now_ms }
    }

    /// Appends a row at time `now_ms`, and returns the batch when it is due.
    pub fn push(&mut self, row: TraceRecord, now_ms: u64) -> (r: Option<Vec<TraceRecord>>)
        ensures
            final(self).spec_capacity() == old(self).spec_capacity(),
            ({
                let due = old(self).len() + 1 >= old(self).spec_capacity() || (now_ms
                    >= old(self).last_flush() && now_ms - old(self).last_flush()
                    >= TRACE_FLUSH_INTERVAL_MS);
                &&& due ==> (r matches Some(b) && b@ == old(self).pending().push(row))
                    && final(self).len() == 0 && final(self).last_flush() == now_ms
                &&& !due ==> r is None && final(self).pending() == old(self).pending().push(row)
                    && final(self).last_flush() == old(self).last_flush()
            }),
    {
        self.rows.push(row);
        let due = self.rows.len() >= self.capacity || (now_ms >= self.last_flush_ms && now_ms
            - self.last_flush_ms >= TRACE_FLUSH_INTERVAL_MS);
        if due {
            let mut batch: Vec<TraceRecord> = Vec::new();
            std::mem::swap(&mut batch, &mut self.rows);
            self.last_flush_ms = now_ms;
            Some(batch)
        } else {
            None
        }
    }

    /// Emits the rows held, if any, as at shutdown.
    pub fn flush(&mut self, now_ms: u64) -> (r: Option<Vec<TraceRecord>>)
        ensures
            final(self).spec_capacity() == old(self).spec_capacity(),
            final(self).len() == 0,
            old(self).len() == 0 ==> r is None && final(self).last_flush() == old(self).last_flush(),
            old(self).len() > 0 ==> (r matches Some(b) && b@ == old(self).pending())
                && final(self).last_flush() == now_ms,
    {
        if self.rows.len() == 0 {
            return None;
        }
        let mut batch: Vec<TraceRecord> = Vec::new();
        std::mem::swap(&mut batch, &mut self.rows);
        self.last_flush_ms = now_ms;
        Some(batch)
    }
}

/// Turns perf measurement samples into trace rows and emits them in
/// batches (see [`TraceBuffer`]).
pub struct BpfPerfToTrace {
    buffer: TraceBuffer,
}

impl BpfPerfToTrace {
    pub closed spec fn spec_buffer(&self) -> TraceBuffer {
        self.buffer
    }

    /// A processor whose batches hold up to `capacity` rows; `now_ms` is the
    /// time in milliseconds.
    pub fn new(capacity: usize, now_ms: u64) -> (r: Self)
        ensures
            r.spec_buffer().len() == 0,
            r.spec_buffer().spec_capacity() == capacity,
            r.spec_buffer().last_flush() == now_ms,
    {
        BpfPerfToTrace { buffer: TraceBuffer::new(capacity, now_ms) }
    }

    /// Handles a perf measurement sample from ring `ring_index` at `now_ms`,
    /// and returns the batch when one is due. A sample too short to decode
    /// is ignored.
    pub fn handle_perf_measurement(
        &mut self,
        tasks: &BpfTaskTracker,
        ring_index: usize,
        data: &[u8],
        now_ms: u64,
    ) -> (r: Option<Vec<TraceRecord>>)
        ensures
            data@.len() < PERF_MEASUREMENT_MSG_SIZE ==> r is None && final(self).spec_buffer()
                == old(self).spec_buffer(),
            data@.len() >= PERF_MEASUREMENT_MSG_SIZE ==> {
                let old_b = old(self).spec_buffer();
                let new_b = final(self).spec_buffer();
                let due = old_b.len() + 1 >= old_b.spec_capacity() || (now_ms >= old_b.last_flush()
                    && now_ms - old_b.last_flush() >= TRACE_FLUSH_INTERVAL_MS);
                &&& new_b.spec_capacity() == old_b.spec_capacity()
                &&& due ==> (r matches Some(b) && b@.len() == old_b.len() + 1 && b@.drop_last()
                    == old_b.pending() && spec_trace_record(
                    tasks@.tasks,
                    ring_index,
                    data@,
                    b@.last(),
                )) && new_b.len() == 0 && new_b.last_flush() == now_ms
                &&& !due ==> r is None && new_b.len() == old_b.len() + 1
                    && new_b.pending().drop_last() == old_b.pending() && spec_trace_record(
                    tasks@.tasks,
                    ring_index,
                    data@,
                    new_b.pending().last(),
                ) && new_b.last_flush() == old_b.last_flush()
            },
    {
        match trace_record(tasks, ring_index, data) {
            Some(row) => {
                let ghost old_pending = self.buffer.pending();
                let r = self.buffer.push(row, now_ms);
                proof {
                    assert(old_pending.push(row).drop_last() =~= old_pending);
                }
                r
            },
            None => None,
        }
    }

    /// Emits the rows still held, as at shutdown.
    pub fn shutdown(&mut self, now_ms: u64) -> (r: Option<Vec<TraceRecord>>)
        ensures
            final(self).spec_buffer().len() == 0,
            old(self).spec_buffer().len() == 0 ==> r is None,
            old(self).spec_buffer().len() > 0 ==> (r matches Some(b) && b@ == old(self).spec_buffer().pending()),
    {
        self.buffer.flush(now_ms)
    }
}

} // verus!
