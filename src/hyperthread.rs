use vstd::prelude::*;

verus! {

/// What one CPU runs and how long its hyperthread peer spent in each kind of
/// company since its last event.
#[derive(Debug, Clone, Copy, PartialEq, Eq, Structural)]
pub struct CpuState {
    pub current_pid: Option<i32>,
    pub last_counter_update: i64,
    pub ns_peer_same_process: i64,
    pub ns_peer_different_process: i64,
    pub ns_peer_kernel: i64,
}

impl CpuState {
    pub fn new() -> (r: Self)
        ensures
            r == spec_cpu_state_new(),
    {
        CpuState {
            current_pid: None,
            last_counter_update: 0,
            ns_peer_same_process: 0,
            ns_peer_different_process: 0,
            ns_peer_kernel: 0,
        }
    }

    pub fn reset_counters(&mut self)
        ensures
            *final(self) == (CpuState {
                ns_peer_same_process: 0,
                ns_peer_different_process: 0,
                ns_peer_kernel: 0,
                ..*old(self)
            }),
    {
        self.ns_peer_same_process = 0;
        self.ns_peer_different_process = 0;
        self.ns_peer_kernel = 0;
    }
}

pub open spec fn spec_cpu_state_new() -> CpuState {
    CpuState {
        current_pid: None,
        last_counter_update: 0,
        ns_peer_same_process: 0,
        ns_peer_different_process: 0,
        ns_peer_kernel: 0,
    }
}

/// Errors of the hyperthread analysis.
#[derive(Debug, Clone, Copy, PartialEq, Eq, Structural)]
pub enum AnalysisError {
    /// A row names a CPU that the analysis does not know.
    InvalidCpuId(i32),
    /// A context switch row (its index) has no next task.
    NullNextTgid(usize),
    /// A counter or a time difference does not fit 64 bits.
    CounterOverflow,
    /// The input path names no file.
    InvalidInputFilename,
}

/// One trace row as the analysis reads it.
#[derive(Debug, Clone, Copy, PartialEq, Eq, Structural)]
pub struct TraceRow {
    pub timestamp: i64,
    pub cpu_id: i32,
    pub is_context_switch: bool,
    pub next_tgid: Option<i32>,
}

/// The counters reported for one row.
#[derive(Debug, Clone, Copy, PartialEq, Eq, Structural)]
pub struct PeerCounters {
    pub ns_peer_same_process: i64,
    pub ns_peer_different_process: i64,
    pub ns_peer_kernel: i64,
}

pub open spec fn fits_i64(x: int) -> bool {
    i64::MIN <= x <= i64::MAX
}

/// `me` after `dt` nanoseconds during which its peer ran `peer_pid`: pid 0
/// is the kernel.
pub open spec fn credit(me: CpuState, peer_pid: i32, dt: int) -> Option<CpuState> {
    if peer_pid == 0 {
        if fits_i64(me.ns_peer_kernel + dt) {
            Some(CpuState { ns_peer_kernel: (me.ns_peer_kernel + dt) as i64, ..me })
        } else {
            None
        }
    } else if me.current_pid == Some(peer_pid) {
        if fits_i64(me.ns_peer_same_process + dt) {
            Some(CpuState { ns_peer_same_process: (me.ns_peer_same_process + dt) as i64, ..me })
        } else {
            None
        }
    } else {
        if fits_i64(me.ns_peer_different_process + dt) {
            Some(
                CpuState {
                    ns_peer_different_process: (me.ns_peer_different_process + dt) as i64,
                    ..me
                },
            )
        } else {
            None
        }
    }
}

/// Sets the last update time of CPUs `a` and `b`.
pub open spec fn stamp(s: Seq<CpuState>, a: int, b: int, ts: i64) -> Seq<CpuState> {
    let s1 = s.update(a, CpuState { last_counter_update: ts, ..s[a] });
    s1.update(b, CpuState { last_counter_update: ts, ..s1[b] })
}

/// The states after an event at `ts` on the peer pair `a`, `b`: each CPU is
/// credited with the time since its last update, by what its peer ran. Time
/// before both CPUs have a timestamp and a known task is not counted.
/// `None` when a sum overflows.
pub open spec fn spec_update_pair(s: Seq<CpuState>, a: int, b: int, ts: i64) -> Option<
    Seq<CpuState>,
> {
    if s[a].last_counter_update == 0 || s[b].last_counter_update == 0 {
        Some(stamp(s, a, b, ts))
    } else if s[a].current_pid is None || s[b].current_pid is None {
        Some(stamp(s, a, b, ts))
    } else {
        let dta = ts - s[a].last_counter_update;
        let dtb = ts - s[b].last_counter_update;
        if !fits_i64(dta) || !fits_i64(dtb) {
            None
        } else {
            match credit(s[a], s[b].current_pid->Some_0, dta) {
                None => None,
                Some(na) => {
                    let s1 = s.update(a, na);
                    match credit(s1[b], s[a].current_pid->Some_0, dtb) {
                        None => None,
                        Some(nb) => Some(stamp(s1.update(b, nb), a, b, ts)),
                    }
                },
            }
        }
    }
}

/// The hyperthread peer of `cpu` when CPUs `k` and `k + n/2` share a core.
pub open spec fn spec_peer(num_cpus: int, cpu: int) -> int {
    if cpu < num_cpus / 2 {
        cpu + num_cpus / 2
    } else {
        cpu - num_cpus / 2
    }
}

/// The state after one row (index `idx`) and the counters reported for it.
pub open spec fn spec_row(s: Seq<CpuState>, row: TraceRow, idx: int) -> Result<
    (Seq<CpuState>, PeerCounters),
    AnalysisError,
> {
    let n = s.len() as int;
    if row.cpu_id < 0 || row.cpu_id >= n {
        Err(AnalysisError::InvalidCpuId(row.cpu_id))
    } else {
        let cpu = row.cpu_id as int;
        match spec_update_pair(s, cpu, spec_peer(n, cpu), row.timestamp) {
            None => Err(AnalysisError::CounterOverflow),
            Some(s1) => {
                let out = PeerCounters {
                    ns_peer_same_process: s1[cpu].ns_peer_same_process,
                    ns_peer_different_process: s1[cpu].ns_peer_different_process,
                    ns_peer_kernel: s1[cpu].ns_peer_kernel,
                };
                if row.is_context_switch && row.next_tgid is None {
                    Err(AnalysisError::NullNextTgid(idx as usize))
                } else {
                    let s2 = if row.is_context_switch {
                        s1.update(cpu, CpuState { current_pid: row.next_tgid, ..s1[cpu] })
                    } else {
                        s1
                    };
                    Ok(
                        (
                            s2.update(
                                cpu,
                                CpuState {
                                    ns_peer_same_process: 0,
                                    ns_peer_different_process: 0,
                                    ns_peer_kernel: 0,
                                    ..s2[cpu]
                                },
                            ),
                            out,
                        ),
                    )
                }
            },
        }
    }
}

/// The states after the first rows, and the counters reported for them.
pub open spec fn spec_rows(s: Seq<CpuState>, rows: Seq<TraceRow>) -> Result<
    (Seq<CpuState>, Seq<PeerCounters>),
    AnalysisError,
>
    decreases rows.len(),
{
    if rows.len() == 0 {
        Ok((s, Seq::empty()))
    } else {
        match spec_rows(s, rows.drop_last()) {
            Err(e) => Err(e),
            Ok((s1, outs)) => match spec_row(s1, rows.last(), rows.len() - 1) {
                Err(e) => Err(e),
                Ok((s2, out)) => Ok((s2, outs.push(out))),
            },
        }
    }
}

/// An error in the first `k` rows is the error of all rows.
proof fn lemma_rows_error_prefix(s: Seq<CpuState>, rows: Seq<TraceRow>, k: int, e: AnalysisError)
    requires
        0 <= k <= rows.len(),
        spec_rows(s, rows.take(k)) == Err::<(Seq<CpuState>, Seq<PeerCounters>), AnalysisError>(e),
    ensures
        spec_rows(s, rows) == Err::<(Seq<CpuState>, Seq<PeerCounters>), AnalysisError>(e),
    decreases rows.len() - k,
{
    if k < rows.len() {
        assert(rows.take(k + 1).drop_last() =~= rows.take(k));
        lemma_rows_error_prefix(s, rows, k + 1, e);
    } else {
        assert(rows.take(k) =~= rows);
    }
}

fn add_i64(a: i64, b: i64) -> (r: Option<i64>)
    ensures
        r == if fits_i64(a + b) {
            Some((a + b) as i64)
        } else {
            None::<i64>
        },
{
    let s: i128 = a as i128 + b as i128;
    if s < i64::MIN as i128 || s > i64::MAX as i128 {
        None
    } else {
        Some(s as i64)
    }
}

fn sub_i64(a: i64, b: i64) -> (r: Option<i64>)
    ensures
        r == if fits_i64(a - b) {
            Some((a - b) as i64)
        } else {
            None::<i64>
        },
{
    let s: i128 = a as i128 - b as i128;
    if s < i64::MIN as i128 || s > i64::MAX as i128 {
        None
    } else {
        Some(s as i64)
    }
}

fn credit_exec(me: CpuState, peer_pid: i32, dt: i64) -> (r: Option<CpuState>)
    ensures
        r == credit(me, peer_pid, dt as int),
{
    if peer_pid == 0 {
        match add_i64(me.ns_peer_kernel, dt) {
            Some(v) => Some(CpuState { ns_peer_kernel: v, ..me }),
            None => None,
        }
    } else if me.current_pid == Some(peer_pid) {
        match add_i64(me.ns_peer_same_process, dt) {
            Some(v) => Some(CpuState { ns_peer_same_process: v, ..me }),
            None => None,
        }
    } else {
        match add_i64(me.ns_peer_different_process, dt) {
            Some(v) => Some(CpuState { ns_peer_different_process: v, ..me }),
            None => None,
        }
    }
}

/// Time each CPU's hyperthread peer spent running the same process, another
/// process, or the kernel, computed from a trace of context switches.
pub struct HyperthreadAnalysis {
    num_cpus: usize,
    cpu_states: Vec<CpuState>,
    output_filename: String,
}

impl HyperthreadAnalysis {
    pub closed spec fn states(&self) -> Seq<CpuState> {
        self.cpu_states@
    }

    pub closed spec fn inv(&self) -> bool {
        self.cpu_states@.len() == self.num_cpus
    }

    pub closed spec fn spec_output_filename(&self) -> Seq<char> {
        self.output_filename@
    }

    /// An analysis of `num_cpus` CPUs, none of which has been seen yet.
    pub fn new(num_cpus: usize, output_filename: String) -> (r: Self)
        ensures
            r.inv(),
            r.states() == Seq::new(num_cpus as nat, |i: int| spec_cpu_state_new()),
            r.spec_output_filename() == output_filename@,
    {
        let mut cpu_states: Vec<CpuState> = Vec::new();
        let mut i: usize = 0;
        while i < num_cpus
            invariant
                i <= num_cpus,
                cpu_states@ == Seq::new(i as nat, |k: int| spec_cpu_state_new()),
            decreases num_cpus - i,
        {
            cpu_states.push(CpuState::new());
            i = i + 1;
            assert(cpu_states@ =~= Seq::new(i as nat, |k: int| spec_cpu_state_new()));
        }
        HyperthreadAnalysis { num_cpus, cpu_states, output_filename }
    }

    /// Where the analysis is to be written.
    pub fn output_filename(&self) -> (r: &String)
        ensures
            r@ == self.spec_output_filename(),
    {
        &self.output_filename
    }

    /// The hyperthread peer of `cpu_id`.
    pub fn get_hyperthread_peer(&self, cpu_id: usize) -> (r: usize)
        requires
            self.inv(),
            cpu_id < self.states().len(),
        ensures
            r == spec_peer(self.states().len() as int, cpu_id as int),
            r < self.states().len(),
    {
        let half = self.num_cpus / 2;
        if cpu_id < half {
            cpu_id + half
        } else {
            cpu_id - half
        }
    }

    /// Credits CPUs `cpu_a` and `cpu_b`, peers of one core, with the time
    /// since their last update, at an event at `event_timestamp`.
    pub fn update_hyperthread(&mut self, cpu_a: usize, cpu_b: usize, event_timestamp: i64) -> (r:
        Result<(), AnalysisError>)
        requires
            old(self).inv(),
            cpu_a < old(self).states().len(),
            cpu_b < old(self).states().len(),
        ensures
            final(self).inv(),
            final(self).spec_output_filename() == old(self).spec_output_filename(),
            match spec_update_pair(old(self).states(), cpu_a as int, cpu_b as int, event_timestamp) {
                Some(s) => r == Ok::<(), AnalysisError>(()) && final(self).states() == s,
                None => r == Err::<(), AnalysisError>(AnalysisError::CounterOverflow),
            },
    {
        let a = self.cpu_states[cpu_a];
        let b = self.cpu_states[cpu_b];
        if a.last_counter_update == 0 || b.last_counter_update == 0 || a.current_pid.is_none()
            || b.current_pid.is_none() {
            self.stamp(cpu_a, cpu_b, event_timestamp);
            return Ok(());
        }
        let dta = match sub_i64(event_timestamp, a.last_counter_update) {
            Some(v) => v,
            None => {
                return Err(AnalysisError::CounterOverflow);
            },
        };
        let dtb = match sub_i64(event_timestamp, b.last_counter_update) {
            Some(v) => v,
            None => {
                return Err(AnalysisError::CounterOverflow);
            },
        };
        let pid_a = match a.current_pid {
            Some(p) => p,
            None => 0,
        };
        let pid_b = match b.current_pid {
            Some(p) => p,
            None => 0,
        };
        let na = match credit_exec(a, pid_b, dta) {
            Some(s) => s,
            None => {
                return Err(AnalysisError::CounterOverflow);
            },
        };
        let ghost s0 = self.cpu_states@;
        let ghost s1 = s0.update(cpu_a as int, na);
        let b_now = if cpu_a == cpu_b {
            na
        } else {
            b
        };
        assert(b_now == s1[cpu_b as int]);
        let nb = match credit_exec(b_now, pid_a, dtb) {
            Some(s) => s,
            None => {
                return Err(AnalysisError::CounterOverflow);
            },
        };
        self.cpu_states.set(cpu_a, na);
        self.cpu_states.set(cpu_b, nb);
        self.stamp(cpu_a, cpu_b, event_timestamp);
        Ok(())
    }

    fn stamp(&mut self, cpu_a: usize, cpu_b: usize, ts: i64)
        requires
            old(self).inv(),
            cpu_a < old(self).states().len(),
            cpu_b < old(self).states().len(),
        ensures
            final(self).inv(),
            final(self).spec_output_filename() == old(self).spec_output_filename(),
            final(self).states() == stamp(old(self).states(), cpu_a as int, cpu_b as int, ts),
    {
        let mut a = self.cpu_states[cpu_a];
        a.last_counter_update = ts;
        self.cpu_states.set(cpu_a, a);
        let mut b = self.cpu_states[cpu_b];
        b.last_counter_update = ts;
        self.cpu_states.set(cpu_b, b);
    }

    /// Runs the analysis over `rows` and returns, for each row, the counters
    /// of its CPU before they are reset. A context switch sets the CPU's task
    /// to the row's next task.
    pub fn process_rows(&mut self, rows: &[TraceRow]) -> (r: Result<Vec<PeerCounters>, AnalysisError>)
        requires
            old(self).inv(),
        ensures
            final(self).inv(),
            final(self).spec_output_filename() == old(self).spec_output_filename(),
            match spec_rows(old(self).states(), rows@) {
                Ok((s, outs)) => (r matches Ok(v) && v@ == outs) && final(self).states() == s,
                Err(e) => r == Err::<Vec<PeerCounters>, AnalysisError>(e),
            },
    {
        let mut out: Vec<PeerCounters> = Vec::new();
        let mut i: usize = 0;
        while i < rows.len()
            invariant
                self.inv(),
                self.spec_output_filename() == old(self).spec_output_filename(),
                i <= rows@.len(),
                spec_rows(old(self).states(), rows@.take(i as int)) == Ok::<
                    (Seq<CpuState>, Seq<PeerCounters>),
                    AnalysisError,
                >((self.states(), out@)),
            decreases rows@.len() - i,
        {
            assert(rows@.take(i + 1).drop_last() =~= rows@.take(i as int));
            assert(rows@.take(i + 1).last() == rows@[i as int]);
            let row = rows[i];
            let ghost s_before = self.states();
            let ghost outs_before = out@;
            if row.cpu_id < 0 || row.cpu_id as usize >= self.num_cpus {
                proof {
                    lemma_rows_error_prefix(
                        old(self).states(),
                        rows@,
                        i + 1,
                        AnalysisError::InvalidCpuId(row.cpu_id),
                    );
                }
                return Err(AnalysisError::InvalidCpuId(row.cpu_id));
            }
            let cpu = row.cpu_id as usize;
            let peer = self.get_hyperthread_peer(cpu);
            match self.update_hyperthread(cpu, peer, row.timestamp) {
                Ok(()) => {},
                Err(e) => {
                    proof {
                        lemma_rows_error_prefix(old(self).states(), rows@, i + 1, e);
                    }
                    return Err(e);
                },
            }
            let st = self.cpu_states[cpu];
            out.push(
                PeerCounters {
                    ns_peer_same_process: st.ns_peer_same_process,
                    ns_peer_different_process: st.ns_peer_different_process,
                    ns_peer_kernel: st.ns_peer_kernel,
                },
            );
            let mut st2 = st;
            if row.is_context_switch {
                match row.next_tgid {
                    Some(t) => {
                        st2.current_pid = Some(t);
                    },
                    None => {
                        proof {
                            lemma_rows_error_prefix(
                                old(self).states(),
                                rows@,
                                i + 1,
                                AnalysisError::NullNextTgid(i),
                            );
                        }
                        return Err(AnalysisError::NullNextTgid(i));
                    },
                }
            }
            st2.reset_counters();
            self.cpu_states.set(cpu, st2);
            proof {
                let n = s_before.len() as int;
                assert(peer == spec_peer(n, cpu as int));
                let s1 = spec_update_pair(s_before, cpu as int, peer as int, row.timestamp)->Some_0;
                assert(st == s1[cpu as int]);
                let pc = PeerCounters {
                    ns_peer_same_process: st.ns_peer_same_process,
                    ns_peer_different_process: st.ns_peer_different_process,
                    ns_peer_kernel: st.ns_peer_kernel,
                };
                assert(out@ == outs_before.push(pc));
                let s2 = if row.is_context_switch {
                    s1.update(cpu as int, CpuState { current_pid: row.next_tgid, ..s1[cpu as int] })
                } else {
                    s1
                };
                assert(s2[cpu as int] == CpuState { current_pid: st2.current_pid, ..st });
                assert(self.states() =~= s2.update(
                    cpu as int,
                    CpuState {
                        ns_peer_same_process: 0,
                        ns_peer_different_process: 0,
                        ns_peer_kernel: 0,
                        ..s2[cpu as int]
                    },
                ));
                assert(spec_row(s_before, row, i as int) == Ok::<
                    (Seq<CpuState>, PeerCounters),
                    AnalysisError,
                >((self.states(), pc)));
            }
            i = i + 1;
        }
        assert(rows@.take(i as int) =~= rows@);
        Ok(out)
    }
}

/// Index of the last `c` in `s[..n]`, or -1.
pub open spec fn last_index_of(s: Seq<char>, c: char, n: int) -> int
    decreases n,
{
    if n <= 0 {
        -1
    } else if s[n - 1] == c {
        n - 1
    } else {
        last_index_of(s, c, n - 1)
    }
}

/// The file name of a path: what follows its last `/`.
pub open spec fn spec_file_name(path: Seq<char>) -> Seq<char> {
    path.subrange(last_index_of(path, '/', path.len() as int) + 1, path.len() as int)
}

/// The stem of a file name: the part before its last `.`, unless that dot
/// is its first character.
pub open spec fn spec_stem(name: Seq<char>) -> Seq<char> {
    let d = last_index_of(name, '.', name.len() as int);
    if d > 0 {
        name.subrange(0, d)
    } else {
        name
    }
}

/// The output path of the analysis of `input`: in the input's directory,
/// named after `prefix` or else the input's stem.
pub open spec fn spec_output_filename(input: Seq<char>, prefix: Option<Seq<char>>) -> Option<Seq<char>> {
    let name = spec_file_name(input);
    if name.len() == 0 || name == "."@ || name == ".."@ {
        None
    } else {
        let p = match prefix {
            Some(p) => p,
            None => spec_stem(name),
        };
        Some(
            input.subrange(0, last_index_of(input, '/', input.len() as int) + 1) + p
                + "_hyperthread_analysis.parquet"@,
        )
    }
}

fn last_index(s: &str, c: char) -> (r: Option<usize>)
    ensures
        last_index_of(s@, c, s@.len() as int) == match r {
            Some(i) => i as int,
            None => -1,
        },
        r matches Some(i) ==> i < s@.len(),
{
    let n = s.unicode_len();
    let mut k: usize = n;
    while k > 0
        invariant
            k <= n == s@.len(),
            last_index_of(s@, c, n as int) == last_index_of(s@, c, k as int),
        decreases k,
    {
        if s.get_char(k - 1) == c {
            return Some(k - 1);
        }
        k = k - 1;
    }
    None
}

fn str_eq(a: &str, b: &str) -> (r: bool)
    ensures
        r == (a@ == b@),
{
    let n = a.unicode_len();
    if n != b.unicode_len() {
        return false;
    }
    let mut i: usize = 0;
    while i < n
        invariant
            i <= n == a@.len() == b@.len(),
            forall|k: int| 0 <= k < i ==> a@[k] == b@[k],
        decreases n - i,
    {
        if a.get_char(i) != b.get_char(i) {
            return false;
        }
        i = i + 1;
    }
    assert(a@ =~= b@);
    true
}

/// Where to write the analysis of the trace at `input_path`: beside it,
/// named `<prefix>_hyperthread_analysis.parquet`, where the prefix is
/// `output_prefix` or else the input file's stem.
pub fn determine_output_filename(input_path: &str, output_prefix: Option<&str>) -> (r: Result<
    String,
    AnalysisError,
>)
    ensures
        match spec_output_filename(
            input_path@,
            match output_prefix {
                Some(p) => Some(p@),
                None => None,
            },
        ) {
            Some(out) => r matches Ok(s) && s@ == out,
            None => r == Err::<String, AnalysisError>(AnalysisError::InvalidInputFilename),
        },
{
    let n = input_path.unicode_len();
    let start = match last_index(input_path, '/') {
        Some(i) => i + 1,
        None => 0,
    };
    let name = input_path.substring_char(start, n);
    if name.unicode_len() == 0 || str_eq(name, ".") || str_eq(name, "..") {
        proof {
            reveal_strlit(".");
            reveal_strlit("..");
        }
        return Err(AnalysisError::InvalidInputFilename);
    }
    proof {
        reveal_strlit(".");
        reveal_strlit("..");
    }
    let mut out = String::from_str(input_path.substring_char(0, start));
    match output_prefix {
        Some(p) => {
            out.append(p);
        },
        None => {
            let m = name.unicode_len();
            match last_index(name, '.') {
                Some(d) => {
                    if d > 0 {
                        out.append(name.substring_char(0, d));
                    } else {
                        out.append(name);
                    }
                },
                None => {
                    out.append(name);
                },
            }
        },
    }
    out.append("_hyperthread_analysis.parquet");
    Ok(out)
}

} // verus!
