use vstd::prelude::*;

verus! {

/// Kernel capability tier used to pin the timer to its CPU.
#[derive(Debug, Clone, Copy, PartialEq, Eq, Structural)]
pub enum SyncTimerMode {
    /// CPU pinning with absolute expiry (kernel 6.7 and later)
    Modern,
    /// Absolute expiry only (kernel 6.4 to 6.6)
    Intermediate,
    /// Relative expiry only (kernel 5.15 to 6.3)
    Legacy,
}

pub open spec fn spec_mode_tag(m: SyncTimerMode) -> u8 {
    match m {
        SyncTimerMode::Modern => 0,
        SyncTimerMode::Intermediate => 1,
        SyncTimerMode::Legacy => 2,
    }
}

/// The mode to try after `m` fails, if any: modern, then intermediate, then legacy.
pub open spec fn spec_next_mode(m: SyncTimerMode) -> Option<SyncTimerMode> {
    match m {
        SyncTimerMode::Modern => Some(SyncTimerMode::Intermediate),
        SyncTimerMode::Intermediate => Some(SyncTimerMode::Legacy),
        SyncTimerMode::Legacy => None,
    }
}

pub open spec fn spec_mode_description(m: SyncTimerMode) -> Seq<char> {
    match m {
        SyncTimerMode::Modern => "modern CPU pinning + absolute time (kernel 6.7+)"@,
        SyncTimerMode::Intermediate => "intermediate absolute time only (kernel 6.4-6.6)"@,
        SyncTimerMode::Legacy => "legacy relative time only (kernel 5.15-6.3)"@,
    }
}

/// Timer-init status: success.
pub const SYNC_TIMER_SUCCESS: u32 = 0;
/// Timer-init status: the map update failed.
pub const SYNC_TIMER_MAP_UPDATE_FAILED: u32 = 1;
/// Timer-init status: the map lookup after insertion failed.
pub const SYNC_TIMER_MAP_LOOKUP_FAILED: u32 = 2;
/// Timer-init status: the timer could not be initialised.
pub const SYNC_TIMER_TIMER_INIT_FAILED: u32 = 3;
/// Timer-init status: the timer callback could not be set.
pub const SYNC_TIMER_TIMER_SET_CALLBACK_FAILED: u32 = 4;
/// Timer-init status: the timer could not be started.
pub const SYNC_TIMER_TIMER_START_FAILED: u32 = 5;

/// The `AF_INET` value that the timer-init context starts with.
pub const AF_INET: u8 = 2;

impl SyncTimerMode {
    /// The first mode to try.
    pub fn first() -> (r: SyncTimerMode)
        ensures
            r == SyncTimerMode::Modern,
    {
        SyncTimerMode::Modern
    }

    /// The mode's tag byte in the timer-init context.
    pub fn tag(&self) -> (r: u8)
        ensures
            r == spec_mode_tag(*self),
    {
        match self {
            SyncTimerMode::Modern => 0,
            SyncTimerMode::Intermediate => 1,
            SyncTimerMode::Legacy => 2,
        }
    }

    /// The mode to try after this one fails, if any.
    pub fn next(&self) -> (r: Option<SyncTimerMode>)
        ensures
            r == spec_next_mode(*self),
    {
        match self {
            SyncTimerMode::Modern => Some(SyncTimerMode::Intermediate),
            SyncTimerMode::Intermediate => Some(SyncTimerMode::Legacy),
            SyncTimerMode::Legacy => None,
        }
    }

    /// Whether the mode needs timer migration disabled during the sweep.
    pub fn needs_migration_disabled(&self) -> (r: bool)
        ensures
            r == (*self != SyncTimerMode::Modern),
    {
        match self {
            SyncTimerMode::Modern => false,
            _ => true,
        }
    }

    /// A description of the mode.
    pub fn description(&self) -> (r: &'static str)
        ensures
            r@ == spec_mode_description(*self),
    {
        match self {
            SyncTimerMode::Modern => "modern CPU pinning + absolute time (kernel 6.7+)",
            SyncTimerMode::Intermediate => "intermediate absolute time only (kernel 6.4-6.6)",
            SyncTimerMode::Legacy => "legacy relative time only (kernel 5.15-6.3)",
        }
    }
}

/// Errors of the synchronized timer setup. Operating system errors carry
/// their `errno`.
#[derive(Debug, Clone, PartialEq, Eq)]
pub enum SyncTimerError {
    AffinityGetFailed(i32),
    CpuCountFailed(i32),
    CpuSetFailed { cpu: usize },
    AffinitySetFailed { cpu: usize, errno: i32 },
    CurrentCpuFailed(i32),
    BpfProgramFailed { cpu: usize, errno: i32 },
    MapUpdateFailed { cpu: usize },
    MapLookupFailed { cpu: usize },
    TimerInitFailed { cpu: usize },
    TimerSetCallbackFailed { cpu: usize },
    TimerStartFailed { cpu: usize },
    UnknownBpfError { cpu: usize, code: u32 },
    CpuPinFailed { target: usize, current: usize },
    AffinityRestoreFailed(i32),
    MultipleFailures { failed_cores: Vec<usize>, failed_count: usize, total_count: usize },
    SysctlReadFailed(i32),
    SysctlWriteFailed(i32),
    SysctlParseFailed { value: String },
    AllMethodsFailed,
}

/// The 16-byte context handed to the timer-init routine: `AF_INET` in its
/// first byte and the mode's tag in its fifth, zeros elsewhere.
pub fn timer_init_context(mode: SyncTimerMode) -> (r: [u8; 16])
    ensures
        r@.len() == 16,
        forall|i: int|
            0 <= i < 16 ==> #[trigger] r@[i] == if i == 0 {
                AF_INET
            } else if i == 4 {
                spec_mode_tag(mode)
            } else {
                0u8
            },
{
    let mut ctx = [0u8; 16];
    ctx[0] = AF_INET;
    ctx[4] = mode.tag();
    ctx
}

/// What a timer-init status means for `cpu`.
pub fn interpret_init_status(cpu: usize, code: u32) -> (r: Result<(), SyncTimerError>)
    ensures
        code == SYNC_TIMER_SUCCESS <==> r is Ok,
        code == SYNC_TIMER_MAP_UPDATE_FAILED ==> r == Err::<(), SyncTimerError>(
            SyncTimerError::MapUpdateFailed { cpu },
        ),
        code == SYNC_TIMER_MAP_LOOKUP_FAILED ==> r == Err::<(), SyncTimerError>(
            SyncTimerError::MapLookupFailed { cpu },
        ),
        code == SYNC_TIMER_TIMER_INIT_FAILED ==> r == Err::<(), SyncTimerError>(
            SyncTimerError::TimerInitFailed { cpu },
        ),
        code == SYNC_TIMER_TIMER_SET_CALLBACK_FAILED ==> r == Err::<(), SyncTimerError>(
            SyncTimerError::TimerSetCallbackFailed { cpu },
        ),
        code == SYNC_TIMER_TIMER_START_FAILED ==> r == Err::<(), SyncTimerError>(
            SyncTimerError::TimerStartFailed { cpu },
        ),
        code > SYNC_TIMER_TIMER_START_FAILED ==> r == Err::<(), SyncTimerError>(
            SyncTimerError::UnknownBpfError { cpu, code },
        ),
{
    if code == SYNC_TIMER_SUCCESS {
        Ok(())
    } else if code == SYNC_TIMER_MAP_UPDATE_FAILED {
        Err(SyncTimerError::MapUpdateFailed { cpu })
    } else if code == SYNC_TIMER_MAP_LOOKUP_FAILED {
        Err(SyncTimerError::MapLookupFailed { cpu })
    } else if code == SYNC_TIMER_TIMER_INIT_FAILED {
        Err(SyncTimerError::TimerInitFailed { cpu })
    } else if code == SYNC_TIMER_TIMER_SET_CALLBACK_FAILED {
        Err(SyncTimerError::TimerSetCallbackFailed { cpu })
    } else if code == SYNC_TIMER_TIMER_START_FAILED {
        Err(SyncTimerError::TimerStartFailed { cpu })
    } else {
        Err(SyncTimerError::UnknownBpfError { cpu, code })
    }
}

/// Whether pinning to `target` took: the thread must now run on it.
pub fn check_pinned(target: usize, current: usize) -> (r: Result<(), SyncTimerError>)
    ensures
        target == current <==> r is Ok,
        target != current ==> r == Err::<(), SyncTimerError>(
            SyncTimerError::CpuPinFailed { target, current },
        ),
{
    if target == current {
        Ok(())
    } else {
        Err(SyncTimerError::CpuPinFailed { target, current })
    }
}

/// A sweep of timer initialisation over every CPU, in order: it keeps the
/// CPUs on which initialisation failed.
pub struct CpuSweep {
    total: usize,
    next_cpu: usize,
    failed: Vec<usize>,
}

impl CpuSweep {
    pub closed spec fn spec_total(&self) -> usize {
        self.total
    }

    pub closed spec fn spec_next(&self) -> usize {
        self.next_cpu
    }

    pub closed spec fn spec_failed(&self) -> Seq<usize> {
        self.failed@
    }

    /// A sweep over CPUs `0..total`.
    pub fn new(total: usize) -> (r: Self)
        ensures
            r.spec_total() == total,
            r.spec_next() == 0,
            r.spec_failed() == Seq::<usize>::empty(),
    {
        CpuSweep { total, next_cpu: 0, failed: Vec::new() }
    }

    /// The next CPU to initialise, or `None` when every CPU had its turn.
    pub fn next_cpu(&self) -> (r: Option<usize>)
        ensures
            self.spec_next() < self.spec_total() ==> r == Some(self.spec_next()),
            self.spec_next() >= self.spec_total() ==> r is None,
    {
        if self.next_cpu < self.total {
            Some(self.next_cpu)
        } else {
            None
        }
    }

    /// Records the outcome for the current CPU and moves to the next one.
    pub fn record(&mut self, outcome: Result<(), SyncTimerError>)
        requires
            old(self).spec_next() < old(self).spec_total(),
        ensures
            final(self).spec_total() == old(self).spec_total(),
            final(self).spec_next() == old(self).spec_next() + 1,
            final(self).spec_failed() == if outcome is Ok {
                old(self).spec_failed()
            } else {
                old(self).spec_failed().push(old(self).spec_next())
            },
    {
        match outcome {
            Ok(()) => {},
            Err(_) => {
                self.failed.push(self.next_cpu);
            },
        }
        self.next_cpu = self.next_cpu + 1;
    }

    /// The sweep's result: success when no CPU failed.
    pub fn finish(self) -> (r: Result<(), SyncTimerError>)
        ensures
            self.spec_failed().len() == 0 <==> r is Ok,
            r matches Err(SyncTimerError::MultipleFailures { failed_cores, failed_count, total_count })
                ==> failed_cores@ == self.spec_failed() && failed_count == self.spec_failed().len()
                && total_count == self.spec_total(),
            self.spec_failed().len() > 0 ==> (r matches Err(SyncTimerError::MultipleFailures { .. })),
    {
        if self.failed.len() == 0 {
            Ok(())
        } else {
            let failed_count = self.failed.len();
            Err(
                SyncTimerError::MultipleFailures {
                    failed_cores: self.failed,
                    failed_count,
                    total_count: self.total,
                },
            )
        }
    }
}

/// What follows the failure of a sweep in `mode`: the next mode, or
/// `AllMethodsFailed` after the legacy mode.
pub fn after_failed_sweep(mode: SyncTimerMode) -> (r: Result<SyncTimerMode, SyncTimerError>)
    ensures
        spec_next_mode(mode) matches Some(n) ==> r == Ok::<SyncTimerMode, SyncTimerError>(n),
        spec_next_mode(mode) is None ==> r == Err::<SyncTimerMode, SyncTimerError>(
            SyncTimerError::AllMethodsFailed,
        ),
{
    match mode.next() {
        Some(n) => Ok(n),
        None => Err(SyncTimerError::AllMethodsFailed),
    }
}

/// The timer migration value to restore after a sweep in `mode`, given the
/// value read before it: `Some` when the sweep must run with migration
/// disabled and it was enabled.
pub fn migration_to_restore(mode: SyncTimerMode, current: u8) -> (r: Option<u8>)
    ensures
        r == if mode != SyncTimerMode::Modern && current != 0 {
            Some(current)
        } else {
            None::<u8>
        },
{
    if mode.needs_migration_disabled() && current != 0 {
        Some(current)
    } else {
        None
    }
}

pub open spec fn is_space(c: u8) -> bool {
    c == 0x20 || c == 0x09 || c == 0x0a || c == 0x0d || c == 0x0b || c == 0x0c
}

pub open spec fn is_digit(c: u8) -> bool {
    0x30 <= c <= 0x39
}

/// The decimal value of `digits`, all of which are digits.
pub open spec fn decimal_value(digits: Seq<u8>) -> int
    decreases digits.len(),
{
    if digits.len() == 0 {
        0
    } else {
        decimal_value(digits.drop_last()) * 10 + (digits.last() - 0x30)
    }
}

/// Index of the first byte at or after `i` that is not white space.
pub open spec fn skip_space(t: Seq<u8>, i: int) -> int
    decreases t.len() - i,
{
    if i >= t.len() || !is_space(t[i]) {
        i
    } else {
        skip_space(t, i + 1)
    }
}

/// End of `t[lo..j]` once trailing white space is dropped.
pub open spec fn trim_end(t: Seq<u8>, lo: int, j: int) -> int
    decreases j - lo,
{
    if j <= lo || !is_space(t[j - 1]) {
        j
    } else {
        trim_end(t, lo, j - 1)
    }
}

/// `t` without its leading and trailing white space.
pub open spec fn trimmed(t: Seq<u8>) -> Seq<u8> {
    let a = skip_space(t, 0);
    t.subrange(a, trim_end(t, a, t.len() as int))
}

/// The text holds a decimal `u8`.
pub open spec fn is_u8_text(d: Seq<u8>) -> bool {
    &&& d.len() > 0
    &&& forall|k: int| 0 <= k < d.len() ==> is_digit(#[trigger] d[k])
    &&& decimal_value(d) <= 255
}

proof fn lemma_decimal_prefix(d: Seq<u8>, k: int)
    requires
        0 <= k <= d.len(),
        forall|i: int| 0 <= i < d.len() ==> is_digit(#[trigger] d[i]),
    ensures
        decimal_value(d.take(k)) <= decimal_value(d),
        decimal_value(d) >= 0,
    decreases d.len(),
{
    if d.len() > 0 {
        let p = d.drop_last();
        assert forall|i: int| 0 <= i < p.len() implies is_digit(#[trigger] p[i]) by {
            assert(p[i] == d[i]);
        }
        if k == d.len() {
            assert(d.take(k) =~= d);
            lemma_decimal_prefix(p, 0);
        } else {
            assert(d.take(k) =~= p.take(k));
            lemma_decimal_prefix(p, k);
        }
    } else {
        assert(d.take(k) =~= d);
    }
}

/// Reads the timer migration setting from the text of its sysctl: a decimal
/// `u8` between optional white space.
pub fn parse_timer_migration(text: &[u8]) -> (r: Result<u8, ()>)
    ensures
        r is Ok <==> is_u8_text(trimmed(text@)),
        r matches Ok(v) ==> v as int == decimal_value(trimmed(text@)),
{
    let n = text.len();
    let mut a: usize = 0;
    while a < n && (text[a] == 0x20 || text[a] == 0x09 || text[a] == 0x0a || text[a] == 0x0d
        || text[a] == 0x0b || text[a] == 0x0c)
        invariant
            a <= n == text@.len(),
            skip_space(text@, 0) == skip_space(text@, a as int),
        decreases n - a,
    {
        a = a + 1;
    }
    let mut b: usize = n;
    while b > a && (text[b - 1] == 0x20 || text[b - 1] == 0x09 || text[b - 1] == 0x0a || text[b
        - 1] == 0x0d || text[b - 1] == 0x0b || text[b - 1] == 0x0c)
        invariant
            a <= b <= n == text@.len(),
            skip_space(text@, 0) == a,
            trim_end(text@, a as int, n as int) == trim_end(text@, a as int, b as int),
        decreases b,
    {
        b = b - 1;
    }
    let ghost d = text@.subrange(a as int, b as int);
    assert(d == trimmed(text@));
    if a == b {
        return Err(());
    }
    let mut value: u32 = 0;
    let mut i: usize = a;
    while i < b
        invariant
            a <= i <= b <= n == text@.len(),
            d == text@.subrange(a as int, b as int),
            d == trimmed(text@),
            value <= 255,
            forall|k: int| a <= k < i ==> is_digit(#[trigger] text@[k]),
            decimal_value(d.take(i - a)) == value as int,
        decreases b - i,
    {
        let c = text[i];
        assert(d[i - a] == c);
        if c < 0x30 || c > 0x39 {
            assert(!is_digit(d[(i - a) as int]));
            return Err(());
        }
        let next = value * 10 + (c - 0x30) as u32;
        assert(d.take(i - a + 1).drop_last() =~= d.take(i - a));
        assert(d.take(i - a + 1).last() == c);
        assert(decimal_value(d.take(i - a + 1)) == next as int);
        if next > 255 {
            proof {
                if is_u8_text(d) {
                    lemma_decimal_prefix(d, i - a + 1);
                }
            }
            return Err(());
        }
        value = next;
        i = i + 1;
    }
    assert(d.take(b - a) =~= d);
    Ok(value as u8)
}

} // verus!
