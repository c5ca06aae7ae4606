use vstd::prelude::*;

verus! {

/// Configuration of the parquet writer.
pub struct ParquetWriterConfig {
    /// Prepended to every file name as it is, with no separator added
    pub storage_prefix: String,
    /// In-memory size in bytes at which the open row group is flushed
    pub buffer_size: usize,
    /// File size in bytes at which the file is closed and a new one opened
    pub file_size_limit: usize,
    /// Largest row group, in rows
    pub max_row_group_size: usize,
    /// Total bytes that all files together may take, if limited
    pub storage_quota: Option<usize>,
}

impl Default for ParquetWriterConfig {
    fn default() -> (r: Self)
        ensures
            r.storage_prefix@ == "metrics-"@,
            r.buffer_size == 100 * 1024 * 1024,
            r.file_size_limit == 1024 * 1024 * 1024,
            r.max_row_group_size == 1024 * 1024,
            r.storage_quota is None,
    {
        ParquetWriterConfig {
            storage_prefix: String::from_str("metrics-"),
            buffer_size: 100 * 1024 * 1024,
            file_size_limit: 1024 * 1024 * 1024,
            max_row_group_size: 1024 * 1024,
            storage_quota: None,
        }
    }
}

/// The name of a new file: the prefix, the UTC time stamp, a dash, the first
/// eight characters of a random identifier, and `.parquet`.
pub open spec fn spec_file_name(prefix: Seq<char>, stamp: Seq<char>, id: Seq<char>) -> Seq<char> {
    let short = if id.len() >= 8 {
        id.subrange(0, 8)
    } else {
        id
    };
    prefix + stamp + "-"@ + short + ".parquet"@
}

/// Builds the name of a new file from the configured prefix, a time stamp
/// such as `20240131T235959Z`, and a random identifier.
pub fn file_name(prefix: &str, stamp: &str, id: &str) -> (r: String)
    ensures
        r@ == spec_file_name(prefix@, stamp@, id@),
{
    let mut name = String::from_str(prefix);
    name.append(stamp);
    name.append("-");
    let n = id.unicode_len();
    if n >= 8 {
        name.append(id.substring_char(0, 8));
    } else {
        name.append(id);
    }
    name.append(".parquet");
    name
}

/// What the writer's size accounting holds.
pub struct WriterSizes {
    /// Compressed bytes of all closed files
    pub closed: nat,
    /// Compressed bytes of the flushed row groups of the open file
    pub flushed: nat,
    /// Row groups flushed in the open file
    pub flushed_count: nat,
    /// Bytes that the open file holds in memory
    pub in_memory: nat,
    /// Whether a file is open
    pub file_open: bool,
    /// The quota, if any
    pub quota: Option<nat>,
    pub buffer_size: nat,
    pub file_size_limit: nat,
}

impl WriterSizes {
    /// Every byte accounted so far, closed and open.
    pub open spec fn total(self) -> nat {
        self.closed + self.flushed + self.in_memory
    }

    pub open spec fn below_quota(self) -> bool {
        match self.quota {
            Some(q) => self.total() < q,
            None => true,
        }
    }
}

/// What to do with a record batch that arrives.
#[derive(Debug, Clone, Copy, PartialEq, Eq, Structural)]
pub enum BatchDecision {
    /// Write it to the open file.
    Write,
    /// The quota is reached: drop it.
    Drop,
    /// No file is open.
    NoWriter,
}

/// What to do after a batch was written and the sizes refreshed.
#[derive(Debug, Clone, Copy, PartialEq, Eq, Structural)]
pub enum AfterWrite {
    /// The quota is crossed: close the file and write no more.
    StopForQuota,
    /// Too much is held in memory: flush, then ask whether to rotate.
    Flush,
    /// Ask whether to rotate.
    CheckRotation,
}

/// The size accounting of the parquet writer, and the decisions of its
/// quota, flush and rotation policy. The caller does the writing and
/// reports the sizes that the encoder gives.
pub struct WriterPolicy {
    closed_files_size: usize,
    flushed_row_groups_size: usize,
    flushed_row_groups_count: usize,
    in_memory_size: usize,
    file_open: bool,
    storage_quota: Option<usize>,
    buffer_size: usize,
    file_size_limit: usize,
}

impl View for WriterPolicy {
    type V = WriterSizes;

    closed spec fn view(&self) -> WriterSizes {
        WriterSizes {
            closed: self.closed_files_size as nat,
            flushed: self.flushed_row_groups_size as nat,
            flushed_count: self.flushed_row_groups_count as nat,
            in_memory: self.in_memory_size as nat,
            file_open: self.file_open,
            quota: match self.storage_quota {
                Some(q) => Some(q as nat),
                None => None,
            },
            buffer_size: self.buffer_size as nat,
            file_size_limit: self.file_size_limit as nat,
        }
    }
}

impl WriterPolicy {
    /// Accounting for a writer with `config`, before any file is opened.
    pub fn new(config: &ParquetWriterConfig) -> (r: Self)
        ensures
            r@.closed == 0 && r@.flushed == 0 && r@.flushed_count == 0 && r@.in_memory == 0,
            !r@.file_open,
            r@.quota == match config.storage_quota {
                Some(q) => Some(q as nat),
                None => None::<nat>,
            },
            r@.buffer_size == config.buffer_size,
            r@.file_size_limit == config.file_size_limit,
    {
        WriterPolicy {
            closed_files_size: 0,
            flushed_row_groups_size: 0,
            flushed_row_groups_count: 0,
            in_memory_size: 0,
            file_open: false,
            storage_quota: config.storage_quota,
            buffer_size: config.buffer_size,
            file_size_limit: config.file_size_limit,
        }
    }

    /// Whether the bytes accounted so far are below the quota.
    pub fn is_below_quota(&self) -> (r: bool)
        ensures
            r == self@.below_quota(),
    {
        match self.storage_quota {
            Some(quota) => {
                let total: u128 = self.closed_files_size as u128 + self.flushed_row_groups_size as u128
                    + self.in_memory_size as u128;
                total < quota as u128
            },
            None => true,
        }
    }

    /// Whether a new file may be opened: none is open and the quota is not reached.
    pub fn may_open_file(&self) -> (r: bool)
        ensures
            r == (!self@.file_open && self@.below_quota()),
    {
        !self.file_open && self.is_below_quota()
    }

    /// A new file was opened: it holds nothing yet.
    pub fn on_file_opened(&mut self)
        ensures
            final(self)@ == (WriterSizes {
                file_open: true,
                flushed: 0,
                flushed_count: 0,
                in_memory: 0,
                ..old(self)@
            }),
    {
        self.file_open = true;
        self.flushed_row_groups_size = 0;
        self.flushed_row_groups_count = 0;
        self.in_memory_size = 0;
    }

    /// What to do with an arriving batch.
    pub fn on_batch(&self) -> (r: BatchDecision)
        ensures
            !self@.below_quota() ==> r == BatchDecision::Drop,
            self@.below_quota() && !self@.file_open ==> r == BatchDecision::NoWriter,
            self@.below_quota() && self@.file_open ==> r == BatchDecision::Write,
    {
        if !self.is_below_quota() {
            BatchDecision::Drop
        } else if !self.file_open {
            BatchDecision::NoWriter
        } else {
            BatchDecision::Write
        }
    }

    /// The sizes that the encoder reports for the open file.
    pub fn update_sizes(&mut self, flushed_size: usize, flushed_count: usize, in_memory: usize)
        ensures
            final(self)@ == (WriterSizes {
                flushed: flushed_size as nat,
                flushed_count: flushed_count as nat,
                in_memory: in_memory as nat,
                ..old(self)@
            }),
    {
        self.flushed_row_groups_size = flushed_size;
        self.flushed_row_groups_count = flushed_count;
        self.in_memory_size = in_memory;
    }

    /// What to do after a batch was written and the sizes refreshed.
    pub fn after_write(&self) -> (r: AfterWrite)
        ensures
            !self@.below_quota() ==> r == AfterWrite::StopForQuota,
            self@.below_quota() && self@.in_memory >= self@.buffer_size ==> r == AfterWrite::Flush,
            self@.below_quota() && self@.in_memory < self@.buffer_size ==> r
                == AfterWrite::CheckRotation,
    {
        if !self.is_below_quota() {
            AfterWrite::StopForQuota
        } else if self.in_memory_size >= self.buffer_size {
            AfterWrite::Flush
        } else {
            AfterWrite::CheckRotation
        }
    }

    /// Whether the open file reached its size limit and is to be replaced.
    pub fn should_rotate(&self) -> (r: bool)
        ensures
            r == (self@.file_open && self@.flushed + self@.in_memory >= self@.file_size_limit),
    {
        self.file_open && self.flushed_row_groups_size as u128 + self.in_memory_size as u128
            >= self.file_size_limit as u128
    }

    /// The open file was closed with `compressed` bytes in its row groups.
    pub fn on_file_closed(&mut self, compressed: usize)
        ensures
            final(self)@ == (WriterSizes {
                closed: if old(self)@.closed + compressed <= usize::MAX {
                    (old(self)@.closed + compressed) as nat
                } else {
                    usize::MAX as nat
                },
                flushed: 0,
                flushed_count: 0,
                in_memory: 0,
                file_open: false,
                ..old(self)@
            }),
    {
        self.closed_files_size = if self.closed_files_size <= usize::MAX - compressed {
            self.closed_files_size + compressed
        } else {
            usize::MAX
        };
        self.flushed_row_groups_size = 0;
        self.flushed_row_groups_count = 0;
        self.in_memory_size = 0;
        self.file_open = false;
    }

    /// The quota was crossed and the file closed: the closed size is pinned
    /// to the quota, so that every later check finds the quota reached.
    pub fn on_quota_reached(&mut self)
        requires
            !old(self)@.file_open,
        ensures
            final(self)@ == (WriterSizes {
                closed: match old(self)@.quota {
                    Some(q) => q,
                    None => old(self)@.closed,
                },
                ..old(self)@
            }),
    {
        match self.storage_quota {
            Some(q) => {
                self.closed_files_size = q;
            },
            None => {},
        }
    }
}

/// Once the closed size is pinned at the quota, the quota stays reached
/// whatever sizes the encoder reports and whatever a close adds: every later
/// batch is dropped and no file is opened again.
pub proof fn lemma_quota_is_final(
    s: WriterSizes,
    q: nat,
    flushed: nat,
    count: nat,
    in_memory: nat,
    compressed: nat,
)
    requires
        s.quota == Some(q),
        s.closed >= q,
        q <= usize::MAX,
    ensures
        !s.below_quota(),
        !(WriterSizes { flushed, flushed_count: count, in_memory, ..s }).below_quota(),
        !(WriterSizes {
            closed: if s.closed + compressed <= usize::MAX {
                (s.closed + compressed) as nat
            } else {
                usize::MAX as nat
            },
            flushed: 0,
            flushed_count: 0,
            in_memory: 0,
            file_open: false,
            ..s
        }).below_quota(),
{
}

} // verus!
