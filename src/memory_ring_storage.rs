use vstd::prelude::*;

verus! {

/// Errors of ring storage.
#[derive(Debug, Clone, Copy, PartialEq, Eq, Structural)]
pub enum RingStorageError {
    /// An operating system error, with its `errno`.
    OsError(i32),
    /// The storage would not fit in memory.
    TooLarge,
}

/// Relies on page_size::get: the memory page size of this machine, which the
/// crate reads once from the operating system. Nothing is promised of it.
#[verifier::external_body]
fn system_page_size() -> (r: usize) {
    page_size::get()
}

/// A ring's backing storage in ordinary memory: one metadata page followed by
/// the data pages, all zero at first.
pub struct MemoryRingStorage {
    data: Vec<u8>,
    n_data_pages: u32,
    page_size: u64,
}

impl MemoryRingStorage {
    pub closed spec fn spec_data(&self) -> Seq<u8> {
        self.data@
    }

    pub closed spec fn spec_pages(&self) -> u32 {
        self.n_data_pages
    }

    pub closed spec fn spec_page_size(&self) -> u64 {
        self.page_size
    }

    /// Storage for `n_pages` data pages of the system's page size.
    pub fn new(n_pages: u32) -> (r: Result<Self, RingStorageError>)
        ensures
            r matches Ok(s) ==> s.spec_pages() == n_pages && s.spec_data().len() == s.spec_page_size()
                * (1 + n_pages) && forall|i: int|
                0 <= i < s.spec_data().len() ==> #[trigger] s.spec_data()[i] == 0u8,
    {
        let page_size = system_page_size();
        MemoryRingStorage::with_page_size(n_pages, page_size as u64)
    }

    /// Storage for `n_pages` data pages of `page_size` bytes, after one
    /// metadata page; `TooLarge` when that many bytes cannot be addressed.
    pub fn with_page_size(n_pages: u32, page_size: u64) -> (r: Result<Self, RingStorageError>)
        ensures
            page_size as int * (1 + n_pages) <= usize::MAX ==> (r matches Ok(s) && s.spec_pages()
                == n_pages && s.spec_page_size() == page_size && s.spec_data().len() == page_size
                * (1 + n_pages) && forall|i: int|
                0 <= i < s.spec_data().len() ==> #[trigger] s.spec_data()[i] == 0u8),
            page_size as int * (1 + n_pages) > usize::MAX ==> r == Err::<Self, RingStorageError>(
                RingStorageError::TooLarge,
            ),
    {
        proof {
            let a = page_size as int;
            let b = 1 + n_pages as int;
            assert(a * b <= 0xffff_ffff_ffff_ffff * 0x1_0000_0000) by (nonlinear_arith)
                requires
                    0 <= a <= 0xffff_ffff_ffff_ffff,
                    0 <= b <= 0x1_0000_0000,
            ;
        }
        let total: u128 = page_size as u128 * (1 + n_pages as u128);
        if total > usize::MAX as u128 {
            return Err(RingStorageError::TooLarge);
        }
        let data: Vec<u8> = vec![0u8; total as usize];
        Ok(MemoryRingStorage { data, n_data_pages: n_pages, page_size })
    }

    /// The metadata page followed by the data pages.
    pub fn data(&self) -> (r: &[u8])
        ensures
            r@ == self.spec_data(),
    {
        self.data.as_slice()
    }

    /// Number of data pages.
    pub fn num_data_pages(&self) -> (r: u32)
        ensures
            r == self.spec_pages(),
    {
        self.n_data_pages
    }

    /// Size of a page in bytes.
    pub fn page_size(&self) -> (r: u64)
        ensures
            r == self.spec_page_size(),
    {
        self.page_size
    }

    /// Storage in memory has no file descriptor.
    pub fn file_descriptor(&self) -> (r: i32)
        ensures
            r == -1,
    {
        -1
    }
}

} // verus!
