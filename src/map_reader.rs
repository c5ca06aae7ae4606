use vstd::prelude::*;
use crate::reader::Reader;

verus! {

/// The reader over the per-CPU rings of a perf event map, with the file
/// descriptors of the perf events that feed them.
pub struct PerfMapReader {
    reader: Reader,
    file_descriptors: Vec<i32>,
}

impl PerfMapReader {
    pub closed spec fn spec_reader(&self) -> Reader {
        self.reader
    }

    pub closed spec fn spec_fds(&self) -> Seq<i32> {
        self.file_descriptors@
    }

    /// Wraps a reader whose ring `i` is fed by `file_descriptors[i]`.
    pub fn from_parts(reader: Reader, file_descriptors: Vec<i32>) -> (r: Self)
        ensures
            r.spec_reader() == reader,
            r.spec_fds() == file_descriptors@,
    {
        PerfMapReader { reader, file_descriptors }
    }

    /// The reader.
    pub fn reader(&self) -> (r: &Reader)
        ensures
            *r == self.spec_reader(),
    {
        &self.reader
    }

    /// The reader, to read from.
    pub fn reader_mut(&mut self) -> (r: &mut Reader)
        ensures
            *r == old(self).spec_reader(),
            final(self).spec_reader() == *final(r),
            final(self).spec_fds() == old(self).spec_fds(),
    {
        &mut self.reader
    }

    /// The file descriptors of the perf events.
    pub fn file_descriptors(&self) -> (r: &Vec<i32>)
        ensures
            r@ == self.spec_fds(),
    {
        &self.file_descriptors
    }
}

} // verus!
