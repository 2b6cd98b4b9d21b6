//! A `PT_LOAD` segment whose file image fits in its memory image.
use vstd::prelude::*;
use super::program_header::ProgramHeader;

verus! {

#[derive(Debug, Clone, Copy)]
pub struct LoadableSegment<'file> {
    pub program_header: ProgramHeader,
    pub file_image: &'file [u8],
}

impl<'file> LoadableSegment<'file> {
    pub fn new(program_header: ProgramHeader, file_image: &'file [u8]) -> (r: LoadableSegment<'file>)
        ensures
            r.program_header == program_header,
            r.file_image@ == file_image@,
    {
        LoadableSegment { program_header, file_image }
    }

    /// Bytes copied from the file (`p_filesz`).
    pub fn file_size(&self) -> (r: u64)
        ensures
            r == self.program_header.file_size,
    {
        self.program_header.file_size
    }

    /// Bytes the segment occupies in memory (`p_memsz`).
    pub fn memory_size(&self) -> (r: u64)
        ensures
            r == self.program_header.memory_size,
    {
        self.program_header.memory_size
    }

    /// Bytes of memory past the file image that are filled with zeros.
    pub fn zero_fill_size(&self) -> (r: u64)
        ensures
            self.program_header.file_size <= self.program_header.memory_size ==> r == self.program_header.memory_size - self.program_header.file_size,
            self.program_header.file_size > self.program_header.memory_size ==> r == 0,
    {
        self.program_header.memory_size.saturating_sub(self.program_header.file_size)
    }

    /// Required alignment of the segment (`p_align`).
    pub fn alignment(&self) -> (r: u64)
        ensures
            r == self.program_header.alignment,
    {
        self.program_header.alignment
    }
}

} // verus!
