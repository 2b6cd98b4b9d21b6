//! The `PT_TLS` segment: the initialization template of thread-local storage.
use vstd::prelude::*;
use super::program_header::ProgramHeader;

verus! {

#[derive(Debug, Clone, Copy)]
pub struct Template<'file> {
    pub program_header: ProgramHeader,
    pub initialization_image: &'file [u8],
}

impl<'file> Template<'file> {
    pub fn new(program_header: ProgramHeader, initialization_image: &'file [u8]) -> (r: Template<'file>)
        ensures
            r.program_header == program_header,
            r.initialization_image@ == initialization_image@,
    {
        Template { program_header, initialization_image }
    }

    /// Bytes initialized from the file image (`p_filesz`).
    pub fn initialization_size(&self) -> (r: u64)
        ensures
            r == self.program_header.file_size,
    {
        self.program_header.file_size
    }

    /// Bytes of one thread's block (`p_memsz`).
    pub fn total_size(&self) -> (r: u64)
        ensures
            r == self.program_header.memory_size,
    {
        self.program_header.memory_size
    }

    /// Bytes of the block past the initialization image, zero-filled.
    pub fn zero_fill_size(&self) -> (r: u64)
        ensures
            self.program_header.file_size <= self.program_header.memory_size ==> r == self.program_header.memory_size - self.program_header.file_size,
            self.program_header.file_size > self.program_header.memory_size ==> r == 0,
    {
        self.program_header.memory_size.saturating_sub(self.program_header.file_size)
    }

    pub fn alignment(&self) -> (r: u64)
        ensures
            r == self.program_header.alignment,
    {
        self.program_header.alignment
    }
}

} // verus!
