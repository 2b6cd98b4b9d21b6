//! ELF segments: a program header together with its file image, and the
//! decisions taken while loading segments into memory.
pub mod error;
pub mod load;
pub mod types;

pub use error::Error;

use vstd::prelude::*;
use super::program_header::ProgramHeader;

verus! {

/// A program header together with the file bytes of its segment.
#[derive(Debug, Clone, Copy)]
pub struct Segment<'file> {
    pub program_header: ProgramHeader,
    pub file_image: &'file [u8],
}

impl<'file> Segment<'file> {
    pub fn new(program_header: ProgramHeader, file_image: &'file [u8]) -> (r: Segment<'file>)
        ensures
            r.program_header == program_header,
            r.file_image@ == file_image@,
    {
        Segment { program_header, file_image }
    }
}

} // verus!
