//! The `PT_PHDR` segment: the program-header table as loaded in memory.
use vstd::prelude::*;
use super::program_header::ProgramHeader;

verus! {

#[derive(Debug, Clone, Copy)]
pub struct ProgramHeaderTableImage<'file> {
    pub program_header: ProgramHeader,
    pub bytes: &'file [u8],
}

impl<'file> ProgramHeaderTableImage<'file> {
    pub fn new(program_header: ProgramHeader, bytes: &'file [u8]) -> (r: ProgramHeaderTableImage<'file>)
        ensures
            r.program_header == program_header,
            r.bytes@ == bytes@,
    {
        ProgramHeaderTableImage { program_header, bytes }
    }
}

} // verus!
