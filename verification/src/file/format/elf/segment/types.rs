//! What loading a program produces.
use vstd::prelude::*;
use vstd::string::StringSliceAdditionalSpecFns;
use vstd::utf8::valid_utf8;
use super::super::program_header::ProgramHeader;
use super::super::string_table::utf8_str;

verus! {

/// A `PT_LOAD` segment as it was placed in memory.
#[derive(Debug, Clone, Copy)]
pub struct LoadedSegment {
    pub index: usize,
    pub address: u64,
    pub virtual_address: u64,
    pub file_offset: u64,
    pub file_size: u64,
    pub memory_size: u64,
    pub flags: u32,
    pub alignment: u64,
    pub map_start: u64,
    pub map_end: u64,
}

/// The pathname a `PT_INTERP` segment names, without its terminator.
#[derive(Debug, Clone)]
pub struct InterpreterPath {
    pub bytes: Vec<u8>,
}

impl InterpreterPath {
    pub fn new(bytes: Vec<u8>) -> (r: InterpreterPath)
        ensures
            r.bytes@ == bytes@,
    {
        InterpreterPath { bytes }
    }

    /// The pathname as a string, when it is valid UTF-8.
    pub fn as_str(&self) -> (r: Option<&str>)
        ensures
            r is Some <==> valid_utf8(self.bytes@),
            r matches Some(s) ==> s.spec_bytes() == self.bytes@,
    {
        utf8_str(self.bytes.as_slice())
    }
}

/// A program placed in memory.
#[derive(Debug, Clone)]
pub struct LoadedImage {
    /// The address execution starts at, relocated by `base`.
    pub entry: u64,
    /// What was added to every link-time virtual address.
    pub base: u64,
    /// The end of the memory image.
    pub end: u64,
    /// Whether the program can be entered directly: a static executable
    /// whose entry lies in an executable segment.
    pub direct_entry: bool,
    pub phdr: u64,
    pub phent: u64,
    pub phnum: u64,
    pub interpreter: Option<InterpreterPath>,
    pub dynamic: bool,
    pub segments: Vec<LoadedSegment>,
    pub segment_count: usize,
}

/// A loaded program with the entry point and initial stack to start it.
#[derive(Debug, Clone)]
pub struct PreparedExecution {
    pub image: LoadedImage,
    pub entry: u64,
    pub stack_pointer: usize,
}

/// Where one `PT_LOAD` segment goes: the page-aligned mapping, the file
/// bytes it starts from and the end of its memory image.
#[derive(Clone, Copy)]
pub struct SegmentLoadingPlan {
    pub header: ProgramHeader,
    pub address: u64,
    pub map_start: u64,
    pub map_end: u64,
    pub file_start: u64,
    pub memory_end: u64,
}

} // verus!
