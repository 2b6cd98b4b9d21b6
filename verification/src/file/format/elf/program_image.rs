//! ELF program image described by `PT_LOAD` entries.
//!
//! This module represents what the ELF object requires in memory. It does not
//! choose operating-system mapping calls or translate `p_flags` into an OS
//! protection API.
use vstd::prelude::*;
use super::program_header::Flags;

verus! {

#[derive(Debug, Clone, Copy, PartialEq, Eq, Structural)]
pub enum Error {
    FileImageLargerThanMemoryImage { index: usize },
    FileImageUnavailable { index: usize },
    VirtualAddressRangeOverflow { index: usize },
}

/// The part of a segment's memory image past its file image, which is
/// filled with zero bytes.
#[derive(Debug, Clone, Copy, PartialEq, Eq, Structural)]
pub struct ZeroFill {
    pub link_time_virtual_address: u64,
    pub size: u64,
}

impl ZeroFill {
    pub fn new(link_time_virtual_address: u64, size: u64) -> (r: ZeroFill)
        ensures
            r == (ZeroFill { link_time_virtual_address, size }),
    {
        ZeroFill { link_time_virtual_address, size }
    }

    pub fn is_empty(self) -> (r: bool)
        ensures
            r == (self.size == 0),
    {
        self.size == 0
    }
}

/// A loadable segment as the program image needs it.
#[derive(Debug, Clone, Copy)]
pub struct Segment<'file> {
    pub program_header_index: usize,
    pub link_time_virtual_address: u64,
    pub file_image: &'file [u8],
    pub zero_fill: ZeroFill,
    pub flags: Flags,
    pub alignment: u64,
    pub link_time_end_virtual_address: u64,
}

impl<'file> Segment<'file> {
    /// The size of the segment in memory: its file image and its zero fill.
    pub fn memory_size(&self) -> (r: u64)
        requires
            self.file_image@.len() + self.zero_fill.size <= u64::MAX,
        ensures
            r == self.file_image@.len() + self.zero_fill.size,
    {
        self.file_image.len() as u64 + self.zero_fill.size
    }
}

/// The loadable segments of a program, in program-header order.
#[derive(Debug)]
pub struct ProgramImage<'file> {
    pub segments: Vec<Segment<'file>>,
}

impl<'file> ProgramImage<'file> {
    pub fn new(segments: Vec<Segment<'file>>) -> (r: ProgramImage<'file>)
        ensures
            r.segments@ == segments@,
    {
        ProgramImage { segments }
    }

    pub fn len(&self) -> (r: usize)
        ensures
            r == self.segments@.len(),
    {
        self.segments.len()
    }

    pub fn is_empty(&self) -> (r: bool)
        ensures
            r == (self.segments@.len() == 0),
    {
        self.segments.len() == 0
    }

    /// The segments, in program-header order.
    pub fn iter(&self) -> (r: &[Segment<'file>])
        ensures
            r@ == self.segments@,
    {
        self.segments.as_slice()
    }
}

} // verus!
