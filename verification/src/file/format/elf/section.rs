//! ELF section contents.
use vstd::prelude::*;
use super::section_header::SectionHeader;

verus! {

/// A section header together with the bytes it describes.
#[derive(Debug, Clone, Copy)]
pub struct Section<'file> {
    pub header: SectionHeader,
    pub contents: &'file [u8],
}

impl<'file> Section<'file> {
    pub fn new(header: SectionHeader, contents: &'file [u8]) -> (r: Section<'file>)
        ensures
            r.header == header,
            r.contents@ == contents@,
    {
        Section { header, contents }
    }

    pub fn is_empty(&self) -> (r: bool)
        ensures
            r == (self.contents@.len() == 0),
    {
        self.contents.len() == 0
    }

    pub fn len(&self) -> (r: usize)
        ensures
            r == self.contents@.len(),
    {
        self.contents.len()
    }
}

} // verus!
