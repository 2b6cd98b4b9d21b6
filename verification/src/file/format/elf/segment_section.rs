//! Relationship between an allocated section and a loadable segment.
use vstd::prelude::*;
use super::section_header::SectionHeader;

verus! {

/// What a section contributes to a segment's image.
#[derive(Debug, Clone, Copy, PartialEq, Eq, Structural)]
pub enum ImageContribution {
    FileAndMemory,
    MemoryOnly,
}

#[derive(Debug, Clone, Copy)]
pub struct SegmentSection {
    pub section_index: usize,
    pub section_header: SectionHeader,
    pub contribution: ImageContribution,
}

impl SegmentSection {
    pub fn new(section_index: usize, section_header: SectionHeader, contribution: ImageContribution) -> (r: SegmentSection)
        ensures
            r.section_index == section_index,
            r.section_header == section_header,
            r.contribution == contribution,
    {
        SegmentSection { section_index, section_header, contribution }
    }
}

} // verus!
