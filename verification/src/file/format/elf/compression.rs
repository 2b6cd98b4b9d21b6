//! ELF compressed-section header (`Elf_Chdr`).
pub mod class_32;
pub mod class_64;

use vstd::prelude::*;

verus! {

/// Compression algorithm (`ch_type`).
#[derive(Debug, Clone, Copy, PartialEq, Eq, Structural)]
pub enum Type {
    Zlib,
    Zstandard,
    Other(u32),
}

impl Type {
    pub open spec fn spec_from_raw(raw: u32) -> Type {
        if raw == 1 {
            Type::Zlib
        } else if raw == 2 {
            Type::Zstandard
        } else {
            Type::Other(raw)
        }
    }

    pub fn from_raw(raw: u32) -> (r: Type)
        ensures
            r == Type::spec_from_raw(raw),
    {
        match raw {
            1 => Type::Zlib,
            2 => Type::Zstandard,
            _ => Type::Other(raw),
        }
    }
}

#[derive(Debug, Clone, Copy, PartialEq, Eq, Structural)]
pub struct CompressionHeader {
    pub kind: Type,
    pub uncompressed_size: u64,
    pub alignment: u64,
}

/// A compressed section: its header and the compressed bytes after it.
#[derive(Debug, Clone, Copy)]
pub struct CompressedSection<'file> {
    pub header: CompressionHeader,
    pub data: &'file [u8],
}

impl<'file> CompressedSection<'file> {
    pub fn new(header: CompressionHeader, data: &'file [u8]) -> (r: CompressedSection<'file>)
        ensures
            r.header == header,
            r.data@ == data@,
    {
        CompressedSection { header, data }
    }
}

} // verus!
