//! `Elf64_Phdr`.
use vstd::prelude::*;
use super::super::representation::{fits, read_u32, read_u64, spec_u32, spec_u64};
use super::{Flags, ProgramHeader, Type};

verus! {

/// The raw 64-bit program header, fields in file order.
#[derive(Debug, Clone, Copy, PartialEq, Eq, Structural)]
pub struct Representation {
    pub p_type: u32,
    pub p_flags: u32,
    pub p_offset: u64,
    pub p_vaddr: u64,
    pub p_paddr: u64,
    pub p_filesz: u64,
    pub p_memsz: u64,
    pub p_align: u64,
}

/// Size of `Elf64_Phdr` in bytes.
pub const SIZE: usize = 56;

impl Representation {
    pub open spec fn spec_at(b: Seq<u8>, o: int) -> Representation {
        Representation {
            p_type: spec_u32(b, o),
            p_flags: spec_u32(b, o + 4),
            p_offset: spec_u64(b, o + 8),
            p_vaddr: spec_u64(b, o + 16),
            p_paddr: spec_u64(b, o + 24),
            p_filesz: spec_u64(b, o + 32),
            p_memsz: spec_u64(b, o + 40),
            p_align: spec_u64(b, o + 48),
        }
    }

    pub fn decode(bytes: &[u8], offset: usize) -> (r: Option<Representation>)
        ensures
            r == (if fits(bytes@, offset as int, SIZE as int) {
                Some(Representation::spec_at(bytes@, offset as int))
            } else {
                None
            }),
    {
        if offset > bytes.len() || bytes.len() - offset < SIZE {
            return None;
        }
        Some(
            Representation {
                p_type: read_u32(bytes, offset).unwrap(),
                p_flags: read_u32(bytes, offset + 4).unwrap(),
                p_offset: read_u64(bytes, offset + 8).unwrap(),
                p_vaddr: read_u64(bytes, offset + 16).unwrap(),
                p_paddr: read_u64(bytes, offset + 24).unwrap(),
                p_filesz: read_u64(bytes, offset + 32).unwrap(),
                p_memsz: read_u64(bytes, offset + 40).unwrap(),
                p_align: read_u64(bytes, offset + 48).unwrap(),
            },
        )
    }
}

impl ProgramHeader {
    pub open spec fn spec_from_class_64(r: Representation) -> ProgramHeader {
        ProgramHeader {
            kind: Type::spec_from_raw(r.p_type),
            flags: Flags { raw: r.p_flags },
            offset: r.p_offset,
            virtual_address: r.p_vaddr,
            physical_address: r.p_paddr,
            file_size: r.p_filesz,
            memory_size: r.p_memsz,
            alignment: r.p_align,
        }
    }

    pub fn from_class_64(r: Representation) -> (h: ProgramHeader)
        ensures
            h == ProgramHeader::spec_from_class_64(r),
    {
        ProgramHeader {
            kind: Type::from_raw(r.p_type),
            flags: Flags { raw: r.p_flags },
            offset: r.p_offset,
            virtual_address: r.p_vaddr,
            physical_address: r.p_paddr,
            file_size: r.p_filesz,
            memory_size: r.p_memsz,
            alignment: r.p_align,
        }
    }
}

} // verus!
