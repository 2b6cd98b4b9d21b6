//! `Elf32_Phdr`.
use vstd::prelude::*;
use super::super::representation::{fits, read_u32, spec_u32};
use super::{Flags, ProgramHeader, Type};

verus! {

/// The raw 32-bit program header, fields in file order.
#[derive(Debug, Clone, Copy, PartialEq, Eq, Structural)]
pub struct Representation {
    pub p_type: u32,
    pub p_offset: u32,
    pub p_vaddr: u32,
    pub p_paddr: u32,
    pub p_filesz: u32,
    pub p_memsz: u32,
    pub p_flags: u32,
    pub p_align: u32,
}

/// Size of `Elf32_Phdr` in bytes.
pub const SIZE: usize = 32;

impl Representation {
    pub open spec fn spec_at(b: Seq<u8>, o: int) -> Representation {
        Representation {
            p_type: spec_u32(b, o),
            p_offset: spec_u32(b, o + 4),
            p_vaddr: spec_u32(b, o + 8),
            p_paddr: spec_u32(b, o + 12),
            p_filesz: spec_u32(b, o + 16),
            p_memsz: spec_u32(b, o + 20),
            p_flags: spec_u32(b, o + 24),
            p_align: spec_u32(b, o + 28),
        }
    }

    pub fn decode(bytes: &[u8], offset: usize) -> (r: Option<Representation>)
        ensures
            r == (if fits(bytes@, offset as int, SIZE as int) {
                Some(Representation::spec_at(bytes@, offset as int))
            } else {
                None
            }),
    {
        if offset > bytes.len() || bytes.len() - offset < SIZE {
            return None;
        }
        Some(
            Representation {
                p_type: read_u32(bytes, offset).unwrap(),
                p_offset: read_u32(bytes, offset + 4).unwrap(),
                p_vaddr: read_u32(bytes, offset + 8).unwrap(),
                p_paddr: read_u32(bytes, offset + 12).unwrap(),
                p_filesz: read_u32(bytes, offset + 16).unwrap(),
                p_memsz: read_u32(bytes, offset + 20).unwrap(),
                p_flags: read_u32(bytes, offset + 24).unwrap(),
                p_align: read_u32(bytes, offset + 28).unwrap(),
            },
        )
    }
}

impl ProgramHeader {
    pub open spec fn spec_from_class_32(r: Representation) -> ProgramHeader {
        ProgramHeader {
            kind: Type::spec_from_raw(r.p_type),
            flags: Flags { raw: r.p_flags },
            offset: r.p_offset as u64,
            virtual_address: r.p_vaddr as u64,
            physical_address: r.p_paddr as u64,
            file_size: r.p_filesz as u64,
            memory_size: r.p_memsz as u64,
            alignment: r.p_align as u64,
        }
    }

    pub fn from_class_32(r: Representation) -> (h: ProgramHeader)
        ensures
            h == ProgramHeader::spec_from_class_32(r),
    {
        ProgramHeader {
            kind: Type::from_raw(r.p_type),
            flags: Flags { raw: r.p_flags },
            offset: r.p_offset as u64,
            virtual_address: r.p_vaddr as u64,
            physical_address: r.p_paddr as u64,
            file_size: r.p_filesz as u64,
            memory_size: r.p_memsz as u64,
            alignment: r.p_align as u64,
        }
    }
}

} // verus!
