//! `Elf32_Shdr`.
use vstd::prelude::*;
use super::super::representation::{fits, read_u32, spec_u32};
use super::{Flags, SectionHeader, Type};

verus! {

/// The raw 32-bit section header, fields in file order.
#[derive(Debug, Clone, Copy, PartialEq, Eq, Structural)]
pub struct Representation {
    pub sh_name: u32,
    pub sh_type: u32,
    pub sh_flags: u32,
    pub sh_addr: u32,
    pub sh_offset: u32,
    pub sh_size: u32,
    pub sh_link: u32,
    pub sh_info: u32,
    pub sh_addralign: u32,
    pub sh_entsize: u32,
}

/// Size of `Elf32_Shdr` in bytes.
pub const SIZE: usize = 40;

impl Representation {
    pub open spec fn spec_at(b: Seq<u8>, o: int) -> Representation {
        Representation {
            sh_name: spec_u32(b, o),
            sh_type: spec_u32(b, o + 4),
            sh_flags: spec_u32(b, o + 8),
            sh_addr: spec_u32(b, o + 12),
            sh_offset: spec_u32(b, o + 16),
            sh_size: spec_u32(b, o + 20),
            sh_link: spec_u32(b, o + 24),
            sh_info: spec_u32(b, o + 28),
            sh_addralign: spec_u32(b, o + 32),
            sh_entsize: spec_u32(b, o + 36),
        }
    }

    pub fn decode(bytes: &[u8], offset: usize) -> (r: Option<Representation>)
        ensures
            r == (if fits(bytes@, offset as int, SIZE as int) {
                Some(Representation::spec_at(bytes@, offset as int))
            } else {
                None
            }),
    {
        if offset > bytes.len() || bytes.len() - offset < SIZE {
            return None;
        }
        Some(
            Representation {
                sh_name: read_u32(bytes, offset).unwrap(),
                sh_type: read_u32(bytes, offset + 4).unwrap(),
                sh_flags: read_u32(bytes, offset + 8).unwrap(),
                sh_addr: read_u32(bytes, offset + 12).unwrap(),
                sh_offset: read_u32(bytes, offset + 16).unwrap(),
                sh_size: read_u32(bytes, offset + 20).unwrap(),
                sh_link: read_u32(bytes, offset + 24).unwrap(),
                sh_info: read_u32(bytes, offset + 28).unwrap(),
                sh_addralign: read_u32(bytes, offset + 32).unwrap(),
                sh_entsize: read_u32(bytes, offset + 36).unwrap(),
            },
        )
    }
}

impl SectionHeader {
    pub open spec fn spec_from_class_32(r: Representation) -> SectionHeader {
        SectionHeader {
            name_index: r.sh_name,
            kind: Type::spec_from_raw(r.sh_type),
            flags: Flags { raw: r.sh_flags as u64 },
            address: r.sh_addr as u64,
            offset: r.sh_offset as u64,
            size: r.sh_size as u64,
            link: r.sh_link,
            information: r.sh_info,
            alignment: r.sh_addralign as u64,
            entry_size: r.sh_entsize as u64,
        }
    }

    pub fn from_class_32(r: Representation) -> (h: SectionHeader)
        ensures
            h == SectionHeader::spec_from_class_32(r),
    {
        SectionHeader {
            name_index: r.sh_name,
            kind: Type::from_raw(r.sh_type),
            flags: Flags { raw: r.sh_flags as u64 },
            address: r.sh_addr as u64,
            offset: r.sh_offset as u64,
            size: r.sh_size as u64,
            link: r.sh_link,
            information: r.sh_info,
            alignment: r.sh_addralign as u64,
            entry_size: r.sh_entsize as u64,
        }
    }
}

} // verus!
