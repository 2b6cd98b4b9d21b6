//! `Elf64_Sym`.
use vstd::prelude::*;
use super::super::representation::{fits, read_u16, read_u32, read_u64, read_u8, spec_u16, spec_u32, spec_u64};
use super::Symbol;

verus! {

/// The raw 64-bit symbol, fields in file order.
#[derive(Debug, Clone, Copy, PartialEq, Eq, Structural)]
pub struct Representation {
    pub st_name: u32,
    pub st_info: u8,
    pub st_other: u8,
    pub st_shndx: u16,
    pub st_value: u64,
    pub st_size: u64,
}

/// Size of `Elf64_Sym` in bytes.
pub const SIZE: usize = 24;

impl Representation {
    pub open spec fn spec_at(b: Seq<u8>, o: int) -> Representation {
        Representation {
            st_name: spec_u32(b, o),
            st_info: b[o + 4],
            st_other: b[o + 5],
            st_shndx: spec_u16(b, o + 6),
            st_value: spec_u64(b, o + 8),
            st_size: spec_u64(b, o + 16),
        }
    }

    pub fn decode(bytes: &[u8], offset: usize) -> (r: Option<Representation>)
        ensures
            r == (if fits(bytes@, offset as int, SIZE as int) {
                Some(Representation::spec_at(bytes@, offset as int))
            } else {
                None
            }),
    {
        if offset > bytes.len() || bytes.len() - offset < SIZE {
            return None;
        }
        Some(
            Representation {
                st_name: read_u32(bytes, offset).unwrap(),
                st_info: read_u8(bytes, offset + 4).unwrap(),
                st_other: read_u8(bytes, offset + 5).unwrap(),
                st_shndx: read_u16(bytes, offset + 6).unwrap(),
                st_value: read_u64(bytes, offset + 8).unwrap(),
                st_size: read_u64(bytes, offset + 16).unwrap(),
            },
        )
    }
}

impl Symbol {
    pub open spec fn spec_from_class_64(r: Representation) -> Symbol {
        Symbol::spec_from_fields(r.st_name, r.st_value, r.st_size, r.st_info, r.st_other, r.st_shndx)
    }

    pub fn from_class_64(r: Representation) -> (s: Symbol)
        ensures
            s == Symbol::spec_from_class_64(r),
    {
        Symbol::from_fields(r.st_name, r.st_value, r.st_size, r.st_info, r.st_other, r.st_shndx)
    }
}

} // verus!
