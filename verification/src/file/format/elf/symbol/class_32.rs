//! `Elf32_Sym`.
use vstd::prelude::*;
use super::super::representation::{fits, read_u16, read_u32, read_u8, spec_u16, spec_u32};
use super::Symbol;

verus! {

/// The raw 32-bit symbol, fields in file order.
#[derive(Debug, Clone, Copy, PartialEq, Eq, Structural)]
pub struct Representation {
    pub st_name: u32,
    pub st_value: u32,
    pub st_size: u32,
    pub st_info: u8,
    pub st_other: u8,
    pub st_shndx: u16,
}

/// Size of `Elf32_Sym` in bytes.
pub const SIZE: usize = 16;

impl Representation {
    pub open spec fn spec_at(b: Seq<u8>, o: int) -> Representation {
        Representation {
            st_name: spec_u32(b, o),
            st_value: spec_u32(b, o + 4),
            st_size: spec_u32(b, o + 8),
            st_info: b[o + 12],
            st_other: b[o + 13],
            st_shndx: spec_u16(b, o + 14),
        }
    }

    pub fn decode(bytes: &[u8], offset: usize) -> (r: Option<Representation>)
        ensures
            r == (if fits(bytes@, offset as int, SIZE as int) {
                Some(Representation::spec_at(bytes@, offset as int))
            } else {
                None
            }),
    {
        if offset > bytes.len() || bytes.len() - offset < SIZE {
            return None;
        }
        Some(
            Representation {
                st_name: read_u32(bytes, offset).unwrap(),
                st_value: read_u32(bytes, offset + 4).unwrap(),
                st_size: read_u32(bytes, offset + 8).unwrap(),
                st_info: read_u8(bytes, offset + 12).unwrap(),
                st_other: read_u8(bytes, offset + 13).unwrap(),
                st_shndx: read_u16(bytes, offset + 14).unwrap(),
            },
        )
    }
}

impl Symbol {
    pub open spec fn spec_from_class_32(r: Representation) -> Symbol {
        Symbol::spec_from_fields(r.st_name, r.st_value as u64, r.st_size as u64, r.st_info, r.st_other, r.st_shndx)
    }

    pub fn from_class_32(r: Representation) -> (s: Symbol)
        ensures
            s == Symbol::spec_from_class_32(r),
    {
        Symbol::from_fields(r.st_name, r.st_value as u64, r.st_size as u64, r.st_info, r.st_other, r.st_shndx)
    }
}

} // verus!
