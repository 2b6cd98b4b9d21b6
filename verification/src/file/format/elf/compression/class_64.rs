//! `Elf64_Chdr`.
use vstd::prelude::*;
use super::super::representation::{fits, read_u32, read_u64, spec_u32, spec_u64};
use super::{CompressionHeader, Type};

verus! {

#[derive(Debug, Clone, Copy, PartialEq, Eq, Structural)]
pub struct Representation {
    pub ch_type: u32,
    pub ch_reserved: u32,
    pub ch_size: u64,
    pub ch_addralign: u64,
}

pub const SIZE: usize = 24;

impl Representation {
    pub open spec fn spec_at(b: Seq<u8>, o: int) -> Representation {
        Representation {
            ch_type: spec_u32(b, o),
            ch_reserved: spec_u32(b, o + 4),
            ch_size: spec_u64(b, o + 8),
            ch_addralign: spec_u64(b, o + 16),
        }
    }

    pub fn decode(bytes: &[u8], offset: usize) -> (r: Option<Representation>)
        ensures
            r == (if fits(bytes@, offset as int, SIZE as int) {
                Some(Representation::spec_at(bytes@, offset as int))
            } else {
                None
            }),
    {
        if offset > bytes.len() || bytes.len() - offset < SIZE {
            return None;
        }
        Some(
            Representation {
                ch_type: read_u32(bytes, offset).unwrap(),
                ch_reserved: read_u32(bytes, offset + 4).unwrap(),
                ch_size: read_u64(bytes, offset + 8).unwrap(),
                ch_addralign: read_u64(bytes, offset + 16).unwrap(),
            },
        )
    }
}

impl CompressionHeader {
    pub open spec fn spec_from_class_64(r: Representation) -> CompressionHeader {
        CompressionHeader { kind: Type::spec_from_raw(r.ch_type), uncompressed_size: r.ch_size, alignment: r.ch_addralign }
    }

    pub fn from_class_64(r: Representation) -> (h: CompressionHeader)
        ensures
            h == CompressionHeader::spec_from_class_64(r),
    {
        CompressionHeader { kind: Type::from_raw(r.ch_type), uncompressed_size: r.ch_size, alignment: r.ch_addralign }
    }
}

} // verus!
