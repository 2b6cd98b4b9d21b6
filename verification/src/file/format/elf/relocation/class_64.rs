//! `Elf64_Rel` and `Elf64_Rela`.
use vstd::prelude::*;
use super::super::representation::{fits, read_i64, read_u64, spec_i64, spec_u64};
use super::{Relocation, Type};

verus! {

#[derive(Debug, Clone, Copy, PartialEq, Eq, Structural)]
pub struct RelRepresentation {
    pub r_offset: u64,
    pub r_info: u64,
}

#[derive(Debug, Clone, Copy, PartialEq, Eq, Structural)]
pub struct RelaRepresentation {
    pub r_offset: u64,
    pub r_info: u64,
    pub r_addend: i64,
}

pub const REL_SIZE: usize = 16;
pub const RELA_SIZE: usize = 24;

impl RelRepresentation {
    pub open spec fn spec_at(b: Seq<u8>, o: int) -> RelRepresentation {
        RelRepresentation { r_offset: spec_u64(b, o), r_info: spec_u64(b, o + 8) }
    }

    pub fn decode(bytes: &[u8], offset: usize) -> (r: Option<RelRepresentation>)
        ensures
            r == (if fits(bytes@, offset as int, REL_SIZE as int) {
                Some(RelRepresentation::spec_at(bytes@, offset as int))
            } else {
                None
            }),
    {
        if offset > bytes.len() || bytes.len() - offset < REL_SIZE {
            return None;
        }
        Some(RelRepresentation { r_offset: read_u64(bytes, offset).unwrap(), r_info: read_u64(bytes, offset + 8).unwrap() })
    }
}

impl RelaRepresentation {
    pub open spec fn spec_at(b: Seq<u8>, o: int) -> RelaRepresentation {
        RelaRepresentation { r_offset: spec_u64(b, o), r_info: spec_u64(b, o + 8), r_addend: spec_i64(b, o + 16) }
    }

    pub fn decode(bytes: &[u8], offset: usize) -> (r: Option<RelaRepresentation>)
        ensures
            r == (if fits(bytes@, offset as int, RELA_SIZE as int) {
                Some(RelaRepresentation::spec_at(bytes@, offset as int))
            } else {
                None
            }),
    {
        if offset > bytes.len() || bytes.len() - offset < RELA_SIZE {
            return None;
        }
        Some(
            RelaRepresentation {
                r_offset: read_u64(bytes, offset).unwrap(),
                r_info: read_u64(bytes, offset + 8).unwrap(),
                r_addend: read_i64(bytes, offset + 16).unwrap(),
            },
        )
    }
}

impl Relocation {
    /// `ELF64_R_SYM` is `r_info >> 32`; `ELF64_R_TYPE` is the low 32 bits.
    pub open spec fn spec_from_rel_64(r: RelRepresentation) -> Relocation {
        Relocation {
            offset: r.r_offset,
            symbol_index: (r.r_info / 0x1_0000_0000) as u32,
            kind: Type { raw: (r.r_info % 0x1_0000_0000) as u32 },
            addend: None,
        }
    }

    pub open spec fn spec_from_rela_64(r: RelaRepresentation) -> Relocation {
        Relocation {
            offset: r.r_offset,
            symbol_index: (r.r_info / 0x1_0000_0000) as u32,
            kind: Type { raw: (r.r_info % 0x1_0000_0000) as u32 },
            addend: Some(r.r_addend),
        }
    }

    pub fn from_rel_64(r: RelRepresentation) -> (v: Relocation)
        ensures
            v == Relocation::spec_from_rel_64(r),
    {
        Relocation {
            offset: r.r_offset,
            symbol_index: (r.r_info / 0x1_0000_0000) as u32,
            kind: Type::from_raw((r.r_info % 0x1_0000_0000) as u32),
            addend: None,
        }
    }

    pub fn from_rela_64(r: RelaRepresentation) -> (v: Relocation)
        ensures
            v == Relocation::spec_from_rela_64(r),
    {
        Relocation {
            offset: r.r_offset,
            symbol_index: (r.r_info / 0x1_0000_0000) as u32,
            kind: Type::from_raw((r.r_info % 0x1_0000_0000) as u32),
            addend: Some(r.r_addend),
        }
    }
}

} // verus!
