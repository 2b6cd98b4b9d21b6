//! `Elf32_Rel` and `Elf32_Rela`.
use vstd::prelude::*;
use super::super::representation::{fits, read_i32, read_u32, spec_i32, spec_u32};
use super::{Relocation, Type};

verus! {

#[derive(Debug, Clone, Copy, PartialEq, Eq, Structural)]
pub struct RelRepresentation {
    pub r_offset: u32,
    pub r_info: u32,
}

#[derive(Debug, Clone, Copy, PartialEq, Eq, Structural)]
pub struct RelaRepresentation {
    pub r_offset: u32,
    pub r_info: u32,
    pub r_addend: i32,
}

pub const REL_SIZE: usize = 8;
pub const RELA_SIZE: usize = 12;

impl RelRepresentation {
    pub open spec fn spec_at(b: Seq<u8>, o: int) -> RelRepresentation {
        RelRepresentation { r_offset: spec_u32(b, o), r_info: spec_u32(b, o + 4) }
    }

    pub fn decode(bytes: &[u8], offset: usize) -> (r: Option<RelRepresentation>)
        ensures
            r == (if fits(bytes@, offset as int, REL_SIZE as int) {
                Some(RelRepresentation::spec_at(bytes@, offset as int))
            } else {
                None
            }),
    {
        if offset > bytes.len() || bytes.len() - offset < REL_SIZE {
            return None;
        }
        Some(RelRepresentation { r_offset: read_u32(bytes, offset).unwrap(), r_info: read_u32(bytes, offset + 4).unwrap() })
    }
}

impl RelaRepresentation {
    pub open spec fn spec_at(b: Seq<u8>, o: int) -> RelaRepresentation {
        RelaRepresentation { r_offset: spec_u32(b, o), r_info: spec_u32(b, o + 4), r_addend: spec_i32(b, o + 8) }
    }

    pub fn decode(bytes: &[u8], offset: usize) -> (r: Option<RelaRepresentation>)
        ensures
            r == (if fits(bytes@, offset as int, RELA_SIZE as int) {
                Some(RelaRepresentation::spec_at(bytes@, offset as int))
            } else {
                None
            }),
    {
        if offset > bytes.len() || bytes.len() - offset < RELA_SIZE {
            return None;
        }
        Some(
            RelaRepresentation {
                r_offset: read_u32(bytes, offset).unwrap(),
                r_info: read_u32(bytes, offset + 4).unwrap(),
                r_addend: read_i32(bytes, offset + 8).unwrap(),
            },
        )
    }
}

impl Relocation {
    /// `ELF32_R_SYM` is `r_info >> 8`; `ELF32_R_TYPE` is `r_info & 0xff`.
    pub open spec fn spec_from_rel_32(r: RelRepresentation) -> Relocation {
        Relocation {
            offset: r.r_offset as u64,
            symbol_index: r.r_info / 256,
            kind: Type { raw: r.r_info % 256 },
            addend: None,
        }
    }

    pub open spec fn spec_from_rela_32(r: RelaRepresentation) -> Relocation {
        Relocation {
            offset: r.r_offset as u64,
            symbol_index: r.r_info / 256,
            kind: Type { raw: r.r_info % 256 },
            addend: Some(r.r_addend as i64),
        }
    }

    pub fn from_rel_32(r: RelRepresentation) -> (v: Relocation)
        ensures
            v == Relocation::spec_from_rel_32(r),
    {
        Relocation {
            offset: r.r_offset as u64,
            symbol_index: r.r_info / 256,
            kind: Type::from_raw(r.r_info % 256),
            addend: None,
        }
    }

    pub fn from_rela_32(r: RelaRepresentation) -> (v: Relocation)
        ensures
            v == Relocation::spec_from_rela_32(r),
    {
        Relocation {
            offset: r.r_offset as u64,
            symbol_index: r.r_info / 256,
            kind: Type::from_raw(r.r_info % 256),
            addend: Some(r.r_addend as i64),
        }
    }
}

} // verus!
