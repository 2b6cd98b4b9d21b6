//! `Elf32_Dyn`.
use vstd::prelude::*;
use super::super::representation::{fits, read_i32, read_u32, spec_i32, spec_u32};
use super::{Dynamic, Tag};

verus! {

#[derive(Debug, Clone, Copy, PartialEq, Eq, Structural)]
pub struct Representation {
    pub d_tag: i32,
    pub d_un: u32,
}

pub const SIZE: usize = 8;

impl Representation {
    pub open spec fn spec_at(b: Seq<u8>, o: int) -> Representation {
        Representation { d_tag: spec_i32(b, o), d_un: spec_u32(b, o + 4) }
    }

    pub fn decode(bytes: &[u8], offset: usize) -> (r: Option<Representation>)
        ensures
            r == (if fits(bytes@, offset as int, SIZE as int) {
                Some(Representation::spec_at(bytes@, offset as int))
            } else {
                None
            }),
    {
        if offset > bytes.len() || bytes.len() - offset < SIZE {
            return None;
        }
        Some(Representation { d_tag: read_i32(bytes, offset).unwrap(), d_un: read_u32(bytes, offset + 4).unwrap() })
    }
}

impl Dynamic {
    pub open spec fn spec_from_class_32(r: Representation) -> Dynamic {
        Dynamic { tag: Tag::spec_from_raw(r.d_tag as i64), payload: r.d_un as u64 }
    }

    pub fn from_class_32(r: Representation) -> (d: Dynamic)
        ensures
            d == Dynamic::spec_from_class_32(r),
    {
        Dynamic { tag: Tag::from_raw(r.d_tag as i64), payload: r.d_un as u64 }
    }
}

} // verus!
