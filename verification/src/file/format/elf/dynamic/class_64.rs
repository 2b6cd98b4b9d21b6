//! `Elf64_Dyn`.
use vstd::prelude::*;
use super::super::representation::{fits, read_i64, read_u64, spec_i64, spec_u64};
use super::{Dynamic, Tag};

verus! {

#[derive(Debug, Clone, Copy, PartialEq, Eq, Structural)]
pub struct Representation {
    pub d_tag: i64,
    pub d_un: u64,
}

pub const SIZE: usize = 16;

impl Representation {
    pub open spec fn spec_at(b: Seq<u8>, o: int) -> Representation {
        Representation { d_tag: spec_i64(b, o), d_un: spec_u64(b, o + 8) }
    }

    pub fn decode(bytes: &[u8], offset: usize) -> (r: Option<Representation>)
        ensures
            r == (if fits(bytes@, offset as int, SIZE as int) {
                Some(Representation::spec_at(bytes@, offset as int))
            } else {
                None
            }),
    {
        if offset > bytes.len() || bytes.len() - offset < SIZE {
            return None;
        }
        Some(Representation { d_tag: read_i64(bytes, offset).unwrap(), d_un: read_u64(bytes, offset + 8).unwrap() })
    }
}

impl Dynamic {
    pub open spec fn spec_from_class_64(r: Representation) -> Dynamic {
        Dynamic { tag: Tag::spec_from_raw(r.d_tag), payload: r.d_un }
    }

    pub fn from_class_64(r: Representation) -> (d: Dynamic)
        ensures
            d == Dynamic::spec_from_class_64(r),
    {
        Dynamic { tag: Tag::from_raw(r.d_tag), payload: r.d_un }
    }
}

} // verus!
