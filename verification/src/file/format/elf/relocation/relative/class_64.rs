//! `Elf64_Relr`.
use vstd::prelude::*;
use super::super::super::identification::Data;
use super::super::super::representation::{fits, read_u64, read_u64_be, spec_u64, spec_u64_be};
use super::Entry;

verus! {

pub const SIZE: usize = 8;

/// An `Elf64_Relr` word as stored in the file.
#[derive(Debug, Clone, Copy, PartialEq, Eq, Structural)]
pub struct Representation(pub u64);

impl Representation {
    /// The word at `offset`, in the byte order `data` names.
    pub open spec fn spec_decode(bytes: Seq<u8>, offset: int, data: Data) -> Option<Representation> {
        if !fits(bytes, offset, SIZE as int) {
            None
        } else {
            match data {
                Data::DataNone => None,
                Data::LeastSignificantByteFirst => Some(Representation(spec_u64(bytes, offset))),
                Data::MostSignificantByteFirst => Some(Representation(spec_u64_be(bytes, offset))),
            }
        }
    }

    pub fn decode(bytes: &[u8], offset: usize, data: Data) -> (r: Option<Representation>)
        ensures
            r == Representation::spec_decode(bytes@, offset as int, data),
    {
        let word = match data {
            Data::DataNone => return None,
            Data::LeastSignificantByteFirst => read_u64(bytes, offset),
            Data::MostSignificantByteFirst => read_u64_be(bytes, offset),
        };
        match word {
            Some(word) => Some(Representation(word)),
            None => None,
        }
    }
}

impl Entry {
    pub open spec fn spec_from_class_64(representation: Representation) -> Entry {
        Entry::spec_from_raw(representation.0)
    }

    pub fn from_class_64(representation: Representation) -> (r: Entry)
        ensures
            r == Entry::spec_from_class_64(representation),
    {
        Entry::from_raw(representation.0)
    }
}

} // verus!
