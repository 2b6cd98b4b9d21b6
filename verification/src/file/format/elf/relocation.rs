//! ELF relocation entries.
pub mod class_32;
pub mod class_64;
pub mod relative;

use vstd::prelude::*;
use super::representation::{lemma_exactly_fills, lemma_record_fits};

verus! {

/// A processor-specific relocation type (the low bits of `r_info`).
#[derive(Debug, Clone, Copy, PartialEq, Eq, Structural)]
pub struct Type {
    pub raw: u32,
}

impl Type {
    pub fn from_raw(raw: u32) -> (r: Type)
        ensures
            r.raw == raw,
    {
        Type { raw }
    }
}

/// A decoded `Rel` or `Rela` entry; `addend` is present for `Rela` only.
#[derive(Debug, Clone, Copy, PartialEq, Eq, Structural)]
pub struct Relocation {
    pub offset: u64,
    pub symbol_index: u32,
    pub kind: Type,
    pub addend: Option<i64>,
}

pub open spec fn relocation_size(class_32: bool, with_addend: bool) -> usize {
    if class_32 {
        if with_addend {
            class_32::RELA_SIZE
        } else {
            class_32::REL_SIZE
        }
    } else {
        if with_addend {
            class_64::RELA_SIZE
        } else {
            class_64::REL_SIZE
        }
    }
}

/// The relocation of the given class and form stored at `offset`.
pub open spec fn spec_relocation_at(class_32: bool, with_addend: bool, b: Seq<u8>, offset: int) -> Relocation {
    if class_32 {
        if with_addend {
            Relocation::spec_from_rela_32(class_32::RelaRepresentation::spec_at(b, offset))
        } else {
            Relocation::spec_from_rel_32(class_32::RelRepresentation::spec_at(b, offset))
        }
    } else {
        if with_addend {
            Relocation::spec_from_rela_64(class_64::RelaRepresentation::spec_at(b, offset))
        } else {
            Relocation::spec_from_rel_64(class_64::RelRepresentation::spec_at(b, offset))
        }
    }
}

/// The `count` relocations, `entry_size` bytes apart, that exactly fill `b`.
pub open spec fn spec_relocations(class_32: bool, with_addend: bool, b: Seq<u8>, count: nat, entry_size: int) -> Seq<Relocation> {
    Seq::new(count, |i: int| spec_relocation_at(class_32, with_addend, b, i * entry_size))
}

/// Decodes the `count` relocations, `entry_size` bytes apart, that exactly fill `bytes`.
pub fn decode_relocations(bytes: &[u8], count: usize, entry_size: usize, class_32: bool, with_addend: bool) -> (r: Vec<Relocation>)
    requires
        entry_size >= relocation_size(class_32, with_addend),
        count * entry_size == bytes@.len(),
    ensures
        r@ == spec_relocations(class_32, with_addend, bytes@, count as nat, entry_size as int),
{
    let mut relocations: Vec<Relocation> = Vec::new();
    let mut index: usize = 0;
    let length = bytes.len();
    while index < count
        invariant
            0 <= index <= count,
            length == bytes@.len(),
            entry_size >= relocation_size(class_32, with_addend),
            count * entry_size == bytes@.len(),
            relocations@.len() == index,
            forall|j: int| 0 <= j < index ==> relocations@[j] == #[trigger] spec_relocation_at(class_32, with_addend, bytes@, j * entry_size),
        decreases count - index,
    {
        proof {
            lemma_exactly_fills(count as int, entry_size as int);
            lemma_record_fits(index as int, count as int, entry_size as int, bytes@.len() as int, relocation_size(class_32, with_addend) as int);
        }
        let offset = index * entry_size;
        let relocation = if class_32 {
            if with_addend {
                Relocation::from_rela_32(class_32::RelaRepresentation::decode(bytes, offset).unwrap())
            } else {
                Relocation::from_rel_32(class_32::RelRepresentation::decode(bytes, offset).unwrap())
            }
        } else {
            if with_addend {
                Relocation::from_rela_64(class_64::RelaRepresentation::decode(bytes, offset).unwrap())
            } else {
                Relocation::from_rel_64(class_64::RelRepresentation::decode(bytes, offset).unwrap())
            }
        };
        relocations.push(relocation);
        index += 1;
    }
    assert(relocations@ =~= spec_relocations(class_32, with_addend, bytes@, count as nat, entry_size as int));
    relocations
}

} // verus!
