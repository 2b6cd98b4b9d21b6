//! `Elf32_Ehdr`.
use vstd::prelude::*;
use super::super::representation::{fits, read_u16, read_u32, spec_u16, spec_u32};
use super::{read_identification_bytes, Fields, Header};

verus! {

/// The raw 32-bit file header, fields in file order.
#[derive(Debug, Clone, Copy)]
pub struct Representation {
    pub e_ident: [u8; 16],
    pub e_type: u16,
    pub e_machine: u16,
    pub e_version: u32,
    pub e_entry: u32,
    pub e_phoff: u32,
    pub e_shoff: u32,
    pub e_flags: u32,
    pub e_ehsize: u16,
    pub e_phentsize: u16,
    pub e_phnum: u16,
    pub e_shentsize: u16,
    pub e_shnum: u16,
    pub e_shstrndx: u16,
}

/// Size of `Elf32_Ehdr` in bytes.
pub const SIZE: usize = 52;

impl Representation {
    /// Whether `self` holds the header fields stored at `offset`.
    pub open spec fn is_at(self, b: Seq<u8>, o: int) -> bool {
        &&& self.e_ident@ == b.subrange(o, o + 16)
        &&& self.e_type == spec_u16(b, o + 16)
        &&& self.e_machine == spec_u16(b, o + 18)
        &&& self.e_version == spec_u32(b, o + 20)
        &&& self.e_entry == spec_u32(b, o + 24)
        &&& self.e_phoff == spec_u32(b, o + 28)
        &&& self.e_shoff == spec_u32(b, o + 32)
        &&& self.e_flags == spec_u32(b, o + 36)
        &&& self.e_ehsize == spec_u16(b, o + 40)
        &&& self.e_phentsize == spec_u16(b, o + 42)
        &&& self.e_phnum == spec_u16(b, o + 44)
        &&& self.e_shentsize == spec_u16(b, o + 46)
        &&& self.e_shnum == spec_u16(b, o + 48)
        &&& self.e_shstrndx == spec_u16(b, o + 50)
    }

    /// The raw fields of the header stored at `offset`, widened.
    pub open spec fn spec_fields_at(b: Seq<u8>, o: int) -> Fields {
        Fields {
            e_type: spec_u16(b, o + 16),
            e_machine: spec_u16(b, o + 18),
            e_version: spec_u32(b, o + 20),
            e_entry: spec_u32(b, o + 24) as u64,
            e_phoff: spec_u32(b, o + 28) as u64,
            e_shoff: spec_u32(b, o + 32) as u64,
            e_flags: spec_u32(b, o + 36),
            e_ehsize: spec_u16(b, o + 40),
            e_phentsize: spec_u16(b, o + 42),
            e_phnum: spec_u16(b, o + 44),
            e_shentsize: spec_u16(b, o + 46),
            e_shnum: spec_u16(b, o + 48),
            e_shstrndx: spec_u16(b, o + 50),
        }
    }

    pub open spec fn fields(self) -> Fields {
        Fields {
            e_type: self.e_type,
            e_machine: self.e_machine,
            e_version: self.e_version,
            e_entry: self.e_entry as u64,
            e_phoff: self.e_phoff as u64,
            e_shoff: self.e_shoff as u64,
            e_flags: self.e_flags,
            e_ehsize: self.e_ehsize,
            e_phentsize: self.e_phentsize,
            e_phnum: self.e_phnum,
            e_shentsize: self.e_shentsize,
            e_shnum: self.e_shnum,
            e_shstrndx: self.e_shstrndx,
        }
    }

    /// Reads the header at `offset`; `None` when it does not fit.
    pub fn decode(bytes: &[u8], offset: usize) -> (r: Option<Representation>)
        ensures
            r is Some <==> fits(bytes@, offset as int, SIZE as int),
            r matches Some(v) ==> v.is_at(bytes@, offset as int),
            r matches Some(v) ==> v.fields() == Representation::spec_fields_at(bytes@, offset as int),
    {
        if offset > bytes.len() || bytes.len() - offset < SIZE {
            return None;
        }
        Some(
            Representation {
                e_ident: read_identification_bytes(bytes, offset),
                e_type: read_u16(bytes, offset + 16).unwrap(),
                e_machine: read_u16(bytes, offset + 18).unwrap(),
                e_version: read_u32(bytes, offset + 20).unwrap(),
                e_entry: read_u32(bytes, offset + 24).unwrap(),
                e_phoff: read_u32(bytes, offset + 28).unwrap(),
                e_shoff: read_u32(bytes, offset + 32).unwrap(),
                e_flags: read_u32(bytes, offset + 36).unwrap(),
                e_ehsize: read_u16(bytes, offset + 40).unwrap(),
                e_phentsize: read_u16(bytes, offset + 42).unwrap(),
                e_phnum: read_u16(bytes, offset + 44).unwrap(),
                e_shentsize: read_u16(bytes, offset + 46).unwrap(),
                e_shnum: read_u16(bytes, offset + 48).unwrap(),
                e_shstrndx: read_u16(bytes, offset + 50).unwrap(),
            },
        )
    }
}

impl Header {
    /// The header a 32-bit representation describes (`Header::try_from`).
    pub fn try_from_class_32(representation: &Representation) -> (r: Option<Header>)
        ensures
            r == Header::spec_from_fields(representation.e_ident@, representation.fields()),
    {
        let fields = Fields {
            e_type: representation.e_type,
            e_machine: representation.e_machine,
            e_version: representation.e_version,
            e_entry: representation.e_entry as u64,
            e_phoff: representation.e_phoff as u64,
            e_shoff: representation.e_shoff as u64,
            e_flags: representation.e_flags,
            e_ehsize: representation.e_ehsize,
            e_phentsize: representation.e_phentsize,
            e_phnum: representation.e_phnum,
            e_shentsize: representation.e_shentsize,
            e_shnum: representation.e_shnum,
            e_shstrndx: representation.e_shstrndx,
        };
        Header::from_fields(representation.e_ident.as_slice(), fields)
    }
}

} // verus!
