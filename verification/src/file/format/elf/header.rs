//! ELF file header.
pub mod class_32;
pub mod class_64;
pub mod identifier;

use vstd::prelude::*;
use super::identification::{Identification, SIZE};

verus! {

/// Section-header count as the header states it (`e_shnum`).
#[derive(Debug, Clone, Copy, PartialEq, Eq, Structural)]
pub enum SectionHeaderCount {
    /// A non-zero count held by `e_shnum` itself.
    Direct(u16),
    /// `e_shnum` is zero: there are no sections, or the real count is held in
    /// the `sh_size` of the initial section header.
    ZeroOrExtended,
}

/// Section-name string-table index as the header states it (`e_shstrndx`).
#[derive(Debug, Clone, Copy, PartialEq, Eq, Structural)]
pub enum SectionNameStringTableIndex {
    /// `SHN_UNDEF`: the object has no section-name string table.
    Undefined,
    /// An index below the reserved range held by `e_shstrndx` itself.
    Direct(u16),
    /// `SHN_XINDEX`: the index is held in the `sh_link` of the initial section
    /// header.
    Extended,
}

/// `SHN_LORESERVE`: the start of the reserved section-index range.
pub const SECTION_INDEX_LOW_RESERVE: u16 = 0xff00;
/// `SHN_XINDEX`: the escape value that defers an index to an extension field.
pub const SECTION_INDEX_EXTENDED: u16 = 0xffff;

/// The decoded ELF file header.
#[derive(Debug, Clone, Copy, PartialEq, Eq, Structural)]
pub struct Header {
    pub identification: Identification,
    pub object_type: u16,
    pub machine: u16,
    pub version: u32,
    pub entry: u64,
    pub program_header_offset: u64,
    pub section_header_offset: u64,
    pub flags: u32,
    pub header_size: u16,
    pub program_header_entry_size: u16,
    pub program_header_count: u16,
    pub section_header_entry_size: u16,
    pub section_header_count: SectionHeaderCount,
    pub section_name_string_table_index: SectionNameStringTableIndex,
}

/// The raw fields of a file header, widened to their 64-bit forms.
#[derive(Debug, Clone, Copy, PartialEq, Eq, Structural)]
pub struct Fields {
    pub e_type: u16,
    pub e_machine: u16,
    pub e_version: u32,
    pub e_entry: u64,
    pub e_phoff: u64,
    pub e_shoff: u64,
    pub e_flags: u32,
    pub e_ehsize: u16,
    pub e_phentsize: u16,
    pub e_phnum: u16,
    pub e_shentsize: u16,
    pub e_shnum: u16,
    pub e_shstrndx: u16,
}

pub open spec fn spec_section_header_count(e_shnum: u16) -> SectionHeaderCount {
    if e_shnum == 0 {
        SectionHeaderCount::ZeroOrExtended
    } else {
        SectionHeaderCount::Direct(e_shnum)
    }
}

/// The meaning of `e_shstrndx`; `None` for a value in the reserved range
/// other than `SHN_XINDEX`, which the gABI does not allow there.
pub open spec fn spec_section_name_string_table_index(e_shstrndx: u16) -> Option<SectionNameStringTableIndex> {
    if e_shstrndx == 0 {
        Some(SectionNameStringTableIndex::Undefined)
    } else if e_shstrndx == SECTION_INDEX_EXTENDED {
        Some(SectionNameStringTableIndex::Extended)
    } else if e_shstrndx >= SECTION_INDEX_LOW_RESERVE {
        None
    } else {
        Some(SectionNameStringTableIndex::Direct(e_shstrndx))
    }
}

impl Header {
    /// The header described by identification bytes and raw fields; `None`
    /// when the identification is invalid or `e_shstrndx` is a reserved value.
    pub open spec fn spec_from_fields(e_ident: Seq<u8>, fields: Fields) -> Option<Header> {
        match Identification::spec_from_bytes(e_ident) {
            None => None,
            Some(identification) => match spec_section_name_string_table_index(fields.e_shstrndx) {
                None => None,
                Some(index) => Some(
                    Header {
                        identification,
                        object_type: fields.e_type,
                        machine: fields.e_machine,
                        version: fields.e_version,
                        entry: fields.e_entry,
                        program_header_offset: fields.e_phoff,
                        section_header_offset: fields.e_shoff,
                        flags: fields.e_flags,
                        header_size: fields.e_ehsize,
                        program_header_entry_size: fields.e_phentsize,
                        program_header_count: fields.e_phnum,
                        section_header_entry_size: fields.e_shentsize,
                        section_header_count: spec_section_header_count(fields.e_shnum),
                        section_name_string_table_index: index,
                    },
                ),
            },
        }
    }

    pub fn from_fields(e_ident: &[u8], fields: Fields) -> (r: Option<Header>)
        ensures
            r == Header::spec_from_fields(e_ident@, fields),
    {
        let identification = match Identification::from_bytes(e_ident) {
            Some(identification) => identification,
            None => return None,
        };
        let index = if fields.e_shstrndx == 0 {
            SectionNameStringTableIndex::Undefined
        } else if fields.e_shstrndx == SECTION_INDEX_EXTENDED {
            SectionNameStringTableIndex::Extended
        } else if fields.e_shstrndx >= SECTION_INDEX_LOW_RESERVE {
            return None;
        } else {
            SectionNameStringTableIndex::Direct(fields.e_shstrndx)
        };
        let count = if fields.e_shnum == 0 {
            SectionHeaderCount::ZeroOrExtended
        } else {
            SectionHeaderCount::Direct(fields.e_shnum)
        };
        Some(
            Header {
                identification,
                object_type: fields.e_type,
                machine: fields.e_machine,
                version: fields.e_version,
                entry: fields.e_entry,
                program_header_offset: fields.e_phoff,
                section_header_offset: fields.e_shoff,
                flags: fields.e_flags,
                header_size: fields.e_ehsize,
                program_header_entry_size: fields.e_phentsize,
                program_header_count: fields.e_phnum,
                section_header_entry_size: fields.e_shentsize,
                section_header_count: count,
                section_name_string_table_index: index,
            },
        )
    }
}

/// Copies the `SIZE` identification bytes at `offset`.
pub fn read_identification_bytes(bytes: &[u8], offset: usize) -> (r: [u8; 16])
    requires
        offset + SIZE <= bytes@.len(),
    ensures
        r@ == bytes@.subrange(offset as int, offset + SIZE),
{
    let r = [
        bytes[offset],
        bytes[offset + 1],
        bytes[offset + 2],
        bytes[offset + 3],
        bytes[offset + 4],
        bytes[offset + 5],
        bytes[offset + 6],
        bytes[offset + 7],
        bytes[offset + 8],
        bytes[offset + 9],
        bytes[offset + 10],
        bytes[offset + 11],
        bytes[offset + 12],
        bytes[offset + 13],
        bytes[offset + 14],
        bytes[offset + 15],
    ];
    assert(r@ =~= bytes@.subrange(offset as int, offset + SIZE));
    r
}

} // verus!
