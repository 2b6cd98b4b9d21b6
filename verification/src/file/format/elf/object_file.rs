//! Parsed ELF object file.
pub mod sections;
pub mod dynamic;
pub mod segments;
use vstd::prelude::*;
use super::header::{self, Header, SectionHeaderCount, SectionNameStringTableIndex};
use super::identification::{Class, Data, Identification, SIZE as IDENTIFICATION_SIZE};
use super::program_header::{self, ProgramHeader};
use super::representation::fits;
use super::section_header::{self, SectionHeader};

verus! {

#[derive(Debug, Clone, Copy, PartialEq, Eq, Structural)]
pub enum ParseError {
    Truncated,
    InvalidIdentification,
    UnsupportedDataEncoding,
    UnsupportedClass,
    ProgramHeaderEntryTooSmall,
    SectionHeaderEntryTooSmall,
    InvalidHeader,
    InvalidSectionHeaderTable,
    InvalidSectionNameStringTable,
}

/// The parsed contents of an object file, as mathematical values.
pub struct ObjectModel {
    pub header: Header,
    pub program_headers: Seq<ProgramHeader>,
    pub section_headers: Seq<SectionHeader>,
    pub section_header_count: usize,
    pub section_name_string_table_index: Option<usize>,
}

/// A parsed ELF object file that borrows the bytes it was parsed from.
#[derive(Debug)]
pub struct ObjectFile<'file> {
    pub bytes: &'file [u8],
    pub header: Header,
    pub program_headers: Vec<ProgramHeader>,
    pub section_headers: Vec<SectionHeader>,
    pub section_header_count: usize,
    pub section_name_string_table_index: Option<usize>,
}

// ---------------------------------------------------------------------------
// Class-dependent record layouts.

pub open spec fn program_header_size(class_32: bool) -> usize {
    if class_32 {
        program_header::class_32::SIZE
    } else {
        program_header::class_64::SIZE
    }
}

pub open spec fn section_header_size(class_32: bool) -> usize {
    if class_32 {
        section_header::class_32::SIZE
    } else {
        section_header::class_64::SIZE
    }
}

/// The program header of the given class stored at `offset`, if it fits.
pub open spec fn spec_program_header_at(class_32: bool, b: Seq<u8>, offset: int) -> Option<ProgramHeader> {
    if !fits(b, offset, program_header_size(class_32) as int) {
        None
    } else if class_32 {
        Some(ProgramHeader::spec_from_class_32(program_header::class_32::Representation::spec_at(b, offset)))
    } else {
        Some(ProgramHeader::spec_from_class_64(program_header::class_64::Representation::spec_at(b, offset)))
    }
}

/// The section header of the given class stored at `offset`, if it fits.
pub open spec fn spec_section_header_at(class_32: bool, b: Seq<u8>, offset: int) -> Option<SectionHeader> {
    if !fits(b, offset, section_header_size(class_32) as int) {
        None
    } else if class_32 {
        Some(SectionHeader::spec_from_class_32(section_header::class_32::Representation::spec_at(b, offset)))
    } else {
        Some(SectionHeader::spec_from_class_64(section_header::class_64::Representation::spec_at(b, offset)))
    }
}

fn read_program_header(bytes: &[u8], offset: usize, class_32: bool) -> (r: Option<ProgramHeader>)
    ensures
        r == spec_program_header_at(class_32, bytes@, offset as int),
{
    if class_32 {
        match program_header::class_32::Representation::decode(bytes, offset) {
            Some(representation) => Some(ProgramHeader::from_class_32(representation)),
            None => None,
        }
    } else {
        match program_header::class_64::Representation::decode(bytes, offset) {
            Some(representation) => Some(ProgramHeader::from_class_64(representation)),
            None => None,
        }
    }
}

fn read_section_header(bytes: &[u8], offset: usize, class_32: bool) -> (r: Option<SectionHeader>)
    ensures
        r == spec_section_header_at(class_32, bytes@, offset as int),
{
    if class_32 {
        match section_header::class_32::Representation::decode(bytes, offset) {
            Some(representation) => Some(SectionHeader::from_class_32(representation)),
            None => None,
        }
    } else {
        match section_header::class_64::Representation::decode(bytes, offset) {
            Some(representation) => Some(SectionHeader::from_class_64(representation)),
            None => None,
        }
    }
}

// ---------------------------------------------------------------------------
// What parsing yields, stated over the input bytes.

/// The file header of the given class at the start of `b`.
pub open spec fn spec_header(class_32: bool, b: Seq<u8>) -> Result<Header, ParseError> {
    let size = if class_32 { header::class_32::SIZE } else { header::class_64::SIZE };
    if !fits(b, 0, size as int) {
        Err(ParseError::Truncated)
    } else {
        let fields = if class_32 {
            header::class_32::Representation::spec_fields_at(b, 0)
        } else {
            header::class_64::Representation::spec_fields_at(b, 0)
        };
        match Header::spec_from_fields(b.subrange(0, IDENTIFICATION_SIZE as int), fields) {
            Some(h) => Ok(h),
            None => Err(ParseError::InvalidHeader),
        }
    }
}

/// The initial section header, which may hold extended counts and indices.
pub open spec fn spec_initial_section_header(class_32: bool, b: Seq<u8>, h: Header) -> Result<Option<SectionHeader>, ParseError> {
    if h.section_header_offset == 0 {
        Ok(None)
    } else if (h.section_header_entry_size as usize) < section_header_size(class_32) {
        Err(ParseError::SectionHeaderEntryTooSmall)
    } else if h.section_header_offset > usize::MAX {
        Err(ParseError::Truncated)
    } else {
        Ok(spec_section_header_at(class_32, b, h.section_header_offset as int))
    }
}

pub open spec fn spec_section_header_count(h: Header, initial: Option<SectionHeader>) -> Result<usize, ParseError> {
    match h.section_header_count {
        SectionHeaderCount::Direct(count) => if h.section_header_offset == 0 {
            Err(ParseError::InvalidSectionHeaderTable)
        } else {
            Ok(count as usize)
        },
        SectionHeaderCount::ZeroOrExtended => if h.section_header_offset == 0 {
            Ok(0)
        } else {
            match initial {
                None => Err(ParseError::Truncated),
                Some(initial) => if initial.size > usize::MAX {
                    Err(ParseError::Truncated)
                } else if initial.size == 0 {
                    Err(ParseError::InvalidSectionHeaderTable)
                } else {
                    Ok(initial.size as usize)
                },
            }
        },
    }
}

pub open spec fn spec_section_name_string_table_index(h: Header, initial: Option<SectionHeader>) -> Result<Option<usize>, ParseError> {
    match h.section_name_string_table_index {
        SectionNameStringTableIndex::Undefined => Ok(None),
        SectionNameStringTableIndex::Direct(index) => Ok(Some(index as usize)),
        SectionNameStringTableIndex::Extended => match initial {
            None => Err(ParseError::InvalidSectionNameStringTable),
            Some(initial) => Ok(Some(initial.link as usize)),
        },
    }
}

/// The offset of record `index` of a table that starts at `offset`.
pub open spec fn entry_offset(offset: int, index: int, entry_size: int) -> int {
    offset + index * entry_size
}

/// The program-header table: `count` records `entry_size` bytes apart from
/// `offset`, every one of which must lie inside the file.
pub open spec fn spec_program_headers(class_32: bool, b: Seq<u8>, h: Header) -> Result<Seq<ProgramHeader>, ParseError> {
    let offset = h.program_header_offset;
    let entry_size = h.program_header_entry_size;
    let count = h.program_header_count as usize;
    if count == 0 {
        Ok(Seq::empty())
    } else if (entry_size as usize) < program_header_size(class_32) {
        Err(ParseError::ProgramHeaderEntryTooSmall)
    } else if offset > usize::MAX {
        Err(ParseError::Truncated)
    } else if exists|i: int| 0 <= i < count && #[trigger] spec_program_header_at(class_32, b, entry_offset(offset as int, i, entry_size as int)) is None {
        Err(ParseError::Truncated)
    } else {
        Ok(Seq::new(count as nat, |i: int| spec_program_header_at(class_32, b, entry_offset(offset as int, i, entry_size as int)).unwrap()))
    }
}

/// The section-header table: `count` records `entry_size` bytes apart from
/// `offset`, every one of which must lie inside the file.
pub open spec fn spec_section_headers(class_32: bool, b: Seq<u8>, h: Header, count: usize) -> Result<Seq<SectionHeader>, ParseError> {
    let offset = h.section_header_offset;
    let entry_size = h.section_header_entry_size;
    if count == 0 {
        Ok(Seq::empty())
    } else if (entry_size as usize) < section_header_size(class_32) {
        Err(ParseError::SectionHeaderEntryTooSmall)
    } else if offset > usize::MAX {
        Err(ParseError::Truncated)
    } else if exists|i: int| 0 <= i < count && #[trigger] spec_section_header_at(class_32, b, entry_offset(offset as int, i, entry_size as int)) is None {
        Err(ParseError::Truncated)
    } else {
        Ok(Seq::new(count as nat, |i: int| spec_section_header_at(class_32, b, entry_offset(offset as int, i, entry_size as int)).unwrap()))
    }
}

/// Parsing after the class is known.
pub open spec fn spec_parse_class(class_32: bool, b: Seq<u8>) -> Result<ObjectModel, ParseError> {
    match spec_header(class_32, b) {
        Err(e) => Err(e),
        Ok(h) => match spec_initial_section_header(class_32, b, h) {
            Err(e) => Err(e),
            Ok(initial) => match spec_section_header_count(h, initial) {
                Err(e) => Err(e),
                Ok(count) => match spec_section_name_string_table_index(h, initial) {
                    Err(e) => Err(e),
                    Ok(index) => match spec_program_headers(class_32, b, h) {
                        Err(e) => Err(e),
                        Ok(program_headers) => match spec_section_headers(class_32, b, h, count) {
                            Err(e) => Err(e),
                            Ok(section_headers) => if index matches Some(i) && i >= section_headers.len() {
                                Err(ParseError::InvalidSectionNameStringTable)
                            } else {
                                Ok(
                                    ObjectModel {
                                        header: h,
                                        program_headers,
                                        section_headers,
                                        section_header_count: count,
                                        section_name_string_table_index: index,
                                    },
                                )
                            },
                        },
                    },
                },
            },
        },
    }
}

/// Whether a data encoding is the host's. This library targets little-endian
/// hosts.
pub open spec fn spec_native_data_encoding(data: Data) -> bool {
    data == Data::LeastSignificantByteFirst
}

/// What parsing `b` yields.
pub open spec fn spec_parse(b: Seq<u8>) -> Result<ObjectModel, ParseError> {
    if b.len() < IDENTIFICATION_SIZE {
        Err(ParseError::Truncated)
    } else {
        match Identification::spec_from_bytes(b) {
            None => Err(ParseError::InvalidIdentification),
            Some(identification) => if !spec_native_data_encoding(identification.data) {
                Err(ParseError::UnsupportedDataEncoding)
            } else {
                match identification.class {
                    Class::Class32 => spec_parse_class(true, b),
                    Class::Class64 => spec_parse_class(false, b),
                    Class::ClassNone => Err(ParseError::UnsupportedClass),
                }
            },
        }
    }
}

// ---------------------------------------------------------------------------
// Parsing.

fn native_data_encoding(data: Data) -> (r: bool)
    ensures
        r == spec_native_data_encoding(data),
{
    match data {
        Data::LeastSignificantByteFirst => true,
        _ => false,
    }
}

fn read_header(bytes: &[u8], class_32: bool) -> (r: Result<Header, ParseError>)
    ensures
        r == spec_header(class_32, bytes@),
{
    if class_32 {
        match header::class_32::Representation::decode(bytes, 0) {
            None => Err(ParseError::Truncated),
            Some(representation) => {
                assert(representation.e_ident@ == bytes@.subrange(0, IDENTIFICATION_SIZE as int));
                match Header::try_from_class_32(&representation) {
                    Some(h) => Ok(h),
                    None => Err(ParseError::InvalidHeader),
                }
            },
        }
    } else {
        match header::class_64::Representation::decode(bytes, 0) {
            None => Err(ParseError::Truncated),
            Some(representation) => {
                assert(representation.e_ident@ == bytes@.subrange(0, IDENTIFICATION_SIZE as int));
                match Header::try_from_class_64(&representation) {
                    Some(h) => Ok(h),
                    None => Err(ParseError::InvalidHeader),
                }
            },
        }
    }
}

fn initial_section_header(bytes: &[u8], header: &Header, class_32: bool) -> (r: Result<Option<SectionHeader>, ParseError>)
    ensures
        r == spec_initial_section_header(class_32, bytes@, *header),
{
    if header.section_header_offset == 0 {
        return Ok(None);
    }
    let minimum = if class_32 {
        section_header::class_32::SIZE
    } else {
        section_header::class_64::SIZE
    };
    if (header.section_header_entry_size as usize) < minimum {
        return Err(ParseError::SectionHeaderEntryTooSmall);
    }
    if header.section_header_offset > usize::MAX as u64 {
        return Err(ParseError::Truncated);
    }
    Ok(read_section_header(bytes, header.section_header_offset as usize, class_32))
}

/// `initial_section_header_32`: the initial section header of a 32-bit object.
pub fn initial_section_header_32(bytes: &[u8], header: &Header) -> (r: Result<Option<SectionHeader>, ParseError>)
    ensures
        r == spec_initial_section_header(true, bytes@, *header),
{
    initial_section_header(bytes, header, true)
}

/// `initial_section_header_64`: the initial section header of a 64-bit object.
pub fn initial_section_header_64(bytes: &[u8], header: &Header) -> (r: Result<Option<SectionHeader>, ParseError>)
    ensures
        r == spec_initial_section_header(false, bytes@, *header),
{
    initial_section_header(bytes, header, false)
}

/// The number of section headers, taken from the initial section header's
/// `sh_size` when `e_shnum` is zero and a table is present.
pub fn resolve_section_header_count(header: &Header, initial: Option<SectionHeader>) -> (r: Result<usize, ParseError>)
    ensures
        r == spec_section_header_count(*header, initial),
{
    match header.section_header_count {
        SectionHeaderCount::Direct(count) => {
            if header.section_header_offset == 0 {
                return Err(ParseError::InvalidSectionHeaderTable);
            }
            Ok(count as usize)
        },
        SectionHeaderCount::ZeroOrExtended => {
            if header.section_header_offset == 0 {
                return Ok(0);
            }
            let initial = match initial {
                Some(initial) => initial,
                None => return Err(ParseError::Truncated),
            };
            if initial.size > usize::MAX as u64 {
                return Err(ParseError::Truncated);
            }
            let count = initial.size as usize;
            if count == 0 {
                return Err(ParseError::InvalidSectionHeaderTable);
            }
            Ok(count)
        },
    }
}

/// The index of the section-name string table, taken from the initial
/// section header's `sh_link` when `e_shstrndx` is `SHN_XINDEX`.
pub fn resolve_section_name_string_table_index(header: &Header, initial: Option<SectionHeader>) -> (r: Result<Option<usize>, ParseError>)
    ensures
        r == spec_section_name_string_table_index(*header, initial),
{
    match header.section_name_string_table_index {
        SectionNameStringTableIndex::Undefined => Ok(None),
        SectionNameStringTableIndex::Direct(index) => Ok(Some(index as usize)),
        SectionNameStringTableIndex::Extended => match initial {
            Some(initial) => Ok(Some(initial.link as usize)),
            None => Err(ParseError::InvalidSectionNameStringTable),
        },
    }
}

fn parse_program_headers(bytes: &[u8], header: &Header, class_32: bool) -> (r: Result<Vec<ProgramHeader>, ParseError>)
    ensures
        match r {
            Ok(v) => spec_program_headers(class_32, bytes@, *header) == Ok::<Seq<ProgramHeader>, ParseError>(v@),
            Err(e) => spec_program_headers(class_32, bytes@, *header) == Err::<Seq<ProgramHeader>, ParseError>(e),
        },
{
    let count = header.program_header_count as usize;
    if count == 0 {
        let empty: Vec<ProgramHeader> = Vec::new();
        assert(Seq::<ProgramHeader>::empty() =~= empty@);
        return Ok(empty);
    }
    let minimum = if class_32 {
        program_header::class_32::SIZE
    } else {
        program_header::class_64::SIZE
    };
    if (header.program_header_entry_size as usize) < minimum {
        return Err(ParseError::ProgramHeaderEntryTooSmall);
    }
    if header.program_header_offset > usize::MAX as u64 {
        return Err(ParseError::Truncated);
    }
    let length = bytes.len();
    let offset = header.program_header_offset as usize;
    let entry_size = header.program_header_entry_size as usize;
    let mut entries: Vec<ProgramHeader> = Vec::new();
    let mut index: usize = 0;
    while index < count
        invariant
            0 <= index <= count,
            count == header.program_header_count as usize,
            count > 0,
            entry_size >= program_header_size(class_32),
            offset == header.program_header_offset,
            entry_size == header.program_header_entry_size,
            entries@.len() == index,
            length == bytes@.len(),
            forall|j: int| 0 <= j < index ==> spec_program_header_at(class_32, bytes@, entry_offset(offset as int, j, entry_size as int)) == Some(#[trigger] entries@[j]),
        decreases count - index,
    {
        let displacement = match index.checked_mul(entry_size) {
            Some(displacement) => displacement,
            None => {
                assert(spec_program_header_at(class_32, bytes@, entry_offset(offset as int, index as int, entry_size as int)) is None);
                return Err(ParseError::Truncated);
            },
        };
        let record_offset = match offset.checked_add(displacement) {
            Some(record_offset) => record_offset,
            None => {
                assert(spec_program_header_at(class_32, bytes@, entry_offset(offset as int, index as int, entry_size as int)) is None);
                return Err(ParseError::Truncated);
            },
        };
        match read_program_header(bytes, record_offset, class_32) {
            Some(entry) => entries.push(entry),
            None => {
                assert(spec_program_header_at(class_32, bytes@, entry_offset(offset as int, index as int, entry_size as int)) is None);
                return Err(ParseError::Truncated);
            },
        }
        index += 1;
    }
    assert forall|i: int| 0 <= i < count implies #[trigger] spec_program_header_at(class_32, bytes@, entry_offset(offset as int, i, entry_size as int)) is Some by {
        assert(spec_program_header_at(class_32, bytes@, entry_offset(offset as int, i, entry_size as int)) == Some(entries@[i]));
    }
    assert(entries@ =~= Seq::new(count as nat, |i: int| spec_program_header_at(class_32, bytes@, entry_offset(offset as int, i, entry_size as int)).unwrap()));
    Ok(entries)
}

fn parse_section_headers(bytes: &[u8], header: &Header, count: usize, class_32: bool) -> (r: Result<Vec<SectionHeader>, ParseError>)
    ensures
        match r {
            Ok(v) => spec_section_headers(class_32, bytes@, *header, count) == Ok::<Seq<SectionHeader>, ParseError>(v@),
            Err(e) => spec_section_headers(class_32, bytes@, *header, count) == Err::<Seq<SectionHeader>, ParseError>(e),
        },
{
    if count == 0 {
        let empty: Vec<SectionHeader> = Vec::new();
        assert(Seq::<SectionHeader>::empty() =~= empty@);
        return Ok(empty);
    }
    let minimum = if class_32 {
        section_header::class_32::SIZE
    } else {
        section_header::class_64::SIZE
    };
    if (header.section_header_entry_size as usize) < minimum {
        return Err(ParseError::SectionHeaderEntryTooSmall);
    }
    if header.section_header_offset > usize::MAX as u64 {
        return Err(ParseError::Truncated);
    }
    let length = bytes.len();
    let offset = header.section_header_offset as usize;
    let entry_size = header.section_header_entry_size as usize;
    let mut entries: Vec<SectionHeader> = Vec::new();
    let mut index: usize = 0;
    while index < count
        invariant
            0 <= index <= count,
            count > 0,
            entry_size >= section_header_size(class_32),
            offset == header.section_header_offset,
            entry_size == header.section_header_entry_size,
            entries@.len() == index,
            length == bytes@.len(),
            forall|j: int| 0 <= j < index ==> spec_section_header_at(class_32, bytes@, entry_offset(offset as int, j, entry_size as int)) == Some(#[trigger] entries@[j]),
        decreases count - index,
    {
        let displacement = match index.checked_mul(entry_size) {
            Some(displacement) => displacement,
            None => {
                assert(spec_section_header_at(class_32, bytes@, entry_offset(offset as int, index as int, entry_size as int)) is None);
                return Err(ParseError::Truncated);
            },
        };
        let record_offset = match offset.checked_add(displacement) {
            Some(record_offset) => record_offset,
            None => {
                assert(spec_section_header_at(class_32, bytes@, entry_offset(offset as int, index as int, entry_size as int)) is None);
                return Err(ParseError::Truncated);
            },
        };
        match read_section_header(bytes, record_offset, class_32) {
            Some(entry) => entries.push(entry),
            None => {
                assert(spec_section_header_at(class_32, bytes@, entry_offset(offset as int, index as int, entry_size as int)) is None);
                return Err(ParseError::Truncated);
            },
        }
        index += 1;
    }
    assert forall|i: int| 0 <= i < count implies #[trigger] spec_section_header_at(class_32, bytes@, entry_offset(offset as int, i, entry_size as int)) is Some by {
        assert(spec_section_header_at(class_32, bytes@, entry_offset(offset as int, i, entry_size as int)) == Some(entries@[i]));
    }
    assert(entries@ =~= Seq::new(count as nat, |i: int| spec_section_header_at(class_32, bytes@, entry_offset(offset as int, i, entry_size as int)).unwrap()));
    Ok(entries)
}

impl<'file> ObjectFile<'file> {
    /// The bytes the object was parsed from.
    pub open spec fn file_bytes(&self) -> Seq<u8> {
        self.bytes@
    }

    pub open spec fn model(&self) -> ObjectModel {
        ObjectModel {
            header: self.header,
            program_headers: self.program_headers@,
            section_headers: self.section_headers@,
            section_header_count: self.section_header_count,
            section_name_string_table_index: self.section_name_string_table_index,
        }
    }

    /// Parses an ELF object of the host's data encoding.
    pub fn parse(bytes: &'file [u8]) -> (r: Result<ObjectFile<'file>, ParseError>)
        ensures
            match r {
                Ok(object) => object.file_bytes() == bytes@ && spec_parse(bytes@) == Ok::<ObjectModel, ParseError>(object.model()),
                Err(e) => spec_parse(bytes@) == Err::<ObjectModel, ParseError>(e),
            },
    {
        if bytes.len() < IDENTIFICATION_SIZE {
            return Err(ParseError::Truncated);
        }
        let identification = match Identification::from_bytes(bytes) {
            Some(identification) => identification,
            None => return Err(ParseError::InvalidIdentification),
        };
        if !native_data_encoding(identification.data) {
            return Err(ParseError::UnsupportedDataEncoding);
        }
        match identification.class {
            Class::Class32 => Self::parse_class_32(bytes),
            Class::Class64 => Self::parse_class_64(bytes),
            Class::ClassNone => Err(ParseError::UnsupportedClass),
        }
    }

    fn parse_class(bytes: &'file [u8], class_32: bool) -> (r: Result<ObjectFile<'file>, ParseError>)
        ensures
            match r {
                Ok(object) => object.file_bytes() == bytes@ && spec_parse_class(class_32, bytes@) == Ok::<ObjectModel, ParseError>(object.model()),
                Err(e) => spec_parse_class(class_32, bytes@) == Err::<ObjectModel, ParseError>(e),
            },
    {
        let header = read_header(bytes, class_32)?;
        let initial = initial_section_header(bytes, &header, class_32)?;
        let section_header_count = resolve_section_header_count(&header, initial)?;
        let section_name_string_table_index = resolve_section_name_string_table_index(&header, initial)?;
        let program_headers = parse_program_headers(bytes, &header, class_32)?;
        let section_headers = parse_section_headers(bytes, &header, section_header_count, class_32)?;
        if let Some(index) = section_name_string_table_index {
            if index >= section_headers.len() {
                return Err(ParseError::InvalidSectionNameStringTable);
            }
        }
        Ok(
            ObjectFile {
                bytes,
                header,
                program_headers,
                section_headers,
                section_header_count,
                section_name_string_table_index,
            },
        )
    }

    fn parse_class_32(bytes: &'file [u8]) -> (r: Result<ObjectFile<'file>, ParseError>)
        ensures
            match r {
                Ok(object) => object.file_bytes() == bytes@ && spec_parse_class(true, bytes@) == Ok::<ObjectModel, ParseError>(object.model()),
                Err(e) => spec_parse_class(true, bytes@) == Err::<ObjectModel, ParseError>(e),
            },
    {
        Self::parse_class(bytes, true)
    }

    fn parse_class_64(bytes: &'file [u8]) -> (r: Result<ObjectFile<'file>, ParseError>)
        ensures
            match r {
                Ok(object) => object.file_bytes() == bytes@ && spec_parse_class(false, bytes@) == Ok::<ObjectModel, ParseError>(object.model()),
                Err(e) => spec_parse_class(false, bytes@) == Err::<ObjectModel, ParseError>(e),
            },
    {
        Self::parse_class(bytes, false)
    }

    /// The bytes the object was parsed from.
    pub fn bytes(&self) -> (r: &'file [u8])
        ensures
            r@ == self.file_bytes(),
    {
        self.bytes
    }
}

} // verus!
