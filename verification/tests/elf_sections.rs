use userspace::file::format::elf::header::identifier::Identifier;
use userspace::file::format::elf::identification::{Class, Data};
use userspace::file::format::elf::object_file::{ObjectFile, ParseError};
use userspace::file::format::elf::section_header::Type;
use userspace::file::format::elf::symbol::ResolvedSectionIndex;

fn put_u16(bytes: &mut [u8], offset: usize, value: u16) {
    bytes[offset..offset + 2].copy_from_slice(&value.to_le_bytes());
}

fn put_u32(bytes: &mut [u8], offset: usize, value: u32) {
    bytes[offset..offset + 4].copy_from_slice(&value.to_le_bytes());
}

fn put_u64(bytes: &mut [u8], offset: usize, value: u64) {
    bytes[offset..offset + 8].copy_from_slice(&value.to_le_bytes());
}

fn header64(bytes: &mut [u8]) {
    bytes[0..4].copy_from_slice(&[0x7f, b'E', b'L', b'F']);
    bytes[4] = 2;
    bytes[5] = 1;
    bytes[6] = 1;
    put_u16(bytes, 16, 1);
    put_u16(bytes, 18, 62);
    put_u32(bytes, 20, 1);
    put_u16(bytes, 52, 64);
    put_u16(bytes, 54, 56);
    put_u16(bytes, 58, 64);
}

fn section_header(bytes: &mut [u8], index: usize, name: u32, kind: u32, offset: u64, size: u64, link: u32, info: u32, entry_size: u64) {
    let at = 0xc8 + 64 * index;
    put_u32(bytes, at, name);
    put_u32(bytes, at + 4, kind);
    put_u64(bytes, at + 24, offset);
    put_u64(bytes, at + 32, size);
    put_u32(bytes, at + 40, link);
    put_u32(bytes, at + 44, info);
    put_u64(bytes, at + 56, entry_size);
}

/// A little-endian ELF64 relocatable object with a section-name table, a
/// symbol table with its string table, and a note section.
fn relocatable_object() -> Vec<u8> {
    let mut b = vec![0u8; 0xc8 + 5 * 64];
    header64(&mut b);
    put_u64(&mut b, 40, 0xc8);
    put_u16(&mut b, 60, 5);
    put_u16(&mut b, 62, 1);
    let names = b"\0.shstrtab\0.symtab\0.strtab\0.note\0";
    b[0x40..0x40 + names.len()].copy_from_slice(names);
    // symbol 1: "main", global function defined in section 4
    put_u32(&mut b, 0x80, 1);
    b[0x84] = 0x12;
    put_u16(&mut b, 0x86, 4);
    put_u64(&mut b, 0x88, 0x1000);
    put_u64(&mut b, 0x90, 16);
    b[0x98..0x9e].copy_from_slice(b"\0main\0");
    // one ELF64 note: name "GNU\0", type 1, descriptor 1 2 3 4
    put_u64(&mut b, 0xa0, 4);
    put_u64(&mut b, 0xa8, 4);
    put_u64(&mut b, 0xb0, 1);
    b[0xb8..0xbc].copy_from_slice(b"GNU\0");
    b[0xc0..0xc4].copy_from_slice(&[1, 2, 3, 4]);
    section_header(&mut b, 1, 1, 3, 0x40, names.len() as u64, 0, 0, 0);
    section_header(&mut b, 2, 11, 2, 0x68, 48, 3, 1, 24);
    section_header(&mut b, 3, 19, 3, 0x98, 6, 0, 0, 0);
    section_header(&mut b, 4, 27, 7, 0xa0, 40, 0, 0, 0);
    b
}

#[test]
fn sections_are_named_from_the_section_name_table() {
    let bytes = relocatable_object();
    let object = ObjectFile::parse(&bytes).unwrap();
    assert_eq!(object.section_header_count, 5);
    assert_eq!(object.section_name_string_table_index, Some(1));
    assert_eq!(object.section_name(1), Some(".shstrtab"));
    assert_eq!(object.section_name(2), Some(".symtab"));
    assert_eq!(object.section_name(4), Some(".note"));
    assert_eq!(object.section_name(5), None);
    let section = object.section(3).unwrap();
    assert_eq!(section.header.kind, Type::StringTable);
    assert_eq!(section.len(), 6);
    assert!(!section.is_empty());
    assert!(object.section(5).is_none());
}

#[test]
fn symbol_table_reads_symbols_and_their_names() {
    let bytes = relocatable_object();
    let object = ObjectFile::parse(&bytes).unwrap();
    let table = object.symbol_table(2).unwrap();
    assert_eq!(table.len(), 2);
    assert_eq!(table.information, 1);
    assert_eq!(table.name(1), Some("main"));
    let symbol = table.get(1).unwrap();
    assert_eq!(symbol.value, 0x1000);
    assert_eq!(symbol.size, 16);
    assert_eq!(table.section_index(1), Some(ResolvedSectionIndex::Section(4)));
    assert_eq!(table.iter().len(), 2);
    assert!(object.symbol_table(3).is_none());
}

#[test]
fn note_section_holds_one_note() {
    let bytes = relocatable_object();
    let object = ObjectFile::parse(&bytes).unwrap();
    let notes = object.note_table(4).unwrap();
    assert_eq!(notes.len(), 1);
    let note = notes.get(0).unwrap();
    assert_eq!(note.name, b"GNU\0");
    assert_eq!(note.kind, 1);
    assert_eq!(note.descriptor, &[1, 2, 3, 4]);
    assert!(object.note_table(2).is_none());
}

#[test]
fn identification_is_read_from_the_first_bytes() {
    let bytes = relocatable_object();
    let object = ObjectFile::parse(&bytes).unwrap();
    assert_eq!(object.header.identification.class, Class::Class64);
    assert_eq!(object.header.identification.data, Data::LeastSignificantByteFirst);
    assert_eq!(object.header.machine, 62);
    let mut raw = [0u8; 16];
    raw.copy_from_slice(&bytes[0..16]);
    let identifier = Identifier::from_array(raw);
    assert_eq!(identifier.as_array(), raw);
}

#[test]
fn short_input_is_truncated() {
    assert_eq!(ObjectFile::parse(&[0x7f, b'E', b'L', b'F']).err(), Some(ParseError::Truncated));
    let mut bytes = relocatable_object();
    bytes.truncate(40);
    assert_eq!(ObjectFile::parse(&bytes).err(), Some(ParseError::Truncated));
}

#[test]
fn section_table_past_the_end_is_truncated() {
    let mut bytes = relocatable_object();
    bytes.truncate(0xc8 + 3 * 64);
    assert_eq!(ObjectFile::parse(&bytes).err(), Some(ParseError::Truncated));
}

#[test]
fn wrong_magic_is_an_invalid_identification() {
    let mut bytes = relocatable_object();
    bytes[1] = b'X';
    assert_eq!(ObjectFile::parse(&bytes).err(), Some(ParseError::InvalidIdentification));
    let mut bytes = relocatable_object();
    bytes[4] = 9;
    assert_eq!(ObjectFile::parse(&bytes).err(), Some(ParseError::InvalidIdentification));
}

#[test]
fn big_endian_objects_are_not_supported() {
    let mut bytes = relocatable_object();
    bytes[5] = 2;
    assert_eq!(ObjectFile::parse(&bytes).err(), Some(ParseError::UnsupportedDataEncoding));
}

#[test]
fn class_none_is_not_supported() {
    let mut bytes = relocatable_object();
    bytes[4] = 0;
    assert_eq!(ObjectFile::parse(&bytes).err(), Some(ParseError::UnsupportedClass));
}

#[test]
fn small_program_header_entries_are_refused() {
    let mut bytes = relocatable_object();
    put_u64(&mut bytes, 32, 0x40);
    put_u16(&mut bytes, 56, 1);
    put_u16(&mut bytes, 54, 16);
    assert_eq!(ObjectFile::parse(&bytes).err(), Some(ParseError::ProgramHeaderEntryTooSmall));
}

#[test]
fn small_section_header_entries_are_refused() {
    let mut bytes = relocatable_object();
    put_u16(&mut bytes, 58, 16);
    assert_eq!(ObjectFile::parse(&bytes).err(), Some(ParseError::SectionHeaderEntryTooSmall));
}

#[test]
fn reserved_section_name_index_is_an_invalid_header() {
    let mut bytes = relocatable_object();
    put_u16(&mut bytes, 62, 0xff00);
    assert_eq!(ObjectFile::parse(&bytes).err(), Some(ParseError::InvalidHeader));
}

#[test]
fn section_count_without_a_table_is_invalid() {
    let mut bytes = relocatable_object();
    put_u64(&mut bytes, 40, 0);
    assert_eq!(ObjectFile::parse(&bytes).err(), Some(ParseError::InvalidSectionHeaderTable));
}

#[test]
fn section_name_index_past_the_table_is_invalid() {
    let mut bytes = relocatable_object();
    put_u16(&mut bytes, 62, 7);
    assert_eq!(ObjectFile::parse(&bytes).err(), Some(ParseError::InvalidSectionNameStringTable));
}

#[test]
fn extended_section_count_is_read_from_the_initial_header() {
    let mut bytes = relocatable_object();
    put_u16(&mut bytes, 60, 0);
    put_u64(&mut bytes, 0xc8 + 32, 5);
    let object = ObjectFile::parse(&bytes).unwrap();
    assert_eq!(object.section_header_count, 5);
    assert_eq!(object.section_name(2), Some(".symtab"));
}
