use userspace::file::format::elf::dynamic::Tag;
use userspace::file::format::elf::dynamic_relocation_table::{Addend, Purpose};
use userspace::file::format::elf::object_file::ObjectFile;
use userspace::file::format::elf::symbol::ResolvedSectionIndex;

const BASE: u64 = 0x40_0000;

fn put_u16(bytes: &mut [u8], offset: usize, value: u16) {
    bytes[offset..offset + 2].copy_from_slice(&value.to_le_bytes());
}

fn put_u32(bytes: &mut [u8], offset: usize, value: u32) {
    bytes[offset..offset + 4].copy_from_slice(&value.to_le_bytes());
}

fn put_u64(bytes: &mut [u8], offset: usize, value: u64) {
    bytes[offset..offset + 8].copy_from_slice(&value.to_le_bytes());
}

/// A little-endian ELF64 shared object with one `PT_LOAD` covering the
/// whole file and a `PT_DYNAMIC` that names two dependencies, a string
/// table, two symbols, a System V hash table and one `Rela` entry.
fn shared_object() -> Vec<u8> {
    let mut b = vec![0u8; 0x1f0];
    b[0..4].copy_from_slice(&[0x7f, b'E', b'L', b'F']);
    b[4] = 2;
    b[5] = 1;
    b[6] = 1;
    put_u16(&mut b, 16, 3);
    put_u16(&mut b, 18, 62);
    put_u32(&mut b, 20, 1);
    put_u64(&mut b, 24, BASE + 0x1000);
    put_u64(&mut b, 32, 0x40);
    put_u16(&mut b, 52, 64);
    put_u16(&mut b, 54, 56);
    put_u16(&mut b, 56, 2);
    put_u16(&mut b, 58, 64);
    // PT_LOAD
    put_u32(&mut b, 0x40, 1);
    put_u32(&mut b, 0x44, 5);
    put_u64(&mut b, 0x48, 0);
    put_u64(&mut b, 0x50, BASE);
    put_u64(&mut b, 0x58, BASE);
    put_u64(&mut b, 0x60, 0x1f0);
    put_u64(&mut b, 0x68, 0x1f0);
    put_u64(&mut b, 0x70, 0x1000);
    // PT_DYNAMIC
    put_u32(&mut b, 0x78, 2);
    put_u32(&mut b, 0x7c, 6);
    put_u64(&mut b, 0x80, 0x130);
    put_u64(&mut b, 0x88, BASE + 0x130);
    put_u64(&mut b, 0x90, BASE + 0x130);
    put_u64(&mut b, 0x98, 0xc0);
    put_u64(&mut b, 0xa0, 0xc0);
    put_u64(&mut b, 0xa8, 8);
    // .dynstr
    let strings = b"\0libc.so.6\0libm.so.6\0printf\0app\0";
    b[0xb0..0xb0 + strings.len()].copy_from_slice(strings);
    // .dynsym: the null symbol, then printf
    put_u32(&mut b, 0xe8, 21);
    b[0xec] = 0x12;
    // .hash: one bucket, two chain entries
    put_u32(&mut b, 0x100, 1);
    put_u32(&mut b, 0x104, 2);
    put_u32(&mut b, 0x108, 1);
    // .rela.plt-like entry
    put_u64(&mut b, 0x118, BASE + 0x3000);
    put_u64(&mut b, 0x120, (1u64 << 32) | 7);
    put_u64(&mut b, 0x128, 0);
    // .dynamic
    let entries: [(u64, u64); 12] = [
        (1, 1),
        (1, 11),
        (14, 28),
        (5, BASE + 0xb0),
        (10, 32),
        (6, BASE + 0xd0),
        (11, 24),
        (4, BASE + 0x100),
        (7, BASE + 0x118),
        (8, 24),
        (9, 24),
        (0, 0),
    ];
    for (i, (tag, payload)) in entries.iter().enumerate() {
        put_u64(&mut b, 0x130 + 16 * i, *tag);
        put_u64(&mut b, 0x138 + 16 * i, *payload);
    }
    b
}

#[test]
fn shared_object_parses_and_validates() {
    let bytes = shared_object();
    let object = ObjectFile::parse(&bytes).unwrap();
    assert_eq!(object.header.object_type, 3);
    assert_eq!(object.program_headers.len(), 2);
    assert_eq!(object.validate_program_headers(), Ok(()));
    assert_eq!(object.bytes().len(), 0x1f0);
}

#[test]
fn virtual_addresses_translate_through_the_load_segment() {
    let bytes = shared_object();
    let object = ObjectFile::parse(&bytes).unwrap();
    assert_eq!(object.file_offset_for_virtual_address(BASE + 0xb0), Some(0xb0));
    assert_eq!(object.file_offset_for_virtual_address(BASE + 0x1f0), None);
    assert_eq!(object.file_offset_for_virtual_address(0x1000), None);
    assert_eq!(object.file_range_for_virtual_address(BASE + 0xb1, 4), Some(&b"libc"[..]));
    assert_eq!(object.file_range_for_virtual_address(BASE + 0x1ee, 4), None);
}

#[test]
fn dynamic_array_ends_at_the_null_entry() {
    let bytes = shared_object();
    let object = ObjectFile::parse(&bytes).unwrap();
    let array = object.dynamic_array_from_program_header(1).unwrap();
    assert_eq!(array.len(), 12);
    assert_eq!(array.first(Tag::Needed).unwrap().payload, 1);
    assert_eq!(array.first(Tag::SharedObjectName).unwrap().payload, 28);
    assert!(array.first(Tag::RunPath).is_none());
    assert!(object.dynamic_array_from_program_header(0).is_none());
    assert!(object.dynamic_array_from_program_header(2).is_none());
}

#[test]
fn dynamic_string_table_is_located_by_address() {
    let bytes = shared_object();
    let object = ObjectFile::parse(&bytes).unwrap();
    let strings = object.dynamic_string_table_from_program_header(1).unwrap();
    assert_eq!(strings.get_str(1), Some("libc.so.6"));
    assert_eq!(strings.get_str(21), Some("printf"));
    assert_eq!(strings.get_str(32), None);
}

#[test]
fn dynamic_symbols_are_counted_by_the_hash_chains() {
    let bytes = shared_object();
    let object = ObjectFile::parse(&bytes).unwrap();
    let symbols = object.dynamic_symbol_table_from_program_header(1).unwrap();
    assert_eq!(symbols.len(), 2);
    assert_eq!(symbols.name(1), Some("printf"));
    assert_eq!(symbols.section_index(1), Some(ResolvedSectionIndex::Undefined));
    assert_eq!(symbols.get(1).unwrap().name_index, 21);
}

#[test]
fn dynamic_hash_table_finds_symbols_by_name() {
    let bytes = shared_object();
    let object = ObjectFile::parse(&bytes).unwrap();
    let table = object.dynamic_hash_table_from_program_header(1).unwrap();
    assert_eq!(table.buckets, vec![1]);
    assert_eq!(table.chains, vec![0, 0]);
    assert_eq!(table.find(b"printf"), Some(1));
    assert_eq!(table.find(b"puts"), None);
}

#[test]
fn dynamic_relocations_are_read_with_their_addends() {
    let bytes = shared_object();
    let object = ObjectFile::parse(&bytes).unwrap();
    let tables = object.dynamic_relocation_tables_from_program_header(1).unwrap();
    assert_eq!(tables.len(), 1);
    let table = &tables[0];
    assert_eq!(table.addend, Addend::Explicit);
    assert_eq!(table.purpose, Purpose::General);
    assert_eq!(table.len(), 1);
    let relocation = table.relocations[0];
    assert_eq!(relocation.offset, BASE + 0x3000);
    assert_eq!(relocation.symbol_index, 1);
    assert_eq!(relocation.kind.raw, 7);
    assert_eq!(relocation.addend, Some(0));
    assert_eq!(table.symbol_name(&relocation), Some("printf"));
}

#[test]
fn shared_object_dependencies_list_needed_libraries_in_order() {
    let bytes = shared_object();
    let object = ObjectFile::parse(&bytes).unwrap();
    let dependencies = object.shared_object_dependencies_from_program_header(1).unwrap();
    assert_eq!(dependencies.needed.len(), 2);
    assert_eq!(dependencies.needed[0].dynamic_entry_index, 0);
    assert_eq!(dependencies.needed[0].name, "libc.so.6");
    assert_eq!(dependencies.needed[1].dynamic_entry_index, 1);
    assert_eq!(dependencies.needed[1].name, "libm.so.6");
    assert_eq!(dependencies.shared_object_name, Some("app"));
    assert_eq!(dependencies.runtime_search_path, None);
    assert_eq!(dependencies.run_path, None);
}

#[test]
fn dependency_naming_a_missing_string_fails() {
    let mut bytes = shared_object();
    put_u64(&mut bytes, 0x148, 200);
    let object = ObjectFile::parse(&bytes).unwrap();
    assert!(object.shared_object_dependencies_from_program_header(1).is_none());
}

#[test]
fn relocation_entry_size_that_does_not_divide_the_table_fails() {
    let mut bytes = shared_object();
    put_u64(&mut bytes, 0x1d8, 16);
    let object = ObjectFile::parse(&bytes).unwrap();
    assert!(object.dynamic_relocation_tables_from_program_header(1).is_none());
}

#[test]
fn entries_after_the_first_null_are_not_read() {
    let mut bytes = shared_object();
    put_u64(&mut bytes, 0x130 + 16 * 5, 0);
    let object = ObjectFile::parse(&bytes).unwrap();
    let array = object.dynamic_array_from_program_header(1).unwrap();
    assert_eq!(array.len(), 6);
    assert_eq!(array.get(5).unwrap().tag, Tag::Null);
    assert!(array.first(Tag::Hash).is_none());
    assert!(object.dynamic_symbol_table_from_program_header(1).is_none());
}
