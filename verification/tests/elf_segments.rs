use userspace::file::format::elf::object_file::ObjectFile;
use userspace::file::format::elf::program_header::ValidationError;

fn put_u16(bytes: &mut [u8], offset: usize, value: u16) {
    bytes[offset..offset + 2].copy_from_slice(&value.to_le_bytes());
}

fn put_u32(bytes: &mut [u8], offset: usize, value: u32) {
    bytes[offset..offset + 4].copy_from_slice(&value.to_le_bytes());
}

fn put_u64(bytes: &mut [u8], offset: usize, value: u64) {
    bytes[offset..offset + 8].copy_from_slice(&value.to_le_bytes());
}

/// One program header: type, offset, virtual address, file size, memory
/// size and alignment.
#[derive(Clone, Copy)]
struct Header(u32, u64, u64, u64, u64, u64);

/// A little-endian ELF64 executable with the given program headers and 256
/// bytes of file contents after them; the interpreter path "/lib/ld.so" sits
/// at offset 0x200.
fn executable(headers: &[Header]) -> Vec<u8> {
    let mut b = vec![0u8; 0x300];
    b[0..4].copy_from_slice(&[0x7f, b'E', b'L', b'F']);
    b[4] = 2;
    b[5] = 1;
    b[6] = 1;
    put_u16(&mut b, 16, 2);
    put_u16(&mut b, 18, 62);
    put_u64(&mut b, 24, 0x40_1000);
    put_u64(&mut b, 32, 0x40);
    put_u16(&mut b, 54, 56);
    put_u16(&mut b, 56, headers.len() as u16);
    put_u16(&mut b, 58, 64);
    for (i, h) in headers.iter().enumerate() {
        let at = 0x40 + 56 * i;
        put_u32(&mut b, at, h.0);
        put_u32(&mut b, at + 4, 5);
        put_u64(&mut b, at + 8, h.1);
        put_u64(&mut b, at + 16, h.2);
        put_u64(&mut b, at + 24, h.2);
        put_u64(&mut b, at + 32, h.3);
        put_u64(&mut b, at + 40, h.4);
        put_u64(&mut b, at + 48, h.5);
    }
    b[0x200..0x20b].copy_from_slice(b"/lib/ld.so\0");
    b
}

const PHDR: Header = Header(6, 0x40, 0x40_0040, 0x70, 0x70, 8);
const INTERP: Header = Header(3, 0x200, 0x40_0200, 11, 11, 1);
const LOAD_A: Header = Header(1, 0, 0x40_0000, 0x300, 0x300, 0x1000);
const LOAD_B: Header = Header(1, 0x100, 0x60_0100, 0x100, 0x400, 0x1000);
const TLS: Header = Header(7, 0x280, 0x40_0280, 0x10, 0x20, 8);

#[test]
fn well_formed_table_validates() {
    let bytes = executable(&[PHDR, INTERP, LOAD_A, LOAD_B, TLS]);
    let object = ObjectFile::parse(&bytes).unwrap();
    assert_eq!(object.validate_program_headers(), Ok(()));
}

#[test]
fn segments_expose_their_file_images() {
    let bytes = executable(&[PHDR, INTERP, LOAD_A, LOAD_B, TLS]);
    let object = ObjectFile::parse(&bytes).unwrap();
    let interpreter = object.program_interpreter().unwrap();
    assert_eq!(interpreter.pathname, b"/lib/ld.so\0");
    let table = object.program_header_table_image().unwrap();
    assert_eq!(table.bytes.len(), 0x70);
    let template = object.thread_local_storage_template().unwrap();
    assert_eq!(template.initialization_image.len(), 0x10);
    let loadable = object.loadable_segment(3).unwrap();
    assert_eq!(loadable.file_image.len(), 0x100);
    assert!(object.loadable_segment(1).is_none());
    assert_eq!(object.segment(2).unwrap().file_image.len(), 0x300);
    assert!(object.segment(5).is_none());
}

#[test]
fn address_translation_uses_the_first_covering_load() {
    let bytes = executable(&[PHDR, INTERP, LOAD_A, LOAD_B, TLS]);
    let object = ObjectFile::parse(&bytes).unwrap();
    assert_eq!(object.file_offset_for_virtual_address(0x40_0010), Some(0x10));
    assert_eq!(object.file_offset_for_virtual_address(0x60_0180), Some(0x180));
    assert_eq!(object.file_offset_for_virtual_address(0x60_0200), None);
}

#[test]
fn load_larger_in_file_than_in_memory_is_refused() {
    let bytes = executable(&[Header(1, 0, 0x40_0000, 0x300, 0x200, 0x1000)]);
    let object = ObjectFile::parse(&bytes).unwrap();
    assert_eq!(object.validate_program_headers(), Err(ValidationError::LoadFileImageLargerThanMemoryImage { index: 0 }));
    assert!(object.loadable_segment(0).is_none());
}

#[test]
fn load_alignment_must_be_a_power_of_two() {
    let bytes = executable(&[Header(1, 0, 0x40_0000, 0x300, 0x300, 0x1800)]);
    let object = ObjectFile::parse(&bytes).unwrap();
    assert_eq!(object.validate_program_headers(), Err(ValidationError::LoadAlignmentNotPowerOfTwo { index: 0 }));
}

#[test]
fn load_address_and_offset_must_agree_modulo_alignment() {
    let bytes = executable(&[Header(1, 0x10, 0x40_0000, 0x100, 0x100, 0x1000)]);
    let object = ObjectFile::parse(&bytes).unwrap();
    assert_eq!(object.validate_program_headers(), Err(ValidationError::LoadAddressOffsetIncongruent { index: 0 }));
}

#[test]
fn loads_must_be_sorted_by_virtual_address() {
    let bytes = executable(&[LOAD_B, LOAD_A]);
    let object = ObjectFile::parse(&bytes).unwrap();
    assert_eq!(
        object.validate_program_headers(),
        Err(ValidationError::LoadSegmentsNotOrderedByVirtualAddress { previous: 0, current: 1 })
    );
}

#[test]
fn a_second_interpreter_is_refused() {
    let bytes = executable(&[INTERP, INTERP]);
    let object = ObjectFile::parse(&bytes).unwrap();
    assert_eq!(object.validate_program_headers(), Err(ValidationError::MultipleInterpreters));
}

#[test]
fn the_interpreter_must_precede_every_load() {
    let bytes = executable(&[LOAD_A, INTERP]);
    let object = ObjectFile::parse(&bytes).unwrap();
    assert_eq!(object.validate_program_headers(), Err(ValidationError::InterpreterAfterLoad { index: 1 }));
}

#[test]
fn a_second_program_header_table_image_is_refused() {
    let bytes = executable(&[PHDR, PHDR]);
    let object = ObjectFile::parse(&bytes).unwrap();
    assert_eq!(object.validate_program_headers(), Err(ValidationError::MultipleProgramHeaderTableImages));
}

#[test]
fn the_program_header_table_image_must_precede_every_load() {
    let bytes = executable(&[LOAD_A, PHDR]);
    let object = ObjectFile::parse(&bytes).unwrap();
    assert_eq!(object.validate_program_headers(), Err(ValidationError::ProgramHeaderTableImageAfterLoad { index: 1 }));
}

#[test]
fn shared_library_segments_are_refused() {
    let bytes = executable(&[LOAD_A, Header(5, 0, 0, 0, 0, 0)]);
    let object = ObjectFile::parse(&bytes).unwrap();
    assert_eq!(object.validate_program_headers(), Err(ValidationError::SharedLibrarySegment { index: 1 }));
}

#[test]
fn the_first_violation_in_table_order_is_reported() {
    let bytes = executable(&[Header(5, 0, 0, 0, 0, 0), INTERP, INTERP]);
    let object = ObjectFile::parse(&bytes).unwrap();
    assert_eq!(object.validate_program_headers(), Err(ValidationError::SharedLibrarySegment { index: 0 }));
}

#[test]
fn interpreter_without_terminator_is_not_an_interpreter() {
    let bytes = executable(&[Header(3, 0x200, 0x40_0200, 10, 10, 1)]);
    let object = ObjectFile::parse(&bytes).unwrap();
    assert!(object.program_interpreter().is_none());
}
