use userspace::file::format::elf::loader::execution::{execution_entry, interpreter_request};
use userspace::file::format::elf::memory_image::{MemoryImage, Region};
use userspace::file::format::elf::program_header::Flags;
use userspace::file::format::elf::program_image::{ProgramImage, Segment, ZeroFill};
use userspace::file::format::elf::segment::load::{
    check_static_object_type, image_length, is_direct_entry, relocation, static_entry, EXECUTABLE,
};
use userspace::file::format::elf::segment::types::{InterpreterPath, LoadedImage};
use userspace::file::format::elf::segment::Error;

fn image(entry: u64, base: u64, direct_entry: bool, interpreter: Option<&[u8]>) -> LoadedImage {
    LoadedImage {
        entry,
        base,
        end: 0,
        direct_entry,
        phdr: 0,
        phent: 56,
        phnum: 0,
        interpreter: interpreter.map(|path| InterpreterPath::new(path.to_vec())),
        dynamic: interpreter.is_some(),
        segments: vec![],
        segment_count: 0,
    }
}

#[test]
fn position_independent_images_are_relocated_to_their_mapping() {
    assert_eq!(relocation(0x7f00_0000_0000, 0x1000, 0x1040), Ok((0x7eff_ffff_f000, 0x7f00_0000_0040)));
    assert_eq!(relocation(0x1000, 0x1000, 0x1040), Ok((0, 0x1040)));
    assert_eq!(relocation(0x0fff, 0x1000, 0x1040), Err(Error::AddressOverflow));
    assert_eq!(relocation(u64::MAX, 0, 1), Err(Error::AddressOverflow));
}

#[test]
fn image_length_is_the_span_of_the_image() {
    assert_eq!(image_length(0x1000, 0x5000), Ok(0x4000));
    assert_eq!(image_length(7, 7), Ok(0));
}

#[test]
fn only_static_executables_are_entered_directly() {
    assert!(is_direct_entry(EXECUTABLE, false, false, true));
    assert!(!is_direct_entry(3, false, false, true));
    assert!(!is_direct_entry(EXECUTABLE, true, false, true));
    assert!(!is_direct_entry(EXECUTABLE, false, true, true));
    assert!(!is_direct_entry(EXECUTABLE, false, false, false));
}

#[test]
fn static_loads_need_an_executable_with_an_executable_entry() {
    assert_eq!(check_static_object_type(2), Ok(()));
    assert_eq!(check_static_object_type(3), Err(Error::UnsupportedType));
    assert_eq!(static_entry(0x40_1000, true), Ok(0x40_1000));
    assert_eq!(static_entry(0x40_1000, false), Err(Error::EntryOutsideExecutableSegment));
}

#[test]
fn programs_with_an_interpreter_start_in_the_interpreter() {
    let program = image(0x5000, 0x5555_0000, false, Some(b"/lib/ld.so"));
    assert_eq!(interpreter_request(&program), Ok(Some("/lib/ld.so")));
    let interpreter = image(0x7f00_1000, 0x7f00_0000, false, None);
    assert_eq!(execution_entry(&program, Some(&interpreter)), (0x7f00_1000, 0x7f00_0000));
}

#[test]
fn static_programs_start_at_their_own_entry() {
    let program = image(0x40_1000, 0, true, None);
    assert_eq!(interpreter_request(&program), Ok(None));
    assert_eq!(execution_entry(&program, None), (0x40_1000, 0));
}

#[test]
fn programs_that_cannot_start_are_refused() {
    let no_interpreter = image(0x1000, 0, false, None);
    assert_eq!(interpreter_request(&no_interpreter), Err(Error::InterpreterUnavailable));
    let bad_path = image(0x1000, 0, false, Some(&[0xff, 0xfe]));
    assert_eq!(interpreter_request(&bad_path), Err(Error::InvalidInterpreter));
}

#[test]
fn memory_regions_serve_bytes_they_hold() {
    let low = [1u8, 2, 3, 4];
    let high = [5u8, 6, 7, 8];
    let region = Region::new(0x1000, &low);
    assert_eq!(region.bytes(0x1001, 2), Some(&low[1..3]));
    assert_eq!(region.bytes(0x1003, 2), None);
    assert_eq!(region.bytes(0x0fff, 1), None);
    assert_eq!(region.bytes(0x1004, 0), Some(&low[4..4]));
    let memory = MemoryImage::new(vec![region, Region::new(0x2000, &high)]);
    assert_eq!(memory.bytes(0x2002, 2), Some(&high[2..4]));
    assert_eq!(memory.bytes(0x1000, 4), Some(&low[..]));
    assert_eq!(memory.bytes(0x1800, 1), None);
}

#[test]
fn program_image_segments_size_their_memory() {
    let file_image = [0u8; 16];
    let zero_fill = ZeroFill::new(0x2010, 0x30);
    assert!(!zero_fill.is_empty());
    assert!(ZeroFill::new(0x2010, 0).is_empty());
    let segment = Segment {
        program_header_index: 0,
        link_time_virtual_address: 0x2000,
        file_image: &file_image,
        zero_fill,
        flags: Flags { raw: 6 },
        alignment: 0x1000,
        link_time_end_virtual_address: 0x2040,
    };
    assert_eq!(segment.memory_size(), 0x40);
    let program = ProgramImage::new(vec![segment]);
    assert_eq!(program.len(), 1);
    assert!(!program.is_empty());
    assert_eq!(program.iter()[0].memory_size(), 0x40);
}
