use userspace::file::format::elf::dynamic::Tag;
use userspace::file::format::elf::hash::{hash, HashTable};
use userspace::file::format::elf::identification::{Class, Data};
use userspace::file::format::elf::program_header;
use userspace::file::format::elf::section_header;
use userspace::file::format::elf::string_table::StringTable;
use userspace::file::format::elf::symbol::visibility::Visibility;
use userspace::file::result::{handle_result, Error, Success};
use userspace::file::format::elf::loader::result as loader_result;

#[test]
fn system_v_hash_of_known_names() {
    assert_eq!(hash(b"printf"), 0x0779_05a6);
    assert_eq!(hash(b"main"), 0x0007_37fe);
    assert_eq!(hash(b"exit"), 0x0006_cf04);
    assert_eq!(hash(b""), 0);
}

#[test]
fn hash_stops_at_the_first_nul() {
    assert_eq!(hash(b"printf\0garbage"), hash(b"printf"));
}

#[test]
fn hash_fits_in_28_bits() {
    let long = [b'z'; 64];
    assert!(hash(&long) < (1 << 28));
}

#[test]
fn hash_table_holds_its_arrays() {
    let table = HashTable::new(vec![1, 2], vec![0, 0, 1]);
    assert_eq!(table.buckets, vec![1, 2]);
    assert_eq!(table.chains, vec![0, 0, 1]);
}

#[test]
fn raw_values_round_trip() {
    for raw in [0i64, 1, 5, 17, 29, 31, 37, 0x6fff_fef5, -1] {
        assert_eq!(Tag::from_raw(raw).raw(), raw);
    }
    for raw in 0u8..=3 {
        assert_eq!(Visibility::from_raw(raw).raw(), raw);
    }
    assert_eq!(Class::from_raw(2), Some(Class::Class64));
    assert_eq!(Class::from_raw(3), None);
    assert_eq!(Class::Class32.raw(), 1);
    assert_eq!(Data::from_raw(1), Some(Data::LeastSignificantByteFirst));
    assert_eq!(Data::MostSignificantByteFirst.raw(), 2);
}

#[test]
fn negative_machine_words_are_errors() {
    assert_eq!(handle_result(3), Ok(Success::Default(3)));
    assert_eq!(handle_result(isize::MAX as usize), Ok(Success::Default(isize::MAX as usize)));
    assert_eq!(handle_result(usize::MAX), Err(Error::Default(usize::MAX)));
    assert_eq!(handle_result((-2isize) as usize), Err(Error::from_no((-2isize) as usize)));
    assert_eq!(Success::from_no(9), Success::Default(9));
}

#[test]
fn loader_results_are_decoded_the_same_way() {
    assert_eq!(loader_result::handle_result(0), Ok(loader_result::Success::Default(0)));
    assert_eq!(
        loader_result::handle_result((-12isize) as usize),
        Err(loader_result::Error::Default((-12isize) as usize))
    );
    assert_eq!(loader_result::Success::from_no(4), loader_result::Success::Default(4));
    assert_eq!(loader_result::Error::from_no(4), loader_result::Error::Default(4));
}

#[test]
fn segment_and_section_types_round_trip() {
    for raw in [0u32, 1, 2, 3, 4, 5, 6, 7, 0x6474_e550, 0x7000_0000] {
        assert_eq!(program_header::Type::from_raw(raw).raw(), raw);
    }
    assert_eq!(program_header::Type::from_raw(1), program_header::Type::Load);
    for raw in [0u32, 1, 2, 3, 8, 11, 14, 17, 18, 19, 0x6fff_fff6] {
        assert_eq!(section_header::Type::from_raw(raw).raw(), raw);
    }
    assert_eq!(section_header::Type::from_raw(8), section_header::Type::NoBits);
}

#[test]
fn strings_must_be_terminated_and_valid_utf8() {
    let bytes = b"\0name\0\xff\xfe\0open";
    let table = StringTable::new(bytes);
    assert_eq!(table.get_str(1), Some("name"));
    assert_eq!(table.get_str(0), Some(""));
    assert_eq!(table.get_bytes(6), Some(&b"\xff\xfe"[..]));
    assert_eq!(table.get_str(6), None);
    assert_eq!(table.get_bytes(9), None);
    assert_eq!(table.get_str(40), None);
}
