use userspace::file::format::elf::identification::{Class, Data};
use userspace::file::format::elf::relocation::relative::{
    class_32, class_64, Entry, ExpansionError, RelocationFactor, StorageUnit, Table,
};

#[test]
fn even_words_are_addresses_and_odd_words_bitmaps() {
    assert_eq!(Entry::from_raw(0x1000), Entry::Address(0x1000));
    assert_eq!(Entry::from_raw(0x0b), Entry::Bitmap(0x0b));
    assert_eq!(Entry::from_raw(0x0b).raw(), 0x0b);
    assert_eq!(Entry::Address(0x2000).raw(), 0x2000);
}

#[test]
fn words_decode_in_either_byte_order() {
    let bytes = [0x00, 0x10, 0x00, 0x00, 0x00, 0x00, 0x00, 0x00];
    assert_eq!(class_32::Representation::decode(&bytes, 0, Data::LeastSignificantByteFirst), Some(class_32::Representation(0x1000)));
    assert_eq!(class_32::Representation::decode(&bytes, 0, Data::MostSignificantByteFirst), Some(class_32::Representation(0x0010_0000)));
    assert_eq!(class_32::Representation::decode(&bytes, 6, Data::LeastSignificantByteFirst), None);
    assert_eq!(class_32::Representation::decode(&bytes, 0, Data::DataNone), None);
    assert_eq!(class_64::Representation::decode(&bytes, 0, Data::LeastSignificantByteFirst), Some(class_64::Representation(0x1000)));
    assert_eq!(class_64::Representation::decode(&bytes, 0, Data::MostSignificantByteFirst), Some(class_64::Representation(0x0010_0000_0000_0000)));
    assert_eq!(class_64::Representation::decode(&bytes, 1, Data::LeastSignificantByteFirst), None);
    assert_eq!(Entry::from_class_32(class_32::Representation(7)), Entry::Bitmap(7));
    assert_eq!(Entry::from_class_64(class_64::Representation(8)), Entry::Address(8));
}

#[test]
fn table_expands_addresses_and_bitmaps() {
    let table = Table::new(vec![Entry::Address(0x1000), Entry::Bitmap(0b1011)], Class::Class64);
    assert_eq!(table.len(), 2);
    assert!(!table.is_empty());
    assert_eq!(table.iter().len(), 2);
    assert_eq!(table.virtual_addresses(), Ok(vec![0x1000, 0x1008, 0x1018]));
}

#[test]
fn consecutive_bitmaps_cover_consecutive_blocks() {
    let table = Table::new(
        vec![Entry::Address(0x100), Entry::Bitmap(1 | (1 << 31)), Entry::Bitmap(1 | (1 << 1))],
        Class::Class32,
    );
    // block after 0x100 starts at 0x104; bit 31 marks unit 30; the next
    // block starts 31 units later.
    assert_eq!(table.virtual_addresses(), Ok(vec![0x100, 0x104 + 30 * 4, 0x104 + 31 * 4]));
}

#[test]
fn address_only_table_expands_to_its_addresses() {
    let table = Table::new(vec![Entry::Address(0x10), Entry::Address(0x8), Entry::Address(0x40)], Class::Class64);
    assert_eq!(table.virtual_addresses(), Ok(vec![0x10, 0x8, 0x40]));
}

#[test]
fn bitmap_without_address_is_refused() {
    let table = Table::new(vec![Entry::Bitmap(0b11)], Class::Class64);
    assert_eq!(table.virtual_addresses(), Err(ExpansionError::BitmapWithoutAddress));
}

#[test]
fn overflowing_address_is_refused() {
    let table = Table::new(vec![Entry::Address(u64::MAX - 3)], Class::Class64);
    assert_eq!(table.virtual_addresses(), Err(ExpansionError::VirtualAddressOverflow));
    let table = Table::new(vec![Entry::Address(u64::MAX - 0x17), Entry::Bitmap(1 | (1 << 5))], Class::Class64);
    assert_eq!(table.virtual_addresses(), Err(ExpansionError::VirtualAddressOverflow));
}

#[test]
fn class_none_cannot_be_expanded() {
    let table = Table::new(vec![Entry::Address(0x10)], Class::ClassNone);
    assert_eq!(table.virtual_addresses(), Err(ExpansionError::UnsupportedClass));
    let empty = Table::new(vec![], Class::Class32);
    assert!(empty.is_empty());
    assert_eq!(empty.virtual_addresses(), Ok(vec![]));
}

#[test]
fn relocation_factor_is_the_load_bias() {
    let factor = RelocationFactor::from_virtual_addresses(0x7f00_0000_1000, 0x1000);
    assert_eq!(factor.value(), 0x7f00_0000_0000);
    assert!(!factor.is_zero());
    let back = RelocationFactor::from_virtual_addresses(0x1000, 0x3000);
    assert_eq!(back.value(), -0x2000);
    assert!(RelocationFactor::from_virtual_addresses(5, 5).is_zero());
}

#[test]
fn storage_units_relocate_modulo_their_width() {
    assert_eq!(StorageUnit::Class32(0xffff_fff0).relocate(RelocationFactor(0x20)), StorageUnit::Class32(0x10));
    assert_eq!(StorageUnit::Class64(0x5000).relocate(RelocationFactor(-0x2000)), StorageUnit::Class64(0x3000));
    assert_eq!(StorageUnit::Class64(0x10).relocate(RelocationFactor(-0x20)), StorageUnit::Class64(u64::MAX - 0xf));
    assert_eq!(StorageUnit::Class32(7).value(), 7);
    assert_eq!(StorageUnit::Class64(u64::MAX).value(), u64::MAX);
}

#[test]
fn relocating_there_and_back_restores_the_unit() {
    let there = RelocationFactor::from_virtual_addresses(0x5555_0000, 0x1000);
    let back = RelocationFactor::from_virtual_addresses(0x1000, 0x5555_0000);
    let unit = StorageUnit::Class32(0xdead_beef);
    assert_eq!(unit.relocate(there).relocate(back), unit);
    let unit = StorageUnit::Class64(0x0123_4567_89ab_cdef);
    assert_eq!(unit.relocate(there).relocate(back), unit);
}
