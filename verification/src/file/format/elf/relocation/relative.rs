//! Compact relative relocation entries (`Elf32_Relr` / `Elf64_Relr`).
//!
//! A relative-relocation table is a sequence of words. An even word is the
//! address of a storage unit to relocate; an odd word is a bitmap whose bits
//! 1 to 31 (`ELFCLASS32`) or 1 to 63 (`ELFCLASS64`) mark, for bit `k`, the
//! storage unit `k - 1` units after the address that the previous entry
//! leaves as the next one to consider.
pub mod class_32;
pub mod class_64;

use vstd::prelude::*;
use super::super::identification::Class;

verus! {

#[derive(Debug, Clone, Copy, PartialEq, Eq, Structural)]
pub enum SectionValidationError {
    ObjectTypeNotExecutableOrSharedObject,
    EntrySizeMismatch,
    SizeNotEntryMultiple,
    FirstEntryMustBeAddress,
}

/// The number of values of a 32-bit word.
pub open spec fn word_range() -> int {
    0x1_0000_0000
}

/// The number of values of a 64-bit word.
pub open spec fn xword_range() -> int {
    0x1_0000_0000_0000_0000
}

/// The relocation factor: the actual load-time virtual address minus the
/// link-time one.
#[derive(Debug, Clone, Copy, PartialEq, Eq, Structural)]
pub struct RelocationFactor(pub i128);

impl RelocationFactor {
    pub fn from_virtual_addresses(actual_load_time_virtual_address: u64, link_time_virtual_address: u64) -> (r: RelocationFactor)
        ensures
            r.0 == actual_load_time_virtual_address - link_time_virtual_address,
    {
        RelocationFactor(actual_load_time_virtual_address as i128 - link_time_virtual_address as i128)
    }

    pub fn value(self) -> (r: i128)
        ensures
            r == self.0,
    {
        self.0
    }

    pub fn is_zero(self) -> (r: bool)
        ensures
            r == (self.0 == 0),
    {
        self.0 == 0
    }
}

/// A relocated storage unit of the object's class.
#[derive(Debug, Clone, Copy, PartialEq, Eq, Structural)]
pub enum StorageUnit {
    Class32(u32),
    Class64(u64),
}

impl StorageUnit {
    pub open spec fn spec_value(self) -> u64 {
        match self {
            StorageUnit::Class32(value) => value as u64,
            StorageUnit::Class64(value) => value,
        }
    }

    /// The unit with the factor added, modulo the unit's width.
    pub open spec fn spec_relocate(self, factor: RelocationFactor) -> StorageUnit {
        match self {
            StorageUnit::Class32(value) => StorageUnit::Class32(((value + factor.0) % word_range()) as u32),
            StorageUnit::Class64(value) => StorageUnit::Class64(((value + factor.0) % xword_range()) as u64),
        }
    }

    pub fn value(self) -> (r: u64)
        ensures
            r == self.spec_value(),
    {
        match self {
            StorageUnit::Class32(value) => value as u64,
            StorageUnit::Class64(value) => value,
        }
    }

    /// Adds the factor to the unit, wrapping at the unit's width.
    pub fn relocate(self, factor: RelocationFactor) -> (r: StorageUnit)
        ensures
            r == self.spec_relocate(factor),
    {
        match self {
            StorageUnit::Class32(value) => {
                let reduced = factor.value().checked_rem_euclid(0x1_0000_0000i128).unwrap();
                let addend = reduced as u32;
                proof {
                    vstd::arithmetic::div_mod::lemma_add_mod_noop(value as int, factor.0 as int, word_range());
                    vstd::arithmetic::div_mod::lemma_small_mod(value as nat, word_range() as nat);
                    vstd::arithmetic::div_mod::lemma_mod_bound(value + addend, word_range());
                    if value + addend >= word_range() {
                        vstd::arithmetic::div_mod::lemma_mod_sub_multiples_vanish(value + addend - word_range(), word_range());
                        vstd::arithmetic::div_mod::lemma_small_mod((value + addend - word_range()) as nat, word_range() as nat);
                    } else {
                        vstd::arithmetic::div_mod::lemma_small_mod((value + addend) as nat, word_range() as nat);
                    }
                }
                StorageUnit::Class32(value.wrapping_add(addend))
            },
            StorageUnit::Class64(value) => {
                let reduced = factor.value().checked_rem_euclid(0x1_0000_0000_0000_0000i128).unwrap();
                let addend = reduced as u64;
                proof {
                    vstd::arithmetic::div_mod::lemma_add_mod_noop(value as int, factor.0 as int, xword_range());
                    vstd::arithmetic::div_mod::lemma_small_mod(value as nat, xword_range() as nat);
                    vstd::arithmetic::div_mod::lemma_mod_bound(value + addend, xword_range());
                    if value + addend >= xword_range() {
                        vstd::arithmetic::div_mod::lemma_mod_sub_multiples_vanish(value + addend - xword_range(), xword_range());
                        vstd::arithmetic::div_mod::lemma_small_mod((value + addend - xword_range()) as nat, xword_range() as nat);
                    } else {
                        vstd::arithmetic::div_mod::lemma_small_mod((value + addend) as nat, xword_range() as nat);
                    }
                }
                StorageUnit::Class64(value.wrapping_add(addend))
            },
        }
    }
}

/// Relocating a unit by the factor from one address to another, then by
/// the factor back, gives the unit back.
pub proof fn lemma_relocate_undone(unit: StorageUnit, from: u64, to: u64)
    ensures
        unit.spec_relocate(RelocationFactor((to - from) as i128)).spec_relocate(RelocationFactor((from - to) as i128)) == unit,
{
    let forward = to - from;
    let back = from - to;
    match unit {
        StorageUnit::Class32(value) => {
            let moved = (value + forward) % word_range();
            vstd::arithmetic::div_mod::lemma_add_mod_noop(value + forward, back, word_range());
            vstd::arithmetic::div_mod::lemma_mod_twice(value + forward, word_range());
            vstd::arithmetic::div_mod::lemma_add_mod_noop(moved, back, word_range());
            vstd::arithmetic::div_mod::lemma_small_mod(value as nat, word_range() as nat);
            vstd::arithmetic::div_mod::lemma_mod_bound(value + forward, word_range());
        },
        StorageUnit::Class64(value) => {
            let moved = (value + forward) % xword_range();
            vstd::arithmetic::div_mod::lemma_add_mod_noop(value + forward, back, xword_range());
            vstd::arithmetic::div_mod::lemma_mod_twice(value + forward, xword_range());
            vstd::arithmetic::div_mod::lemma_add_mod_noop(moved, back, xword_range());
            vstd::arithmetic::div_mod::lemma_small_mod(value as nat, xword_range() as nat);
            vstd::arithmetic::div_mod::lemma_mod_bound(value + forward, xword_range());
        },
    }
}

#[derive(Debug, Clone, Copy, PartialEq, Eq, Structural)]
pub enum ExpansionError {
    UnsupportedClass,
    BitmapWithoutAddress,
    VirtualAddressOverflow,
}

/// One word of a relative-relocation table.
#[derive(Debug, Clone, Copy, PartialEq, Eq, Structural)]
pub enum Entry {
    Address(u64),
    Bitmap(u64),
}

impl Entry {
    pub open spec fn spec_from_raw(raw: u64) -> Entry {
        if raw & 1 == 0 {
            Entry::Address(raw)
        } else {
            Entry::Bitmap(raw)
        }
    }

    pub open spec fn spec_raw(self) -> u64 {
        match self {
            Entry::Address(raw) => raw,
            Entry::Bitmap(raw) => raw,
        }
    }

    /// An address entry holds an even word and a bitmap entry an odd one.
    pub open spec fn well_formed(self) -> bool {
        match self {
            Entry::Address(raw) => raw & 1 == 0,
            Entry::Bitmap(raw) => raw & 1 != 0,
        }
    }

    /// An even word is an address, an odd word a bitmap.
    pub fn from_raw(raw: u64) -> (r: Entry)
        ensures
            r == Entry::spec_from_raw(raw),
    {
        if raw & 1 == 0 {
            Entry::Address(raw)
        } else {
            Entry::Bitmap(raw)
        }
    }

    pub fn raw(self) -> (r: u64)
        ensures
            r == self.spec_raw(),
    {
        match self {
            Entry::Address(raw) => raw,
            Entry::Bitmap(raw) => raw,
        }
    }
}

/// Decoding a word and encoding the entry gives the word back, and every
/// decoded entry is well formed.
pub proof fn lemma_entry_raw_roundtrip(raw: u64)
    ensures
        Entry::spec_from_raw(raw).spec_raw() == raw,
        Entry::spec_from_raw(raw).well_formed(),
{
}

/// A well-formed entry is what its word decodes to.
pub proof fn lemma_entry_from_raw_of_raw(entry: Entry)
    requires
        entry.well_formed(),
    ensures
        Entry::spec_from_raw(entry.spec_raw()) == entry,
{
}

/// Whether bit `bit` of a bitmap word is set.
pub open spec fn bit_set(bitmap: u64, bit: u32) -> bool {
    bitmap & (1u64 << bit) != 0
}

/// The address size and the number of storage units a bitmap covers, for
/// each class.
pub open spec fn spec_class_geometry(class: Class) -> Option<(u64, u32)> {
    match class {
        Class::Class32 => Some((4, 31)),
        Class::Class64 => Some((8, 63)),
        Class::ClassNone => None,
    }
}

/// The addresses that bits 1 to `bits` of a bitmap mark, in bit order: bit
/// `k` marks the storage unit at `block + (k - 1) * address_size`.
pub open spec fn spec_bitmap_addresses(block: u64, bitmap: u64, address_size: u64, bits: nat) -> Result<Seq<u64>, ExpansionError>
    decreases bits,
{
    if bits == 0 {
        Ok(Seq::empty())
    } else {
        match spec_bitmap_addresses(block, bitmap, address_size, (bits - 1) as nat) {
            Err(e) => Err(e),
            Ok(marked) => if !bit_set(bitmap, bits as u32) {
                Ok(marked)
            } else if block + (bits - 1) * address_size > u64::MAX {
                Err(ExpansionError::VirtualAddressOverflow)
            } else {
                Ok(marked.push((block + (bits - 1) * address_size) as u64))
            },
        }
    }
}

/// The addresses found so far and the next address a bitmap would start
/// at, after one more entry.
pub open spec fn spec_expand_entry(
    addresses: Seq<u64>,
    next: Option<u64>,
    entry: Entry,
    address_size: u64,
    units: u32,
) -> Result<(Seq<u64>, Option<u64>), ExpansionError> {
    match entry {
        Entry::Address(address) => if address + address_size > u64::MAX {
            Err(ExpansionError::VirtualAddressOverflow)
        } else {
            Ok((addresses.push(address), Some((address + address_size) as u64)))
        },
        Entry::Bitmap(bitmap) => match next {
            None => Err(ExpansionError::BitmapWithoutAddress),
            Some(block) => match spec_bitmap_addresses(block, bitmap, address_size, units as nat) {
                Err(e) => Err(e),
                Ok(marked) => if block + units * address_size > u64::MAX {
                    Err(ExpansionError::VirtualAddressOverflow)
                } else {
                    Ok((addresses + marked, Some((block + units * address_size) as u64)))
                },
            },
        },
    }
}

/// The expansion of the first `count` entries.
pub open spec fn spec_expand_prefix(entries: Seq<Entry>, address_size: u64, units: u32, count: nat) -> Result<(Seq<u64>, Option<u64>), ExpansionError>
    decreases count,
{
    if count == 0 {
        Ok((Seq::empty(), None))
    } else {
        match spec_expand_prefix(entries, address_size, units, (count - 1) as nat) {
            Err(e) => Err(e),
            Ok((addresses, next)) => spec_expand_entry(addresses, next, entries[count - 1], address_size, units),
        }
    }
}

/// The virtual addresses that a table relocates, in table order.
pub open spec fn spec_virtual_addresses(entries: Seq<Entry>, class: Class) -> Result<Seq<u64>, ExpansionError> {
    match spec_class_geometry(class) {
        None => Err(ExpansionError::UnsupportedClass),
        Some((address_size, units)) => match spec_expand_prefix(entries, address_size, units, entries.len()) {
            Ok((addresses, _)) => Ok(addresses),
            Err(e) => Err(e),
        },
    }
}

/// Once the bits up to `failed` fail, every longer run of bits fails the
/// same way.
pub proof fn lemma_bitmap_failure_persists(block: u64, bitmap: u64, address_size: u64, failed: nat, longer: nat)
    requires
        failed <= longer,
        spec_bitmap_addresses(block, bitmap, address_size, failed) is Err,
    ensures
        spec_bitmap_addresses(block, bitmap, address_size, longer) == spec_bitmap_addresses(block, bitmap, address_size, failed),
    decreases longer,
{
    if longer > failed {
        lemma_bitmap_failure_persists(block, bitmap, address_size, failed, (longer - 1) as nat);
    }
}

/// Once a prefix of the entries fails, every longer prefix fails the same
/// way.
pub proof fn lemma_expand_failure_persists(entries: Seq<Entry>, address_size: u64, units: u32, failed: nat, longer: nat)
    requires
        failed <= longer,
        spec_expand_prefix(entries, address_size, units, failed) is Err,
    ensures
        spec_expand_prefix(entries, address_size, units, longer) == spec_expand_prefix(entries, address_size, units, failed),
    decreases longer,
{
    if longer > failed {
        lemma_expand_failure_persists(entries, address_size, units, failed, (longer - 1) as nat);
    }
}

/// The addresses a bitmap marks lie in its block, in increasing order.
pub proof fn lemma_bitmap_addresses_in_block(block: u64, bitmap: u64, address_size: u64, bits: nat)
    requires
        address_size > 0,
        spec_bitmap_addresses(block, bitmap, address_size, bits) is Ok,
    ensures
        ({
            let marked = spec_bitmap_addresses(block, bitmap, address_size, bits)->Ok_0;
            &&& marked.len() <= bits
            &&& forall|i: int| 0 <= i < marked.len() ==> block <= #[trigger] marked[i] < block + bits * address_size
            &&& forall|i: int, j: int| 0 <= i < j < marked.len() ==> marked[i] < marked[j]
        }),
    decreases bits,
{
    if bits > 0 {
        lemma_bitmap_addresses_in_block(block, bitmap, address_size, (bits - 1) as nat);
        let previous = spec_bitmap_addresses(block, bitmap, address_size, (bits - 1) as nat)->Ok_0;
        assert((bits - 1) * address_size + address_size == bits * address_size) by (nonlinear_arith);
        assert forall|i: int| 0 <= i < previous.len() implies #[trigger] previous[i] < block + bits * address_size by {
            assert(previous[i] < block + (bits - 1) * address_size);
        }
    }
}

/// When no marked unit overflows, the bits up to `bits` of a bitmap mark
/// exactly the units `block + (k - 1) * address_size` of its set bits `k`.
proof fn lemma_bitmap_marks_exactly(block: u64, bitmap: u64, address_size: u64, bits: nat)
    requires
        bits <= 63,
        block + bits * address_size <= u64::MAX,
    ensures
        spec_bitmap_addresses(block, bitmap, address_size, bits) is Ok,
        forall|k: u32| 1 <= k <= bits && #[trigger] bit_set(bitmap, k)
            ==> spec_bitmap_addresses(block, bitmap, address_size, bits)->Ok_0.contains((block + (k - 1) * address_size) as u64),
        forall|i: int| #![trigger spec_bitmap_addresses(block, bitmap, address_size, bits)->Ok_0[i]]
            0 <= i < spec_bitmap_addresses(block, bitmap, address_size, bits)->Ok_0.len()
            ==> exists|k: u32| 1 <= k <= bits && #[trigger] bit_set(bitmap, k)
                && spec_bitmap_addresses(block, bitmap, address_size, bits)->Ok_0[i] == block + (k - 1) * address_size,
    decreases bits,
{
    if bits > 0 {
        assert((bits - 1) * address_size + address_size == bits * address_size) by (nonlinear_arith);
        lemma_bitmap_marks_exactly(block, bitmap, address_size, (bits - 1) as nat);
        let previous = spec_bitmap_addresses(block, bitmap, address_size, (bits - 1) as nat)->Ok_0;
        let current = spec_bitmap_addresses(block, bitmap, address_size, bits)->Ok_0;
        let last = (block + (bits - 1) * address_size) as u64;
        if bit_set(bitmap, bits as u32) {
            assert(current == previous.push(last));
        } else {
            assert(current == previous);
        }
        assert forall|k: u32| 1 <= k <= bits && #[trigger] bit_set(bitmap, k)
            implies current.contains((block + (k - 1) * address_size) as u64) by {
            if k < bits {
                assert(previous.contains((block + (k - 1) * address_size) as u64));
                let j = choose|j: int| 0 <= j < previous.len() && previous[j] == (block + (k - 1) * address_size) as u64;
                assert(current[j] == previous[j]);
            } else {
                assert(current[current.len() - 1] == last);
            }
        }
        assert forall|i: int| #![trigger current[i]] 0 <= i < current.len()
            implies exists|k: u32| 1 <= k <= bits && #[trigger] bit_set(bitmap, k)
                && current[i] == block + (k - 1) * address_size by {
            if i < previous.len() {
                assert(current[i] == previous[i]);
                let k = choose|k: u32| 1 <= k <= bits - 1 && #[trigger] bit_set(bitmap, k)
                    && previous[i] == block + (k - 1) * address_size;
                assert(1 <= k <= bits && bit_set(bitmap, k) && current[i] == block + (k - 1) * address_size);
            } else {
                let k = bits as u32;
                assert(current[i] == last);
                assert(1 <= k <= bits && bit_set(bitmap, k) && current[i] == block + (k - 1) * address_size);
            }
        }
    }
}

/// Whether `address` is a unit that a set bit `k` (1 to `units`) of a
/// bitmap marks in the block at `block`: `block + (k - 1) * address_size`.
pub open spec fn marked_unit(bitmap: u64, block: int, address_size: int, units: int, address: u64) -> bool {
    exists|k: u32| 1 <= k <= units && #[trigger] bit_set(bitmap, k) && address == block + (k - 1) * address_size
}

/// The table of an address `a` followed by the bitmaps `first` and
/// `second`.
pub open spec fn address_then_bitmaps(a: u64, first: u64, second: u64) -> Seq<Entry> {
    seq![Entry::Address(a), Entry::Bitmap(first), Entry::Bitmap(second)]
}

/// The expansion of a table of an address `a` and two bitmaps, for a class
/// of `units` storage units of `address_size` bytes per bitmap: `a`, then
/// the units each bitmap marks, the second block starting `units` units
/// after the first.
proof fn lemma_two_bitmaps(a: u64, first: u64, second: u64, class: Class, address_size: u64, units: u32)
    requires
        spec_class_geometry(class) == Some((address_size, units)),
        units <= 63,
        a + address_size + units * address_size + units * address_size <= u64::MAX,
    ensures
        ({
            let block = (a + address_size) as u64;
            let next = (a + address_size + units * address_size) as u64;
            &&& spec_bitmap_addresses(block, first, address_size, units as nat) is Ok
            &&& spec_bitmap_addresses(next, second, address_size, units as nat) is Ok
            &&& spec_virtual_addresses(address_then_bitmaps(a, first, second), class)
                == Ok::<Seq<u64>, ExpansionError>(seq![a]
                    + spec_bitmap_addresses(block, first, address_size, units as nat)->Ok_0
                    + spec_bitmap_addresses(next, second, address_size, units as nat)->Ok_0)
        }),
{
    let entries = address_then_bitmaps(a, first, second);
    let block = (a + address_size) as u64;
    let next = (a + address_size + units * address_size) as u64;
    lemma_bitmap_marks_exactly(block, first, address_size, units as nat);
    lemma_bitmap_marks_exactly(next, second, address_size, units as nat);
    let marked = spec_bitmap_addresses(block, first, address_size, units as nat)->Ok_0;
    let marked_next = spec_bitmap_addresses(next, second, address_size, units as nat)->Ok_0;
    assert(spec_expand_prefix(entries, address_size, units, 0) == Ok::<(Seq<u64>, Option<u64>), ExpansionError>((Seq::empty(), None)));
    assert(seq![a] =~= Seq::<u64>::empty().push(a));
    assert(spec_expand_prefix(entries, address_size, units, 1) == Ok::<(Seq<u64>, Option<u64>), ExpansionError>((seq![a], Some(block))));
    assert(spec_expand_prefix(entries, address_size, units, 2) == Ok::<(Seq<u64>, Option<u64>), ExpansionError>((seq![a] + marked, Some(next))));
    assert(spec_expand_prefix(entries, address_size, units, 3) == Ok::<(Seq<u64>, Option<u64>), ExpansionError>(
        (seq![a] + marked + marked_next, Some((next + units * address_size) as u64)),
    ));
}

/// In an `ELFCLASS64` table of an address `a` and two bitmaps, bit `k`
/// (1 to 63) of the first bitmap marks `a + 8k`, and bit `k` of the second
/// marks the unit `k - 1` words into the next block, which starts 63 words
/// after the first; the expansion lists `a`, then only such marked units.
#[verifier::spinoff_prover]
pub proof fn lemma_class_64_bitmaps(a: u64, first: u64, second: u64)
    requires
        a + 8 + 2 * 63 * 8 <= u64::MAX,
    ensures
        spec_virtual_addresses(address_then_bitmaps(a, first, second), Class::Class64) is Ok,
        spec_virtual_addresses(address_then_bitmaps(a, first, second), Class::Class64)->Ok_0[0] == a,
        forall|k: u32| 1 <= k <= 63 && #[trigger] bit_set(first, k) ==> spec_virtual_addresses(address_then_bitmaps(a, first, second), Class::Class64)->Ok_0.contains((a + 8 * k) as u64),
        forall|k: u32| 1 <= k <= 63 && #[trigger] bit_set(second, k) ==> spec_virtual_addresses(address_then_bitmaps(a, first, second), Class::Class64)->Ok_0.contains((a + 8 + 63 * 8 + (k - 1) * 8) as u64),
        forall|i: int| 1 <= i < spec_virtual_addresses(address_then_bitmaps(a, first, second), Class::Class64)->Ok_0.len() ==> marked_unit(first, a + 8, 8, 63, #[trigger] spec_virtual_addresses(address_then_bitmaps(a, first, second), Class::Class64)->Ok_0[i])
            || marked_unit(second, a + 8 + 63 * 8, 8, 63, spec_virtual_addresses(address_then_bitmaps(a, first, second), Class::Class64)->Ok_0[i]),
{
    let block = (a + 8) as u64;
    let next = (a + 8 + 63 * 8) as u64;
    lemma_two_bitmaps(a, first, second, Class::Class64, 8, 63);
    lemma_bitmap_marks_exactly(block, first, 8, 63);
    lemma_bitmap_marks_exactly(next, second, 8, 63);
    let marked = spec_bitmap_addresses(block, first, 8, 63)->Ok_0;
    let marked_next = spec_bitmap_addresses(next, second, 8, 63)->Ok_0;
    let addresses = spec_virtual_addresses(address_then_bitmaps(a, first, second), Class::Class64)->Ok_0;
    assert(addresses == seq![a] + marked + marked_next);
    assert forall|k: u32| 1 <= k <= 63 && #[trigger] bit_set(first, k) implies addresses.contains((a + 8 * k) as u64) by {
        let j = choose|j: int| 0 <= j < marked.len() && marked[j] == (block + (k - 1) * 8) as u64;
        assert(addresses[1 + j] == marked[j]);
    }
    assert forall|k: u32| 1 <= k <= 63 && #[trigger] bit_set(second, k) implies addresses.contains((a + 8 + 63 * 8 + (k - 1) * 8) as u64) by {
        let j = choose|j: int| 0 <= j < marked_next.len() && marked_next[j] == (next + (k - 1) * 8) as u64;
        assert(addresses[1 + marked.len() + j] == marked_next[j]);
    }
    assert forall|i: int| 1 <= i < addresses.len() implies marked_unit(first, a + 8, 8, 63, #[trigger] addresses[i])
        || marked_unit(second, a + 8 + 63 * 8, 8, 63, addresses[i]) by {
        if i < 1 + marked.len() {
            assert(addresses[i] == marked[i - 1]);
            let k = choose|k: u32| 1 <= k <= 63 && #[trigger] bit_set(first, k) && marked[i - 1] == block + (k - 1) * 8;
            assert(bit_set(first, k) && addresses[i] == a + 8 * k);
        } else {
            assert(addresses[i] == marked_next[i - 1 - marked.len()]);
            let k = choose|k: u32| 1 <= k <= 63 && #[trigger] bit_set(second, k)
                && marked_next[i - 1 - marked.len()] == next + (k - 1) * 8;
            assert(bit_set(second, k) && addresses[i] == a + 8 + 63 * 8 + (k - 1) * 8);
        }
    }
    assert(addresses[0] == a);
}

/// In an `ELFCLASS32` table of an address `a` and two bitmaps, bit `k`
/// (1 to 31) of the first bitmap marks `a + 4k`, and bit `k` of the second
/// marks the unit `k - 1` words into the next block, which starts 31 words
/// after the first; the expansion lists `a`, then only such marked units.
#[verifier::spinoff_prover]
pub proof fn lemma_class_32_bitmaps(a: u64, first: u64, second: u64)
    requires
        a + 4 + 2 * 31 * 4 <= u64::MAX,
    ensures
        spec_virtual_addresses(address_then_bitmaps(a, first, second), Class::Class32) is Ok,
        spec_virtual_addresses(address_then_bitmaps(a, first, second), Class::Class32)->Ok_0[0] == a,
        forall|k: u32| 1 <= k <= 31 && #[trigger] bit_set(first, k) ==> spec_virtual_addresses(address_then_bitmaps(a, first, second), Class::Class32)->Ok_0.contains((a + 4 * k) as u64),
        forall|k: u32| 1 <= k <= 31 && #[trigger] bit_set(second, k) ==> spec_virtual_addresses(address_then_bitmaps(a, first, second), Class::Class32)->Ok_0.contains((a + 4 + 31 * 4 + (k - 1) * 4) as u64),
        forall|i: int| 1 <= i < spec_virtual_addresses(address_then_bitmaps(a, first, second), Class::Class32)->Ok_0.len() ==> marked_unit(first, a + 4, 4, 31, #[trigger] spec_virtual_addresses(address_then_bitmaps(a, first, second), Class::Class32)->Ok_0[i])
            || marked_unit(second, a + 4 + 31 * 4, 4, 31, spec_virtual_addresses(address_then_bitmaps(a, first, second), Class::Class32)->Ok_0[i]),
{
    let block = (a + 4) as u64;
    let next = (a + 4 + 31 * 4) as u64;
    lemma_two_bitmaps(a, first, second, Class::Class32, 4, 31);
    lemma_bitmap_marks_exactly(block, first, 4, 31);
    lemma_bitmap_marks_exactly(next, second, 4, 31);
    let marked = spec_bitmap_addresses(block, first, 4, 31)->Ok_0;
    let marked_next = spec_bitmap_addresses(next, second, 4, 31)->Ok_0;
    let addresses = spec_virtual_addresses(address_then_bitmaps(a, first, second), Class::Class32)->Ok_0;
    assert(addresses == seq![a] + marked + marked_next);
    assert forall|k: u32| 1 <= k <= 31 && #[trigger] bit_set(first, k) implies addresses.contains((a + 4 * k) as u64) by {
        let j = choose|j: int| 0 <= j < marked.len() && marked[j] == (block + (k - 1) * 4) as u64;
        assert(addresses[1 + j] == marked[j]);
    }
    assert forall|k: u32| 1 <= k <= 31 && #[trigger] bit_set(second, k) implies addresses.contains((a + 4 + 31 * 4 + (k - 1) * 4) as u64) by {
        let j = choose|j: int| 0 <= j < marked_next.len() && marked_next[j] == (next + (k - 1) * 4) as u64;
        assert(addresses[1 + marked.len() + j] == marked_next[j]);
    }
    assert forall|i: int| 1 <= i < addresses.len() implies marked_unit(first, a + 4, 4, 31, #[trigger] addresses[i])
        || marked_unit(second, a + 4 + 31 * 4, 4, 31, addresses[i]) by {
        if i < 1 + marked.len() {
            assert(addresses[i] == marked[i - 1]);
            let k = choose|k: u32| 1 <= k <= 31 && #[trigger] bit_set(first, k) && marked[i - 1] == block + (k - 1) * 4;
            assert(bit_set(first, k) && addresses[i] == a + 4 * k);
        } else {
            assert(addresses[i] == marked_next[i - 1 - marked.len()]);
            let k = choose|k: u32| 1 <= k <= 31 && #[trigger] bit_set(second, k)
                && marked_next[i - 1 - marked.len()] == next + (k - 1) * 4;
            assert(bit_set(second, k) && addresses[i] == a + 4 + 31 * 4 + (k - 1) * 4);
        }
    }
    assert(addresses[0] == a);
}

/// The addresses of a whole table.
pub open spec fn address_words(entries: Seq<Entry>) -> Seq<u64> {
    entries.map_values(|entry: Entry| entry.spec_raw())
}

/// Whether the storage unit at an entry's word ends before the end of the
/// address space.
pub open spec fn below_last_unit(entry: Entry, class: Class) -> bool {
    match spec_class_geometry(class) {
        Some((address_size, _)) => entry.spec_raw() + address_size <= u64::MAX,
        None => false,
    }
}

/// A table of address entries only expands to exactly those addresses,
/// when none of them is the last storage unit of the address space.
pub proof fn lemma_addresses_only(entries: Seq<Entry>, class: Class)
    requires
        spec_class_geometry(class) is Some,
        forall|i: int| 0 <= i < entries.len() ==> (#[trigger] entries[i]) is Address,
        forall|i: int| 0 <= i < entries.len() ==> #[trigger] below_last_unit(entries[i], class),
    ensures
        spec_virtual_addresses(entries, class) == Ok::<Seq<u64>, ExpansionError>(address_words(entries)),
{
    match spec_class_geometry(class) {
        Some((address_size, units)) => {
            assert forall|i: int| 0 <= i < entries.len() implies #[trigger] entries[i].spec_raw() + address_size <= u64::MAX by {
                assert(below_last_unit(entries[i], class));
            }
            lemma_addresses_only_prefix(entries, address_size, units, entries.len());
            assert(address_words(entries).take(entries.len() as int) =~= address_words(entries));
        },
        None => {},
    }
}

proof fn lemma_addresses_only_prefix(entries: Seq<Entry>, address_size: u64, units: u32, count: nat)
    requires
        count <= entries.len(),
        forall|i: int| 0 <= i < entries.len() ==> (#[trigger] entries[i]) is Address,
        forall|i: int| 0 <= i < entries.len() ==> #[trigger] entries[i].spec_raw() + address_size <= u64::MAX,
    ensures
        spec_expand_prefix(entries, address_size, units, count) matches Ok((addresses, _))
            && addresses == address_words(entries).take(count as int),
    decreases count,
{
    if count > 0 {
        lemma_addresses_only_prefix(entries, address_size, units, (count - 1) as nat);
        let last = entries[count - 1];
        assert(last is Address);
        assert(last.spec_raw() + address_size <= u64::MAX);
        assert(address_words(entries).take(count as int) =~= address_words(entries).take(count - 1).push(last.spec_raw()));
    }
}

/// The entries of a relative-relocation table and the class that sizes them.
#[derive(Debug)]
pub struct Table {
    pub entries: Vec<Entry>,
    pub class: Class,
}

impl Table {
    pub fn new(entries: Vec<Entry>, class: Class) -> (r: Table)
        ensures
            r.entries@ == entries@,
            r.class == class,
    {
        Table { entries, class }
    }

    pub fn len(&self) -> (r: usize)
        ensures
            r == self.entries@.len(),
    {
        self.entries.len()
    }

    pub fn is_empty(&self) -> (r: bool)
        ensures
            r == (self.entries@.len() == 0),
    {
        self.entries.len() == 0
    }

    /// The entries, in table order.
    pub fn iter(&self) -> (r: &[Entry])
        ensures
            r@ == self.entries@,
    {
        self.entries.as_slice()
    }

    /// Expands the table into the virtual addresses of the storage units
    /// it relocates.
    pub fn virtual_addresses(&self) -> (r: Result<Vec<u64>, ExpansionError>)
        ensures
            match r {
                Ok(addresses) => spec_virtual_addresses(self.entries@, self.class) == Ok::<Seq<u64>, ExpansionError>(addresses@),
                Err(e) => spec_virtual_addresses(self.entries@, self.class) == Err::<Seq<u64>, ExpansionError>(e),
            },
    {
        let (address_size, units): (u64, u32) = match self.class {
            Class::Class32 => (4, 31),
            Class::Class64 => (8, 63),
            Class::ClassNone => return Err(ExpansionError::UnsupportedClass),
        };
        let ghost entries = self.entries@;
        let mut addresses: Vec<u64> = Vec::new();
        let mut next_address: Option<u64> = None;
        let mut index: usize = 0;
        while index < self.entries.len()
            invariant
                entries == self.entries@,
                spec_class_geometry(self.class) == Some((address_size, units)),
                address_size == 4 || address_size == 8,
                units == 31 || units == 63,
                0 <= index <= entries.len(),
                spec_expand_prefix(entries, address_size, units, index as nat)
                    == Ok::<(Seq<u64>, Option<u64>), ExpansionError>((addresses@, next_address)),
            decreases entries.len() - index,
        {
            let entry = self.entries[index];
            proof {
                if spec_expand_prefix(entries, address_size, units, (index + 1) as nat) is Err {
                    lemma_expand_failure_persists(entries, address_size, units, (index + 1) as nat, entries.len());
                }
            }
            match entry {
                Entry::Address(address) => {
                    addresses.push(address);
                    next_address = match address.checked_add(address_size) {
                        Some(next) => Some(next),
                        None => return Err(ExpansionError::VirtualAddressOverflow),
                    };
                },
                Entry::Bitmap(bitmap) => {
                    let block_address = match next_address {
                        Some(block_address) => block_address,
                        None => return Err(ExpansionError::BitmapWithoutAddress),
                    };
                    let ghost before = addresses@;
                    let ghost mut marked: Seq<u64> = Seq::empty();
                    let mut bitmap_bit: u32 = 1;
                    while bitmap_bit <= units
                        invariant
                            entries == self.entries@,
                            spec_class_geometry(self.class) == Some((address_size, units)),
                            address_size == 4 || address_size == 8,
                            units == 31 || units == 63,
                            0 <= index < entries.len(),
                            entries[index as int] == Entry::Bitmap(bitmap),
                            spec_expand_prefix(entries, address_size, units, index as nat)
                                == Ok::<(Seq<u64>, Option<u64>), ExpansionError>((before, Some(block_address))),
                            spec_expand_prefix(entries, address_size, units, (index + 1) as nat) is Err
                                ==> spec_expand_prefix(entries, address_size, units, entries.len())
                                    == spec_expand_prefix(entries, address_size, units, (index + 1) as nat),
                            1 <= bitmap_bit <= units + 1,
                            addresses@ == before + marked,
                            spec_bitmap_addresses(block_address, bitmap, address_size, (bitmap_bit - 1) as nat)
                                == Ok::<Seq<u64>, ExpansionError>(marked),
                        decreases units + 1 - bitmap_bit,
                    {
                        if bitmap & (1u64 << bitmap_bit) != 0 {
                            let displacement = (bitmap_bit as u64 - 1) * address_size;
                            let address = match block_address.checked_add(displacement) {
                                Some(address) => address,
                                None => {
                                    proof {
                                        lemma_bitmap_failure_persists(block_address, bitmap, address_size, bitmap_bit as nat, units as nat);
                                    }
                                    return Err(ExpansionError::VirtualAddressOverflow);
                                },
                            };
                            addresses.push(address);
                            proof {
                                assert(addresses@ =~= before + marked.push(address));
                                marked = marked.push(address);
                            }
                        }
                        bitmap_bit += 1;
                    }
                    assert(units * address_size <= 504) by (nonlinear_arith)
                        requires
                            units <= 63,
                            address_size <= 8,
                    ;
                    let block_size = (units as u64) * address_size;
                    next_address = match block_address.checked_add(block_size) {
                        Some(next) => Some(next),
                        None => return Err(ExpansionError::VirtualAddressOverflow),
                    };
                },
            }
            index += 1;
        }
        Ok(addresses)
    }
}

} // verus!
