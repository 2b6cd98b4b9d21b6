//! System V ELF symbol hash table.
use vstd::prelude::*;
use super::symbol_table::{SymbolTable, SymbolTableModel};

verus! {

/// The bucket and chain arrays of a System V hash table.
#[derive(Debug)]
pub struct HashTable {
    pub buckets: Vec<u32>,
    pub chains: Vec<u32>,
}

impl HashTable {
    pub fn new(buckets: Vec<u32>, chains: Vec<u32>) -> (r: HashTable)
        ensures
            r.buckets@ == buckets@,
            r.chains@ == chains@,
    {
        HashTable { buckets, chains }
    }
}

/// A hash-table section together with the symbol table it indexes.
#[derive(Debug)]
pub struct SymbolHashTable<'file> {
    pub table: HashTable,
    pub symbols: SymbolTable<'file>,
}

pub struct SymbolHashTableModel {
    pub buckets: Seq<u32>,
    pub chains: Seq<u32>,
    pub symbols: SymbolTableModel,
}

impl<'file> SymbolHashTable<'file> {
    pub open spec fn model(&self) -> SymbolHashTableModel {
        SymbolHashTableModel { buckets: self.table.buckets@, chains: self.table.chains@, symbols: self.symbols.model() }
    }

    pub fn new(buckets: Vec<u32>, chains: Vec<u32>, symbols: SymbolTable<'file>) -> (r: SymbolHashTable<'file>)
        ensures
            r.table.buckets@ == buckets@,
            r.table.chains@ == chains@,
            r.symbols.model() == symbols.model(),
    {
        SymbolHashTable { table: HashTable::new(buckets, chains), symbols }
    }
}

/// One step of the System V hash: shift in the byte, fold the top nibble
/// back into bits 4 to 7, and clear it.
pub open spec fn spec_hash_step(hash: u32, byte: u8) -> u32 {
    let shifted = vstd::wrapping::u32_specs::wrapping_add(vstd::wrapping::u32_specs::wrapping_shl(hash, 4), byte as u32);
    let high = shifted & 0xf000_0000u32;
    let folded = if high != 0 {
        shifted ^ (high >> 24u32)
    } else {
        shifted
    };
    folded & !high
}

/// The hash of the first `count` bytes.
pub open spec fn spec_hash_prefix(name: Seq<u8>, count: nat) -> u32
    decreases count,
{
    if count == 0 {
        0
    } else {
        spec_hash_step(spec_hash_prefix(name, (count - 1) as nat), name[count - 1])
    }
}

/// The number of bytes before the first NUL, or the whole length.
pub open spec fn spec_name_length(name: Seq<u8>, from: nat) -> nat
    decreases name.len() - from,
{
    if from >= name.len() || name[from as int] == 0 {
        from
    } else {
        spec_name_length(name, from + 1)
    }
}

/// The System V ELF hash of a name: the bytes up to its first NUL.
pub open spec fn spec_hash(name: Seq<u8>) -> u32 {
    spec_hash_prefix(name, spec_name_length(name, 0))
}

/// System V ELF hash function.
pub fn hash(name: &[u8]) -> (r: u32)
    ensures
        r == spec_hash(name@),
{
    let mut hash: u32 = 0;
    let mut index: usize = 0;
    while index < name.len()
        invariant_except_break
            0 <= index <= name@.len(),
            spec_name_length(name@, 0) == spec_name_length(name@, index as nat),
            hash == spec_hash_prefix(name@, index as nat),
        ensures
            hash == spec_hash(name@),
        decreases name@.len() - index,
    {
        let byte = name[index];
        if byte == 0 {
            break;
        }
        hash = hash.wrapping_shl(4).wrapping_add(byte as u32);
        let high = hash & 0xf000_0000;
        if high != 0 {
            hash ^= high >> 24;
        }
        hash &= !high;
        index += 1;
    }
    hash
}

/// A hash step never leaves the top nibble set.
pub proof fn lemma_hash_step_high_nibble_clear(hash: u32, byte: u8)
    ensures
        spec_hash_step(hash, byte) & 0xf000_0000u32 == 0,
{
    let shifted = vstd::wrapping::u32_specs::wrapping_add(vstd::wrapping::u32_specs::wrapping_shl(hash, 4), byte as u32);
    let high = shifted & 0xf000_0000u32;
    assert((shifted ^ (high >> 24u32)) & !high & 0xf000_0000u32 == 0) by (bit_vector)
        requires
            high == shifted & 0xf000_0000u32,
    ;
    assert(shifted & !high & 0xf000_0000u32 == 0) by (bit_vector)
        requires
            high == shifted & 0xf000_0000u32,
    ;
}

/// Every System V hash value fits in 28 bits.
pub proof fn lemma_hash_fits_28_bits(name: Seq<u8>)
    ensures
        spec_hash(name) & 0xf000_0000u32 == 0,
        spec_hash(name) < 0x1000_0000,
{
    let count = spec_name_length(name, 0);
    let value = spec_hash(name);
    if count > 0 {
        lemma_hash_step_high_nibble_clear(spec_hash_prefix(name, (count - 1) as nat), name[count - 1]);
    } else {
        assert(0u32 & 0xf000_0000u32 == 0) by (bit_vector);
    }
    assert(value & 0xf000_0000u32 == 0 ==> value < 0x1000_0000) by (bit_vector);
}

/// The hash reads a name only up to its first NUL: appending a NUL and
/// anything after it leaves the hash unchanged.
pub proof fn lemma_hash_stops_at_nul(name: Seq<u8>, rest: Seq<u8>)
    requires
        forall|i: int| 0 <= i < name.len() ==> name[i] != 0,
    ensures
        spec_hash(name + seq![0u8] + rest) == spec_hash(name),
{
    let full = name + seq![0u8] + rest;
    lemma_name_length_of_terminated(name, rest, 0);
    lemma_name_length_of_unterminated(name, 0);
    lemma_hash_prefix_agrees(name, full, name.len());
}

proof fn lemma_name_length_of_terminated(name: Seq<u8>, rest: Seq<u8>, from: nat)
    requires
        from <= name.len(),
        forall|i: int| 0 <= i < name.len() ==> name[i] != 0,
    ensures
        spec_name_length(name + seq![0u8] + rest, from) == name.len(),
    decreases name.len() - from,
{
    let full = name + seq![0u8] + rest;
    if from < name.len() {
        assert(full[from as int] == name[from as int]);
        lemma_name_length_of_terminated(name, rest, from + 1);
    } else {
        assert(full[from as int] == 0);
    }
}

proof fn lemma_name_length_of_unterminated(name: Seq<u8>, from: nat)
    requires
        from <= name.len(),
        forall|i: int| 0 <= i < name.len() ==> name[i] != 0,
    ensures
        spec_name_length(name, from) == name.len(),
    decreases name.len() - from,
{
    if from < name.len() {
        lemma_name_length_of_unterminated(name, from + 1);
    }
}

proof fn lemma_hash_prefix_agrees(a: Seq<u8>, b: Seq<u8>, count: nat)
    requires
        count <= a.len(),
        count <= b.len(),
        forall|i: int| 0 <= i < count ==> a[i] == b[i],
    ensures
        spec_hash_prefix(a, count) == spec_hash_prefix(b, count),
    decreases count,
{
    if count > 0 {
        lemma_hash_prefix_agrees(a, b, (count - 1) as nat);
    }
}

/// The hash of the empty name is zero, and appending a non-NUL byte `c` to
/// a NUL-free name with hash `h` gives the gABI step: with
/// `x = (h * 16 + c) mod 2^32`, the low 28 bits of `x` with its top nibble
/// folded back in at bits 4 to 7.
pub proof fn lemma_hash_appends_byte(name: Seq<u8>, byte: u8)
    requires
        forall|i: int| 0 <= i < name.len() ==> name[i] != 0,
        byte != 0,
    ensures
        spec_hash(Seq::<u8>::empty()) == 0,
        ({
            let x = ((spec_hash(name) as int * 16 + byte as int) % 0x1_0000_0000) as u32;
            spec_hash(name.push(byte)) == (x & 0x0fff_ffffu32) ^ ((x >> 28u32) << 4u32)
        }),
{
    let longer = name.push(byte);
    assert forall|i: int| 0 <= i < longer.len() implies longer[i] != 0 by {
        if i < name.len() {
            assert(longer[i] == name[i]);
        }
    }
    lemma_name_length_of_unterminated(name, 0);
    lemma_name_length_of_unterminated(longer, 0);
    lemma_hash_prefix_agrees(name, longer, name.len());
    let h = spec_hash(name);
    let x = ((h as int * 16 + byte as int) % 0x1_0000_0000) as u32;
    assert(spec_hash(longer) == spec_hash_step(h, byte));
    assert(vstd::wrapping::u32_specs::wrapping_shl(h, 4) == h << 4u32);
    let shifted = vstd::wrapping::u32_specs::wrapping_add(h << 4u32, byte as u32);
    assert(shifted == x) by (bit_vector)
        requires
            shifted == (if (h << 4u32) + (byte as u32) > u32::MAX {
                ((h << 4u32) + (byte as u32) - 0x1_0000_0000) as u32
            } else {
                ((h << 4u32) + (byte as u32)) as u32
            }),
            x == ((h as int * 16 + byte as int) % 0x1_0000_0000) as u32,
    ;
    let high = shifted & 0xf000_0000u32;
    assert((if high != 0 { shifted ^ (high >> 24u32) } else { shifted }) & !high
        == (shifted & 0x0fff_ffffu32) ^ ((shifted >> 28u32) << 4u32)) by (bit_vector)
        requires
            high == shifted & 0xf000_0000u32,
    ;
}

} // verus!
