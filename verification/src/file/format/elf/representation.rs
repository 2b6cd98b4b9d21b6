//! Decoding of the fixed-width fields of ELF structures.
//!
//! The object-file parser only accepts objects whose data encoding matches
//! the host, and this library targets little-endian hosts, so the fields of
//! ELF records are read least significant byte first; records whose decoder
//! is told the data encoding can be read in either byte order.
use vstd::prelude::*;

verus! {

/// The value of the two bytes at `offset`, least significant first.
pub open spec fn spec_u16(bytes: Seq<u8>, offset: int) -> u16 {
    (bytes[offset] + 256 * bytes[offset + 1]) as u16
}

/// The value of the four bytes at `offset`, least significant first.
pub open spec fn spec_u32(bytes: Seq<u8>, offset: int) -> u32 {
    (spec_u16(bytes, offset) + 65536 * spec_u16(bytes, offset + 2)) as u32
}

/// The value of the eight bytes at `offset`, least significant first.
pub open spec fn spec_u64(bytes: Seq<u8>, offset: int) -> u64 {
    (spec_u32(bytes, offset) + 4294967296 * spec_u32(bytes, offset + 4)) as u64
}

/// Whether `size` bytes starting at `offset` lie inside `bytes`.
pub open spec fn fits(bytes: Seq<u8>, offset: int, size: int) -> bool {
    0 <= offset && offset + size <= bytes.len()
}

pub fn read_u8(bytes: &[u8], offset: usize) -> (r: Option<u8>)
    ensures
        r == (if fits(bytes@, offset as int, 1) { Some(bytes@[offset as int]) } else { None }),
{
    if offset < bytes.len() {
        Some(bytes[offset])
    } else {
        None
    }
}

pub fn read_u16(bytes: &[u8], offset: usize) -> (r: Option<u16>)
    ensures
        r == (if fits(bytes@, offset as int, 2) { Some(spec_u16(bytes@, offset as int)) } else { None }),
{
    if offset > bytes.len() || bytes.len() - offset < 2 {
        None
    } else {
        Some(bytes[offset] as u16 + 256 * (bytes[offset + 1] as u16))
    }
}

pub fn read_u32(bytes: &[u8], offset: usize) -> (r: Option<u32>)
    ensures
        r == (if fits(bytes@, offset as int, 4) { Some(spec_u32(bytes@, offset as int)) } else { None }),
{
    if offset > bytes.len() || bytes.len() - offset < 4 {
        None
    } else {
        let low = bytes[offset] as u32 + 256 * (bytes[offset + 1] as u32);
        let high = bytes[offset + 2] as u32 + 256 * (bytes[offset + 3] as u32);
        Some(low + 65536 * high)
    }
}

pub fn read_u64(bytes: &[u8], offset: usize) -> (r: Option<u64>)
    ensures
        r == (if fits(bytes@, offset as int, 8) { Some(spec_u64(bytes@, offset as int)) } else { None }),
{
    if offset > bytes.len() || bytes.len() - offset < 8 {
        None
    } else {
        let low = read_u32(bytes, offset).unwrap();
        let high = read_u32(bytes, offset + 4).unwrap();
        Some(low as u64 + 4294967296 * (high as u64))
    }
}

} // verus!

verus! {

/// The bytes an optional slice holds, as a mathematical value.
pub open spec fn bytes_view(bytes: Option<&[u8]>) -> Option<Seq<u8>> {
    match bytes {
        Some(s) => Some(s@),
        None => None,
    }
}

/// The `size` bytes at `offset`, when they lie inside `bytes`.
pub open spec fn spec_range(bytes: Seq<u8>, offset: u64, size: u64) -> Option<Seq<u8>> {
    if offset + size <= bytes.len() {
        Some(bytes.subrange(offset as int, offset + size))
    } else {
        None
    }
}

/// The `size` bytes at `offset`, when they lie inside `bytes`.
pub fn range<'a>(bytes: &'a [u8], offset: u64, size: u64) -> (r: Option<&'a [u8]>)
    ensures
        bytes_view(r) == spec_range(bytes@, offset, size),
{
    let length = bytes.len() as u64;
    if offset > length || size > length - offset {
        None
    } else {
        Some(vstd::slice::slice_subrange(bytes, offset as usize, (offset + size) as usize))
    }
}

} // verus!

verus! {

/// `count` records of `entry_size` bytes exactly fill `length` bytes.
pub open spec fn exactly_fills(length: int, entry_size: int, count: int) -> bool {
    &&& entry_size > 0
    &&& length % entry_size == 0
    &&& count == length / entry_size
}

/// Record `index` of a table that `count` records of `entry_size` bytes
/// exactly fill lies inside the table, and so does any prefix of it.
pub proof fn lemma_record_fits(index: int, count: int, entry_size: int, length: int, record_size: int)
    requires
        0 <= index < count,
        0 <= record_size <= entry_size,
        length >= 0,
        exactly_fills(length, entry_size, count),
    ensures
        0 <= index * entry_size,
        index * entry_size + record_size <= length,
{
    vstd::arithmetic::div_mod::lemma_fundamental_div_mod(length, entry_size);
    assert(length == entry_size * count);
    assert(0 <= index * entry_size) by (nonlinear_arith)
        requires
            0 <= index,
            entry_size > 0,
    ;
    assert(index * entry_size + entry_size <= count * entry_size) by (nonlinear_arith)
        requires
            index < count,
            entry_size > 0,
    ;
}

} // verus!

verus! {

/// A table of `count` records of `entry_size` bytes exactly fills
/// `count * entry_size` bytes.
pub proof fn lemma_exactly_fills(count: int, entry_size: int)
    requires
        entry_size > 0,
    ensures
        exactly_fills(count * entry_size, entry_size, count),
{
    vstd::arithmetic::div_mod::lemma_div_multiples_vanish(count, entry_size);
    vstd::arithmetic::div_mod::lemma_mod_multiples_basic(count, entry_size);
    assert(entry_size * count == count * entry_size) by (nonlinear_arith);
}

} // verus!

verus! {

/// The two's-complement value of the four bytes at `offset`.
pub open spec fn spec_i32(bytes: Seq<u8>, offset: int) -> i32 {
    let unsigned = spec_u32(bytes, offset);
    if unsigned < 0x8000_0000 {
        unsigned as i32
    } else {
        (unsigned - 0x1_0000_0000) as i32
    }
}

/// The two's-complement value of the eight bytes at `offset`.
pub open spec fn spec_i64(bytes: Seq<u8>, offset: int) -> i64 {
    let unsigned = spec_u64(bytes, offset);
    if unsigned < 0x8000_0000_0000_0000 {
        unsigned as i64
    } else {
        (unsigned - 0x1_0000_0000_0000_0000) as i64
    }
}

pub fn read_i32(bytes: &[u8], offset: usize) -> (r: Option<i32>)
    ensures
        r == (if fits(bytes@, offset as int, 4) { Some(spec_i32(bytes@, offset as int)) } else { None }),
{
    match read_u32(bytes, offset) {
        None => None,
        Some(unsigned) => if unsigned < 0x8000_0000 {
            Some(unsigned as i32)
        } else {
            Some((unsigned - 0x8000_0000) as i32 - 0x7fff_ffff - 1)
        },
    }
}

pub fn read_i64(bytes: &[u8], offset: usize) -> (r: Option<i64>)
    ensures
        r == (if fits(bytes@, offset as int, 8) { Some(spec_i64(bytes@, offset as int)) } else { None }),
{
    match read_u64(bytes, offset) {
        None => None,
        Some(unsigned) => if unsigned < 0x8000_0000_0000_0000 {
            Some(unsigned as i64)
        } else {
            Some((unsigned - 0x8000_0000_0000_0000) as i64 - 0x7fff_ffff_ffff_ffff - 1)
        },
    }
}

} // verus!

verus! {

/// The `count` 32-bit words stored from `start` on, when they all fit.
pub open spec fn spec_words(bytes: Seq<u8>, start: int, count: nat) -> Option<Seq<u32>> {
    if count == 0 || (0 <= start && start + 4 * count <= bytes.len()) {
        Some(Seq::new(count, |i: int| spec_u32(bytes, start + 4 * i)))
    } else {
        None
    }
}

/// Reads `count` consecutive 32-bit words from `start` on.
pub fn read_words(bytes: &[u8], start: usize, count: usize) -> (r: Option<Vec<u32>>)
    ensures
        match r {
            Some(words) => spec_words(bytes@, start as int, count as nat) == Some(words@),
            None => spec_words(bytes@, start as int, count as nat) is None,
        },
{
    let length = bytes.len();
    let mut words: Vec<u32> = Vec::new();
    let mut offset = start;
    let mut index: usize = 0;
    while index < count
        invariant
            0 <= index <= count,
            length == bytes@.len(),
            offset == start + 4 * index,
            index > 0 ==> offset <= length,
            words@.len() == index,
            forall|j: int| 0 <= j < index ==> words@[j] == spec_u32(bytes@, start + 4 * j),
        decreases count - index,
    {
        match read_u32(bytes, offset) {
            Some(word) => words.push(word),
            None => return None,
        }
        offset = match offset.checked_add(4) {
            Some(next) => next,
            None => return None,
        };
        index += 1;
    }
    assert(words@ =~= Seq::new(count as nat, |i: int| spec_u32(bytes@, start + 4 * i)));
    Some(words)
}

} // verus!

verus! {

/// The value of the two bytes at `offset`, most significant first.
pub open spec fn spec_u16_be(bytes: Seq<u8>, offset: int) -> u16 {
    (256 * bytes[offset] + bytes[offset + 1]) as u16
}

/// The value of the four bytes at `offset`, most significant first.
pub open spec fn spec_u32_be(bytes: Seq<u8>, offset: int) -> u32 {
    (65536 * spec_u16_be(bytes, offset) + spec_u16_be(bytes, offset + 2)) as u32
}

/// The value of the eight bytes at `offset`, most significant first.
pub open spec fn spec_u64_be(bytes: Seq<u8>, offset: int) -> u64 {
    (4294967296 * spec_u32_be(bytes, offset) + spec_u32_be(bytes, offset + 4)) as u64
}

pub fn read_u32_be(bytes: &[u8], offset: usize) -> (r: Option<u32>)
    ensures
        r == (if fits(bytes@, offset as int, 4) { Some(spec_u32_be(bytes@, offset as int)) } else { None }),
{
    if offset > bytes.len() || bytes.len() - offset < 4 {
        None
    } else {
        let high = 256 * (bytes[offset] as u32) + bytes[offset + 1] as u32;
        let low = 256 * (bytes[offset + 2] as u32) + bytes[offset + 3] as u32;
        Some(65536 * high + low)
    }
}

pub fn read_u64_be(bytes: &[u8], offset: usize) -> (r: Option<u64>)
    ensures
        r == (if fits(bytes@, offset as int, 8) { Some(spec_u64_be(bytes@, offset as int)) } else { None }),
{
    if offset > bytes.len() || bytes.len() - offset < 8 {
        None
    } else {
        let high = read_u32_be(bytes, offset).unwrap();
        let low = read_u32_be(bytes, offset + 4).unwrap();
        Some(4294967296 * (high as u64) + low as u64)
    }
}

} // verus!
