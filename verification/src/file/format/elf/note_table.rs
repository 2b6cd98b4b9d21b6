//! ELF note entries.
//!
//! Notes are variable-length records. Their fixed-size fields and padding use
//! the word size prescribed by the ELF class; the name and descriptor lengths
//! exclude padding.
use vstd::prelude::*;
use super::identification::Class;
use super::note::{Note, NoteModel};
use super::representation::{fits, read_u32, read_u64, spec_u32, spec_u64};

verus! {

#[derive(Debug)]
pub struct NoteTable<'file> {
    pub notes: Vec<Note<'file>>,
}

pub open spec fn notes_model<'file>(notes: Seq<Note<'file>>) -> Seq<NoteModel> {
    notes.map_values(|note: Note<'file>| note.model())
}

impl<'file> NoteTable<'file> {
    pub open spec fn model(&self) -> Seq<NoteModel> {
        notes_model(self.notes@)
    }

    pub fn new(notes: Vec<Note<'file>>) -> (r: NoteTable<'file>)
        ensures
            r.notes@ == notes@,
    {
        NoteTable { notes }
    }

    /// The entries, in table order.
    pub fn iter(&self) -> (r: &[Note<'file>])
        ensures
            r@ == self.notes@,
    {
        self.notes.as_slice()
    }

    pub fn len(&self) -> (r: usize)
        ensures
            r == self.notes@.len(),
    {
        self.notes.len()
    }

    pub fn is_empty(&self) -> (r: bool)
        ensures
            r == (self.notes@.len() == 0),
    {
        self.notes.len() == 0
    }

    pub fn get(&self, index: usize) -> (r: Option<&Note<'file>>)
        ensures
            index < self.notes@.len() ==> r == Some(&self.notes@[index as int]),
            index >= self.notes@.len() ==> r is None,
    {
        if index < self.notes.len() {
            Some(&self.notes[index])
        } else {
            None
        }
    }
}

/// The word of `word_size` bytes (4 or 8) stored at `offset`.
pub open spec fn spec_read_word(b: Seq<u8>, offset: int, word_size: usize) -> Option<u64> {
    if word_size == 4 {
        if fits(b, offset, 4) {
            Some(spec_u32(b, offset) as u64)
        } else {
            None
        }
    } else if word_size == 8 {
        if fits(b, offset, 8) {
            Some(spec_u64(b, offset))
        } else {
            None
        }
    } else {
        None
    }
}

pub fn read_word(bytes: &[u8], offset: usize, word_size: usize) -> (r: Option<u64>)
    ensures
        r == spec_read_word(bytes@, offset as int, word_size),
{
    if word_size == 4 {
        match read_u32(bytes, offset) {
            Some(word) => Some(word as u64),
            None => None,
        }
    } else if word_size == 8 {
        read_u64(bytes, offset)
    } else {
        None
    }
}

/// `value` rounded up by adding `alignment - 1` and clearing those low bits;
/// `None` for a zero alignment or an overflowing sum.
pub open spec fn spec_align(value: int, alignment: usize) -> Option<int> {
    if alignment == 0 || value + (alignment - 1) > usize::MAX {
        None
    } else {
        Some((((value + (alignment - 1)) as usize) & !((alignment - 1) as usize)) as int)
    }
}

pub fn align(value: usize, alignment: usize) -> (r: Option<usize>)
    ensures
        match r {
            Some(v) => spec_align(value as int, alignment) == Some(v as int),
            None => spec_align(value as int, alignment) is None,
        },
{
    let mask = match alignment.checked_sub(1) {
        Some(mask) => mask,
        None => return None,
    };
    match value.checked_add(mask) {
        Some(sum) => Some(sum & !mask),
        None => None,
    }
}

/// Rounding up to a multiple of 4 or 8 never moves a value down.
pub proof fn lemma_align_not_below(value: usize, alignment: usize)
    requires
        alignment == 4 || alignment == 8,
        value + (alignment - 1) <= usize::MAX,
    ensures
        spec_align(value as int, alignment) matches Some(v) && v >= value,
{
    let sum = (value + (alignment - 1)) as usize;
    if alignment == 4 {
        assert(sum & !3usize >= value) by (bit_vector)
            requires
                sum == value + 3,
        ;
    } else {
        assert(sum & !7usize >= value) by (bit_vector)
            requires
                sum == value + 7,
        ;
    }
}

pub open spec fn spec_word_size(class: Class) -> Option<usize> {
    match class {
        Class::Class32 => Some(4),
        Class::Class64 => Some(8),
        Class::ClassNone => None,
    }
}

/// The note stored at `offset` and the offset of the note after it: three
/// words (name size, descriptor size, type), then the name and the
/// descriptor, each padded to the word size.
pub open spec fn spec_note_at(b: Seq<u8>, word_size: usize, offset: int) -> Option<(NoteModel, int)> {
    match (spec_read_word(b, offset, word_size), spec_read_word(b, offset + word_size, word_size), spec_read_word(b, offset + 2 * word_size, word_size)) {
        (Some(name_size), Some(descriptor_size), Some(kind)) => {
            let name_start = offset + 3 * word_size;
            let name_end = name_start + name_size;
            if name_size > usize::MAX || name_end > b.len() {
                None
            } else {
                match spec_align(name_end, word_size) {
                    None => None,
                    Some(descriptor_start) => {
                        let descriptor_end = descriptor_start + descriptor_size;
                        if descriptor_size > usize::MAX || descriptor_end > usize::MAX || descriptor_end > b.len() {
                            None
                        } else {
                            match spec_align(descriptor_end, word_size) {
                                None => None,
                                Some(next) => Some(
                                    (
                                        NoteModel {
                                            name: b.subrange(name_start, name_end),
                                            kind,
                                            descriptor: b.subrange(descriptor_start, descriptor_end),
                                        },
                                        next,
                                    ),
                                ),
                            }
                        }
                    },
                }
            }
        },
        _ => None,
    }
}

pub proof fn lemma_note_progress(b: Seq<u8>, word_size: usize, offset: int)
    requires
        word_size == 4 || word_size == 8,
        0 <= offset,
    ensures
        spec_note_at(b, word_size, offset) matches Some((_, next)) ==> next > offset,
{
    if let Some((_, next)) = spec_note_at(b, word_size, offset) {
        let name_size = spec_read_word(b, offset, word_size).unwrap();
        let descriptor_size = spec_read_word(b, offset + word_size, word_size).unwrap();
        let name_end = offset + 3 * word_size + name_size;
        lemma_align_not_below(name_end as usize, word_size);
        let descriptor_start = spec_align(name_end, word_size).unwrap();
        lemma_align_not_below((descriptor_start + descriptor_size) as usize, word_size);
    }
}

/// The notes from `offset` to the end of `b`.
pub open spec fn spec_notes_from(b: Seq<u8>, word_size: usize, offset: int) -> Option<Seq<NoteModel>>
    decreases (if offset < b.len() { b.len() - offset } else { 0 }),
{
    if offset < 0 || offset >= b.len() || !(word_size == 4 || word_size == 8) {
        if offset >= b.len() { Some(Seq::empty()) } else { None }
    } else {
        match spec_note_at(b, word_size, offset) {
            None => None,
            Some((note, next)) => {
                proof {
                    lemma_note_progress(b, word_size, offset);
                }
                match spec_notes_from(b, word_size, next) {
                    None => None,
                    Some(rest) => Some(seq![note] + rest),
                }
            },
        }
    }
}

/// What parsing `b` as a note table of the given class yields.
pub open spec fn spec_parse_note_table(b: Seq<u8>, class: Class) -> Option<Seq<NoteModel>> {
    match spec_word_size(class) {
        None => None,
        Some(word_size) => spec_notes_from(b, word_size, 0),
    }
}

/// Byte `i` of a word, least significant first.
pub open spec fn word_byte(value: u64, i: u64) -> u8 {
    ((value >> (8 * i)) & 0xff) as u8
}

/// The `word_size` (4 or 8) bytes of a word, least significant first.
pub open spec fn word_bytes(value: u64, word_size: usize) -> Seq<u8> {
    if word_size == 4 {
        seq![word_byte(value, 0), word_byte(value, 1), word_byte(value, 2), word_byte(value, 3)]
    } else {
        seq![
            word_byte(value, 0), word_byte(value, 1), word_byte(value, 2), word_byte(value, 3),
            word_byte(value, 4), word_byte(value, 5), word_byte(value, 6), word_byte(value, 7),
        ]
    }
}

/// The number of zero bytes that pad `length` bytes to a multiple of the
/// word size.
pub open spec fn padding(length: int, word_size: usize) -> int {
    (word_size - length % (word_size as int)) % (word_size as int)
}

/// `count` zero bytes.
pub open spec fn zeros(count: int) -> Seq<u8> {
    Seq::new(count as nat, |i: int| 0u8)
}

/// The encoding of a note: name size, descriptor size and type as words,
/// then the name and the descriptor, each padded with zeros to the word size.
pub open spec fn encode_note(note: NoteModel, word_size: usize) -> Seq<u8> {
    word_bytes(note.name.len() as u64, word_size) + (word_bytes(note.descriptor.len() as u64, word_size)
        + (word_bytes(note.kind, word_size) + (note.name + (zeros(padding(note.name.len() as int, word_size))
        + (note.descriptor + zeros(padding(note.descriptor.len() as int, word_size)))))))
}

/// The encodings of notes laid end to end.
pub open spec fn encode_notes(notes: Seq<NoteModel>, word_size: usize) -> Seq<u8>
    decreases notes.len(),
{
    if notes.len() == 0 {
        Seq::empty()
    } else {
        encode_note(notes[0], word_size) + encode_notes(notes.drop_first(), word_size)
    }
}

/// Whether a note's sizes and type fit the words of the given size.
pub open spec fn note_fits_words(note: NoteModel, word_size: usize) -> bool {
    word_size == 4 ==> note.name.len() <= u32::MAX && note.descriptor.len() <= u32::MAX && note.kind <= u32::MAX
}

/// Reading a word back from its bytes gives the word.
proof fn lemma_read_word_bytes(b: Seq<u8>, offset: int, value: u64, word_size: usize)
    requires
        word_size == 4 || word_size == 8,
        word_size == 4 ==> value <= u32::MAX,
        0 <= offset,
        offset + word_size <= b.len(),
        b.subrange(offset, offset + word_size) == word_bytes(value, word_size),
    ensures
        spec_read_word(b, offset, word_size) == Some(value),
{
    let w = word_bytes(value, word_size);
    assert(b[offset] == w[0] && b[offset + 1] == w[1] && b[offset + 2] == w[2] && b[offset + 3] == w[3]) by {
        assert(b.subrange(offset, offset + word_size)[0] == b[offset]);
        assert(b.subrange(offset, offset + word_size)[1] == b[offset + 1]);
        assert(b.subrange(offset, offset + word_size)[2] == b[offset + 2]);
        assert(b.subrange(offset, offset + word_size)[3] == b[offset + 3]);
    }
    let b0 = word_byte(value, 0);
    let b1 = word_byte(value, 1);
    let b2 = word_byte(value, 2);
    let b3 = word_byte(value, 3);
    if word_size == 4 {
        assert(b0 + 256 * b1 + 65536 * (b2 + 256 * b3) == value) by (bit_vector)
            requires
                value <= 0xffff_ffffu64,
                b0 == ((value >> 0u64) & 0xff) as u8,
                b1 == ((value >> 8u64) & 0xff) as u8,
                b2 == ((value >> 16u64) & 0xff) as u8,
                b3 == ((value >> 24u64) & 0xff) as u8,
        ;
    } else {
        assert(b[offset + 4] == w[4] && b[offset + 5] == w[5] && b[offset + 6] == w[6] && b[offset + 7] == w[7]) by {
            assert(b.subrange(offset, offset + word_size)[4] == b[offset + 4]);
            assert(b.subrange(offset, offset + word_size)[5] == b[offset + 5]);
            assert(b.subrange(offset, offset + word_size)[6] == b[offset + 6]);
            assert(b.subrange(offset, offset + word_size)[7] == b[offset + 7]);
        }
        let b4 = word_byte(value, 4);
        let b5 = word_byte(value, 5);
        let b6 = word_byte(value, 6);
        let b7 = word_byte(value, 7);
        assert(b0 + 256 * b1 + 65536 * (b2 + 256 * b3) + 4294967296 * (b4 + 256 * b5 + 65536 * (b6 + 256 * b7)) == value) by (bit_vector)
            requires
                b0 == ((value >> 0u64) & 0xff) as u8,
                b1 == ((value >> 8u64) & 0xff) as u8,
                b2 == ((value >> 16u64) & 0xff) as u8,
                b3 == ((value >> 24u64) & 0xff) as u8,
                b4 == ((value >> 32u64) & 0xff) as u8,
                b5 == ((value >> 40u64) & 0xff) as u8,
                b6 == ((value >> 48u64) & 0xff) as u8,
                b7 == ((value >> 56u64) & 0xff) as u8,
        ;
    }
}

/// Rounding a value up to the word size adds exactly its padding.
proof fn lemma_align_adds_padding(value: int, word_size: usize)
    requires
        word_size == 4 || word_size == 8,
        0 <= value,
        value + word_size - 1 <= usize::MAX,
    ensures
        spec_align(value, word_size) == Some(value + padding(value, word_size)),
{
    let y = (value + (word_size - 1)) as usize;
    if word_size == 4 {
        assert(y & !3usize == y - y % 4) by (bit_vector);
        assert(((word_size - 1) as usize) == 3usize);
    } else {
        assert(y & !7usize == y - y % 8) by (bit_vector);
        assert(((word_size - 1) as usize) == 7usize);
    }
    let yi = y as int;
    let ws = word_size as int;
    assert(yi - yi % ws == value + (ws - value % ws) % ws) by (nonlinear_arith)
        requires
            ws == 4 || ws == 8,
            yi == value + ws - 1,
            value >= 0,
    ;
}

/// Padding does not change when a multiple of the word size is added, and
/// it brings a length to a multiple of the word size.
proof fn lemma_padding(length: int, shift: int, word_size: usize)
    requires
        word_size == 4 || word_size == 8,
        length >= 0,
        shift >= 0,
        shift % (word_size as int) == 0,
    ensures
        padding(length + shift, word_size) == padding(length, word_size),
        (length + padding(length, word_size)) % (word_size as int) == 0,
        0 <= padding(length, word_size) < word_size,
{
    if word_size == 4 {
        assert((length + shift) % 4 == length % 4);
    } else {
        assert((length + shift) % 8 == length % 8);
    }
}

/// Splitting a window of `b` that holds `first + rest` into its two parts.
proof fn lemma_peel(b: Seq<u8>, start: int, end: int, first: Seq<u8>, rest: Seq<u8>)
    requires
        0 <= start,
        start + first.len() + rest.len() == end,
        end <= b.len(),
        b.subrange(start, end) == first + rest,
    ensures
        b.subrange(start, start + first.len()) == first,
        b.subrange(start + first.len(), end) == rest,
{
    assert forall|i: int| 0 <= i < first.len() implies b.subrange(start, start + first.len())[i] == first[i] by {
        assert(b.subrange(start, end)[i] == b[start + i]);
        assert((first + rest)[i] == first[i]);
    }
    assert forall|i: int| 0 <= i < rest.len() implies b.subrange(start + first.len(), end)[i] == rest[i] by {
        assert(b.subrange(start, end)[first.len() + i] == b[start + first.len() + i]);
        assert((first + rest)[first.len() + i] == rest[i]);
    }
    assert(b.subrange(start, start + first.len()) =~= first);
    assert(b.subrange(start + first.len(), end) =~= rest);
}

/// The note encoded at a word-aligned `offset` of `b` is read back, with
/// the offset just past its encoding.
#[verifier::spinoff_prover]
#[verifier::rlimit(100)]
proof fn lemma_note_at_encoded(b: Seq<u8>, word_size: usize, offset: int, note: NoteModel)
    requires
        word_size == 4 || word_size == 8,
        note_fits_words(note, word_size),
        0 <= offset,
        offset % (word_size as int) == 0,
        offset + encode_note(note, word_size).len() <= b.len(),
        b.len() + word_size <= usize::MAX,
        b.subrange(offset, offset + encode_note(note, word_size).len()) == encode_note(note, word_size),
    ensures
        spec_note_at(b, word_size, offset) == Some((note, offset + encode_note(note, word_size).len())),
{
    let ws = word_size as int;
    let n = note.name.len() as int;
    let d = note.descriptor.len() as int;
    let pn = padding(n, word_size);
    let pd = padding(d, word_size);
    lemma_padding(n, 0, word_size);
    lemma_padding(d, 0, word_size);
    let wn = word_bytes(n as u64, word_size);
    let wd = word_bytes(d as u64, word_size);
    let wk = word_bytes(note.kind, word_size);
    let zn = zeros(pn);
    let zd = zeros(pd);
    let r5 = note.descriptor + zd;
    let r4 = zn + r5;
    let r3 = note.name + r4;
    let r2 = wk + r3;
    let r1 = wd + r2;
    let end = offset + encode_note(note, word_size).len();
    assert(encode_note(note, word_size) == wn + r1);
    lemma_peel(b, offset, end, wn, r1);
    lemma_peel(b, offset + ws, end, wd, r2);
    lemma_peel(b, offset + 2 * ws, end, wk, r3);
    let name_start = offset + 3 * ws;
    lemma_peel(b, name_start, end, note.name, r4);
    let name_end = name_start + n;
    lemma_peel(b, name_end, end, zn, r5);
    let descriptor_start = name_end + pn;
    lemma_peel(b, descriptor_start, end, note.descriptor, zd);
    let descriptor_end = descriptor_start + d;
    assert(end == descriptor_end + pd);
    lemma_read_word_bytes(b, offset, n as u64, word_size);
    lemma_read_word_bytes(b, offset + ws, d as u64, word_size);
    lemma_read_word_bytes(b, offset + 2 * ws, note.kind, word_size);
    assert(name_start % ws == 0) by (nonlinear_arith)
        requires
            offset % ws == 0,
            name_start == offset + 3 * ws,
            ws == 4 || ws == 8,
    ;
    lemma_padding(n, name_start, word_size);
    lemma_align_adds_padding(name_end, word_size);
    assert(descriptor_start % ws == 0) by {
        assert(descriptor_start == name_start + (n + pn));
        if word_size == 4 {
            assert((name_start + (n + pn)) % 4 == 0);
        } else {
            assert((name_start + (n + pn)) % 8 == 0);
        }
    }
    lemma_padding(d, descriptor_start, word_size);
    lemma_align_adds_padding(descriptor_end, word_size);
}

/// An encoded note is a non-empty whole number of words.
proof fn lemma_encoded_note_length(note: NoteModel, word_size: usize, offset: int)
    requires
        word_size == 4 || word_size == 8,
        offset >= 0,
        offset % (word_size as int) == 0,
    ensures
        encode_note(note, word_size).len() > 0,
        (offset + encode_note(note, word_size).len()) % (word_size as int) == 0,
{
    let n = note.name.len() as int;
    let d = note.descriptor.len() as int;
    let pn = padding(n, word_size);
    let pd = padding(d, word_size);
    lemma_padding(n, 0, word_size);
    lemma_padding(d, 0, word_size);
    assert(encode_note(note, word_size).len() == 3 * word_size + (n + pn) + (d + pd));
    if word_size == 4 {
        assert((offset + 3 * 4 + (n + pn) + (d + pd)) % 4 == 0);
    } else {
        assert((offset + 3 * 8 + (n + pn) + (d + pd)) % 8 == 0);
    }
}

/// The notes from `offset` are the note there, then the notes after it.
proof fn lemma_notes_from_step(b: Seq<u8>, word_size: usize, offset: int, note: NoteModel, next: int, rest: Seq<NoteModel>)
    requires
        word_size == 4 || word_size == 8,
        0 <= offset < b.len(),
        spec_note_at(b, word_size, offset) == Some((note, next)),
        spec_notes_from(b, word_size, next) == Some(rest),
    ensures
        spec_notes_from(b, word_size, offset) == Some(seq![note] + rest),
{
}

/// Parsing notes encoded end to end gives back exactly those notes, in
/// order: every record laid in the bytes becomes one note of the table.
#[verifier::spinoff_prover]
#[verifier::rlimit(100)]
proof fn lemma_notes_from_encoded(b: Seq<u8>, word_size: usize, offset: int, notes: Seq<NoteModel>)
    requires
        word_size == 4 || word_size == 8,
        forall|i: int| 0 <= i < notes.len() ==> note_fits_words(#[trigger] notes[i], word_size),
        0 <= offset <= b.len(),
        offset % (word_size as int) == 0,
        b.len() + word_size <= usize::MAX,
        b.subrange(offset, b.len() as int) == encode_notes(notes, word_size),
    ensures
        spec_notes_from(b, word_size, offset) == Some(notes),
    decreases notes.len(),
{
    if notes.len() == 0 {
        assert(b.subrange(offset, b.len() as int).len() == 0);
        assert(spec_notes_from(b, word_size, offset) == Some(Seq::<NoteModel>::empty()));
        assert(notes =~= Seq::<NoteModel>::empty());
    } else {
        let first = notes[0];
        let rest = notes.drop_first();
        let enc = encode_note(first, word_size);
        let rest_enc = encode_notes(rest, word_size);
        assert(b.subrange(offset, b.len() as int) == enc + rest_enc);
        lemma_peel(b, offset, b.len() as int, enc, rest_enc);
        lemma_note_at_encoded(b, word_size, offset, first);
        let next = offset + enc.len();
        lemma_encoded_note_length(first, word_size, offset);
        assert forall|i: int| 0 <= i < rest.len() implies note_fits_words(#[trigger] rest[i], word_size) by {
            assert(rest[i] == notes[i + 1]);
        }
        lemma_notes_from_encoded(b, word_size, next, rest);
        lemma_notes_from_step(b, word_size, offset, first, next, rest);
        assert(seq![first] + rest =~= notes);
    }
}

/// A note table made of well-formed note records laid end to end, each
/// padded to the class's word size, parses to exactly those notes in order.
pub proof fn lemma_parse_encoded_notes(notes: Seq<NoteModel>, class: Class)
    requires
        spec_word_size(class) is Some,
        forall|i: int| 0 <= i < notes.len() ==> note_fits_words(#[trigger] notes[i], spec_word_size(class)->Some_0),
        encode_notes(notes, spec_word_size(class)->Some_0).len() + spec_word_size(class)->Some_0 <= usize::MAX,
    ensures
        spec_parse_note_table(encode_notes(notes, spec_word_size(class)->Some_0), class) == Some(notes),
{
    let word_size = spec_word_size(class)->Some_0;
    let b = encode_notes(notes, word_size);
    assert(b.subrange(0, b.len() as int) =~= b);
    lemma_notes_from_encoded(b, word_size, 0, notes);
}

/// Reads the note at `offset` and returns it with the offset of the next one.
pub fn parse_note<'file>(bytes: &'file [u8], offset: usize, word_size: usize) -> (r: Option<(Note<'file>, usize)>)
    requires
        word_size == 4 || word_size == 8,
    ensures
        match r {
            Some((note, next)) => spec_note_at(bytes@, word_size, offset as int) == Some((note.model(), next as int)),
            None => spec_note_at(bytes@, word_size, offset as int) is None,
        },
{
    let length = bytes.len();
    let name_size = match read_word(bytes, offset, word_size) {
        Some(word) => word,
        None => return None,
    };
    let mut position = match offset.checked_add(word_size) {
        Some(next) => next,
        None => return None,
    };
    let descriptor_size = match read_word(bytes, position, word_size) {
        Some(word) => word,
        None => return None,
    };
    position = match position.checked_add(word_size) {
        Some(next) => next,
        None => return None,
    };
    let kind = match read_word(bytes, position, word_size) {
        Some(word) => word,
        None => return None,
    };
    position = match position.checked_add(word_size) {
        Some(next) => next,
        None => return None,
    };
    if name_size > usize::MAX as u64 {
        return None;
    }
    let name_end = match position.checked_add(name_size as usize) {
        Some(end) => end,
        None => return None,
    };
    if name_end > length {
        return None;
    }
    let name = vstd::slice::slice_subrange(bytes, position, name_end);
    position = match align(name_end, word_size) {
        Some(next) => next,
        None => return None,
    };
    if descriptor_size > usize::MAX as u64 {
        return None;
    }
    let descriptor_end = match position.checked_add(descriptor_size as usize) {
        Some(end) => end,
        None => return None,
    };
    if descriptor_end > length {
        return None;
    }
    let descriptor = vstd::slice::slice_subrange(bytes, position, descriptor_end);
    position = match align(descriptor_end, word_size) {
        Some(next) => next,
        None => return None,
    };
    Some((Note::new(name, kind, descriptor), position))
}

/// Parses the notes that fill `bytes`; `None` when a note does not fit or
/// the class is neither 32- nor 64-bit.
pub fn parse_note_table<'file>(bytes: &'file [u8], class: Class) -> (r: Option<NoteTable<'file>>)
    ensures
        match r {
            Some(table) => spec_parse_note_table(bytes@, class) == Some(table.model()),
            None => spec_parse_note_table(bytes@, class) is None,
        },
{
    let word_size: usize = match class {
        Class::Class32 => 4,
        Class::Class64 => 8,
        Class::ClassNone => return None,
    };
    let length = bytes.len();
    let mut notes: Vec<Note<'file>> = Vec::new();
    let mut offset: usize = 0;
    while offset < length
        invariant
            length == bytes@.len(),
            word_size == 4 || word_size == 8,
            spec_word_size(class) == Some(word_size),
            spec_notes_from(bytes@, word_size, 0) == (match spec_notes_from(bytes@, word_size, offset as int) {
                Some(rest) => Some(notes_model(notes@) + rest),
                None => None::<Seq<NoteModel>>,
            }),
        decreases (if offset < length { length - offset } else { 0 }),
    {
        let ghost start = offset as int;
        proof {
            lemma_note_progress(bytes@, word_size, start);
        }
        let (note, next) = match parse_note(bytes, offset, word_size) {
            Some(parsed) => parsed,
            None => return None,
        };
        proof {
            let rest = spec_notes_from(bytes@, word_size, next as int);
            if let Some(rest) = rest {
                assert(notes_model(notes@.push(note)) + rest =~= notes_model(notes@) + (seq![note.model()] + rest));
            }
        }
        notes.push(note);
        offset = next;
    }
    proof {
        assert(notes_model(notes@) + Seq::<NoteModel>::empty() =~= notes_model(notes@));
    }
    Some(NoteTable::new(notes))
}

} // verus!
