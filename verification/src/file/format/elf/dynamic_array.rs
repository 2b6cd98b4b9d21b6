//! The dynamic array: `Elf_Dyn` entries up to and including the first
//! `DT_NULL`.
use vstd::prelude::*;
use super::dynamic::{self, Dynamic, Tag};
use super::identification::Class;
use super::representation::{lemma_exactly_fills, lemma_record_fits};

verus! {

/// The index of the first entry tagged `tag`, at or after `from`.
pub open spec fn spec_first_tag(entries: Seq<Dynamic>, tag: Tag, from: int) -> Option<int>
    decreases entries.len() - from,
{
    if from < 0 || from >= entries.len() {
        None
    } else if entries[from].tag == tag {
        Some(from)
    } else {
        spec_first_tag(entries, tag, from + 1)
    }
}

pub proof fn lemma_first_tag(entries: Seq<Dynamic>, tag: Tag, from: int)
    requires
        0 <= from,
    ensures
        spec_first_tag(entries, tag, from) matches Some(i) ==> from <= i < entries.len()
            && entries[i].tag == tag && forall|j: int| from <= j < i ==> entries[j].tag != tag,
        spec_first_tag(entries, tag, from) is None ==> forall|j: int| from <= j < entries.len() ==> entries[j].tag != tag,
    decreases entries.len() - from,
{
    if from < entries.len() && entries[from].tag != tag {
        lemma_first_tag(entries, tag, from + 1);
    }
}

/// The payload of the first entry tagged `tag`.
pub open spec fn spec_first_payload(entries: Seq<Dynamic>, tag: Tag) -> Option<u64> {
    match spec_first_tag(entries, tag, 0) {
        Some(i) => Some(entries[i].payload),
        None => None,
    }
}

#[derive(Debug)]
pub struct DynamicArray {
    pub entries: Vec<Dynamic>,
}

impl DynamicArray {
    pub fn new(entries: Vec<Dynamic>) -> (r: DynamicArray)
        ensures
            r.entries@ == entries@,
    {
        DynamicArray { entries }
    }

    pub fn len(&self) -> (r: usize)
        ensures
            r == self.entries@.len(),
    {
        self.entries.len()
    }

    pub fn is_empty(&self) -> (r: bool)
        ensures
            r == (self.entries@.len() == 0),
    {
        self.entries.len() == 0
    }

    pub fn get(&self, index: usize) -> (r: Option<&Dynamic>)
        ensures
            index < self.entries@.len() ==> r == Some(&self.entries@[index as int]),
            index >= self.entries@.len() ==> r is None,
    {
        if index < self.entries.len() {
            Some(&self.entries[index])
        } else {
            None
        }
    }

    /// The first entry tagged `tag`.
    pub fn first(&self, tag: Tag) -> (r: Option<&Dynamic>)
        ensures
            match r {
                Some(entry) => spec_first_tag(self.entries@, tag, 0) matches Some(i) && *entry == self.entries@[i],
                None => spec_first_tag(self.entries@, tag, 0) is None,
            },
            r matches Some(entry) ==> entry.tag == tag,
            spec_first_payload(self.entries@, tag) == (match r {
                Some(entry) => Some(entry.payload),
                None => None::<u64>,
            }),
    {
        proof {
            lemma_first_tag(self.entries@, tag, 0);
        }
        let mut index: usize = 0;
        while index < self.entries.len()
            invariant
                0 <= index <= self.entries@.len(),
                spec_first_tag(self.entries@, tag, 0) == spec_first_tag(self.entries@, tag, index as int),
            decreases self.entries@.len() - index,
        {
            if self.entries[index].tag == tag {
                return Some(&self.entries[index]);
            }
            index += 1;
        }
        None
    }
}

pub open spec fn dynamic_size(class_32: bool) -> usize {
    if class_32 {
        dynamic::class_32::SIZE
    } else {
        dynamic::class_64::SIZE
    }
}

/// The entry of the given class stored at `offset` (which must fit).
pub open spec fn spec_dynamic_at(class_32: bool, b: Seq<u8>, offset: int) -> Dynamic {
    if class_32 {
        Dynamic::spec_from_class_32(dynamic::class_32::Representation::spec_at(b, offset))
    } else {
        Dynamic::spec_from_class_64(dynamic::class_64::Representation::spec_at(b, offset))
    }
}

/// All `count` entries read from `b`, `entry_size` bytes apart.
pub open spec fn spec_all_dynamic(class_32: bool, b: Seq<u8>, count: nat, entry_size: int) -> Seq<Dynamic> {
    Seq::new(count, |i: int| spec_dynamic_at(class_32, b, i * entry_size))
}

/// The entries read from `b`, `entry_size` bytes apart, ending after the
/// first `DT_NULL` or at the end of the bytes.
pub open spec fn spec_dynamic_entries(class_32: bool, b: Seq<u8>, count: nat, entry_size: int) -> Seq<Dynamic> {
    let all = spec_all_dynamic(class_32, b, count, entry_size);
    match spec_first_tag(all, Tag::Null, 0) {
        Some(end) => all.take(end + 1),
        None => all,
    }
}

/// What parsing `b` as a dynamic array of `entry_size`-byte entries yields.
pub open spec fn spec_parse_dynamic_array(b: Seq<u8>, class: Class, entry_size: usize) -> Option<Seq<Dynamic>> {
    if entry_size == 0 || b.len() % (entry_size as nat) != 0 {
        None
    } else {
        match class {
            Class::ClassNone => None,
            _ => {
                let class_32 = class == Class::Class32;
                if entry_size < dynamic_size(class_32) {
                    None
                } else {
                    Some(spec_dynamic_entries(class_32, b, b.len() / (entry_size as nat), entry_size as int))
                }
            },
        }
    }
}

/// A parsed dynamic array holds `DT_NULL` at most once, as its last entry.
pub proof fn lemma_dynamic_array_ends_at_first_null(b: Seq<u8>, class: Class, entry_size: usize)
    requires
        spec_parse_dynamic_array(b, class, entry_size) is Some,
    ensures
        ({
            let entries = spec_parse_dynamic_array(b, class, entry_size)->Some_0;
            forall|i: int| 0 <= i < entries.len() - 1 ==> (#[trigger] entries[i]).tag != Tag::Null
        }),
{
    let class_32 = class == Class::Class32;
    let count = b.len() / (entry_size as nat);
    let all = spec_all_dynamic(class_32, b, count, entry_size as int);
    lemma_first_tag(all, Tag::Null, 0);
}

/// Every entry's tag is the decoding of its own raw value.
pub open spec fn canonical_tags(entries: Seq<Dynamic>) -> bool {
    forall|i: int| 0 <= i < entries.len() ==> Tag::spec_from_raw((#[trigger] entries[i]).tag.spec_raw()) == entries[i].tag
}

/// The entries of a parsed dynamic array carry decoded tags, and there are
/// no more of them than bytes.
pub proof fn lemma_parsed_dynamic_array_tags(b: Seq<u8>, class: Class, entry_size: usize)
    requires
        spec_parse_dynamic_array(b, class, entry_size) is Some,
    ensures
        canonical_tags(spec_parse_dynamic_array(b, class, entry_size)->Some_0),
        spec_parse_dynamic_array(b, class, entry_size)->Some_0.len() <= b.len(),
{
    let class_32 = class == Class::Class32;
    let count = b.len() / (entry_size as nat);
    let all = spec_all_dynamic(class_32, b, count, entry_size as int);
    let entries = spec_parse_dynamic_array(b, class, entry_size)->Some_0;
    lemma_first_tag(all, Tag::Null, 0);
    assert forall|i: int| 0 <= i < all.len() implies Tag::spec_from_raw((#[trigger] all[i]).tag.spec_raw()) == all[i].tag by {
        let offset = i * entry_size;
        if class_32 {
            let raw = dynamic::class_32::Representation::spec_at(b, offset).d_tag as i64;
            super::dynamic::lemma_tag_raw_roundtrip(raw);
        } else {
            let raw = dynamic::class_64::Representation::spec_at(b, offset).d_tag;
            super::dynamic::lemma_tag_raw_roundtrip(raw);
        }
    }
    assert forall|i: int| 0 <= i < entries.len() implies Tag::spec_from_raw((#[trigger] entries[i]).tag.spec_raw()) == entries[i].tag by {
        assert(entries[i] == all[i]);
    }
    vstd::arithmetic::div_mod::lemma_div_is_ordered_by_denominator(b.len() as int, 1, entry_size as int);
}

/// Parses a dynamic array; `None` for a zero entry size, bytes that entries
/// do not exactly fill, an entry size smaller than the class's `Elf_Dyn`,
/// or an object of neither class.
pub fn parse_dynamic_array(bytes: &[u8], class: Class, entry_size: usize) -> (r: Option<DynamicArray>)
    ensures
        match r {
            Some(array) => spec_parse_dynamic_array(bytes@, class, entry_size) == Some(array.entries@),
            None => spec_parse_dynamic_array(bytes@, class, entry_size) is None,
        },
{
    let length = bytes.len();
    if entry_size == 0 || length % entry_size != 0 {
        return None;
    }
    let count = length / entry_size;
    let class_32 = match class {
        Class::Class32 => true,
        Class::Class64 => false,
        Class::ClassNone => return None,
    };
    let minimum = if class_32 {
        dynamic::class_32::SIZE
    } else {
        dynamic::class_64::SIZE
    };
    if entry_size < minimum {
        return None;
    }
    proof {
        vstd::arithmetic::div_mod::lemma_fundamental_div_mod(length as int, entry_size as int);
        assert(count * entry_size == entry_size * count) by (nonlinear_arith);
    }
    let ghost all = spec_all_dynamic(class_32, bytes@, count as nat, entry_size as int);
    let mut entries: Vec<Dynamic> = Vec::new();
    let mut index: usize = 0;
    proof {
        if count == 0 {
            lemma_first_tag(all, Tag::Null, 0);
            assert(entries@ =~= all);
        }
    }
    while index < count
        invariant_except_break
            0 <= index <= count,
            entries@.len() == index,
            forall|j: int| 0 <= j < index ==> entries@[j] == #[trigger] all[j],
            forall|j: int| 0 <= j < index ==> (#[trigger] all[j]).tag != Tag::Null,
            index == count ==> entries@ == spec_dynamic_entries(class_32, bytes@, count as nat, entry_size as int),
        invariant
            length == bytes@.len(),
            count * entry_size == length,
            entry_size >= dynamic_size(class_32),
            all == spec_all_dynamic(class_32, bytes@, count as nat, entry_size as int),
            all.len() == count,
        ensures
            entries@ == spec_dynamic_entries(class_32, bytes@, count as nat, entry_size as int),
        decreases count - index,
    {
        proof {
            lemma_exactly_fills(count as int, entry_size as int);
            lemma_record_fits(index as int, count as int, entry_size as int, length as int, dynamic_size(class_32) as int);
        }
        let offset = index * entry_size;
        let entry = if class_32 {
            Dynamic::from_class_32(dynamic::class_32::Representation::decode(bytes, offset).unwrap())
        } else {
            Dynamic::from_class_64(dynamic::class_64::Representation::decode(bytes, offset).unwrap())
        };
        assert(entry == all[index as int]);
        let end = match entry.tag {
            Tag::Null => true,
            _ => false,
        };
        entries.push(entry);
        index += 1;
        if end {
            proof {
                lemma_first_tag(all, Tag::Null, 0);
                assert(spec_first_tag(all, Tag::Null, 0) == Some(index - 1));
                assert(entries@ =~= all.take(index as int));
            }
            break;
        }
        proof {
            if index == count {
                lemma_first_tag(all, Tag::Null, 0);
                assert(spec_first_tag(all, Tag::Null, 0) is None);
                assert(entries@ =~= all);
            }
        }
    }
    Some(DynamicArray::new(entries))
}

} // verus!
