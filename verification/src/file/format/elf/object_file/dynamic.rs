//! Dynamic-linking information reached through the `PT_DYNAMIC` segment:
//! the dynamic array and the string, symbol, hash and relocation tables and
//! the dependencies that its entries locate by virtual address.
use vstd::prelude::*;
use vstd::string::StringSliceAdditionalSpecFns;
use super::ObjectFile;
use super::sections::{class_32, spec_class_32};
use super::super::dynamic::{Dynamic, Tag};
use super::super::dynamic_array::{
    canonical_tags, lemma_first_tag, lemma_parsed_dynamic_array_tags, spec_first_tag,
    dynamic_size, parse_dynamic_array, spec_first_payload, spec_parse_dynamic_array, DynamicArray,
};
use super::super::dynamic_relocation_table::{
    relocation_table_models, Addend, DynamicRelocationTable, DynamicRelocationTableModel, Purpose,
};
use super::super::dynamic_hash_table::{DynamicHashTable, DynamicHashTableModel};
use super::super::dynamic_symbol_table::{DynamicSymbolTable, DynamicSymbolTableModel};
use super::super::program_header::Type;
use super::super::relocation::{decode_relocations, relocation_size, spec_relocations};
use super::super::representation::{read_u32, read_words, spec_u32, spec_words};
use super::super::shared_object_dependencies::{
    needed_model, str_model, SharedObjectDependencies, SharedObjectDependenciesModel, SharedObjectDependency,
};
use super::super::string_table::{spec_str_at, StringTable};
use super::super::symbol;
use super::super::symbol_table::{decode_symbols, resolve_section_indices, spec_section_indices, spec_symbols, symbol_size};

verus! {

/// The `DT_NEEDED` dependencies among the first `count` entries: each
/// entry's index with the string its payload names; `None` when one of
/// those strings is missing or not UTF-8.
pub open spec fn spec_needed(entries: Seq<Dynamic>, strings: Seq<u8>, count: nat) -> Option<Seq<(usize, Seq<u8>)>>
    decreases count,
{
    if count == 0 {
        Some(Seq::empty())
    } else {
        match spec_needed(entries, strings, (count - 1) as nat) {
            None => None,
            Some(found) => if entries[count - 1].tag == Tag::Needed {
                match spec_str_at(strings, entries[count - 1].payload as usize as int) {
                    None => None,
                    Some(name) => Some(found.push(((count - 1) as usize, name))),
                }
            } else {
                Some(found)
            },
        }
    }
}

/// Once a prefix of the entries names a missing dependency, every longer
/// prefix does.
pub proof fn lemma_needed_failure_persists(entries: Seq<Dynamic>, strings: Seq<u8>, failed: nat, longer: nat)
    requires
        failed <= longer,
        spec_needed(entries, strings, failed) is None,
    ensures
        spec_needed(entries, strings, longer) is None,
    decreases longer,
{
    if longer > failed {
        lemma_needed_failure_persists(entries, strings, failed, (longer - 1) as nat);
    }
}

/// The string that the payload of the first entry tagged `tag` names.
pub open spec fn spec_tagged_str(entries: Seq<Dynamic>, strings: Seq<u8>, tag: Tag) -> Option<Seq<u8>> {
    match spec_first_payload(entries, tag) {
        Some(payload) => spec_str_at(strings, payload as usize as int),
        None => None,
    }
}

/// The index of the first entry, at or after `from`, whose raw tag is `raw`.
pub open spec fn spec_first_raw_tag(entries: Seq<Dynamic>, raw: i64, from: int) -> Option<int>
    decreases entries.len() - from,
{
    if from < 0 || from >= entries.len() {
        None
    } else if entries[from].tag.spec_raw() == raw {
        Some(from)
    } else {
        spec_first_raw_tag(entries, raw, from + 1)
    }
}

/// The string that the payload of the first entry with raw tag `raw` names.
pub open spec fn spec_raw_tag_str(entries: Seq<Dynamic>, strings: Seq<u8>, raw: i64) -> Option<Seq<u8>> {
    match spec_first_raw_tag(entries, raw, 0) {
        Some(i) => spec_str_at(strings, entries[i].payload as usize as int),
        None => None,
    }
}

/// With decoded tags, finding a tag and finding its raw value agree.
proof fn lemma_first_raw_tag(entries: Seq<Dynamic>, tag: Tag, from: int)
    requires
        0 <= from,
        canonical_tags(entries),
        Tag::spec_from_raw(tag.spec_raw()) == tag,
    ensures
        spec_first_raw_tag(entries, tag.spec_raw(), from) == spec_first_tag(entries, tag, from),
    decreases entries.len() - from,
{
    if from < entries.len() {
        assert(Tag::spec_from_raw(entries[from].tag.spec_raw()) == entries[from].tag);
        lemma_first_raw_tag(entries, tag, from + 1);
    }
}

/// What `spec_needed` collects: for each `DT_NEEDED` entry among the first
/// `count`, in order, its index and the string its payload names.
proof fn lemma_needed_entries(entries: Seq<Dynamic>, strings: Seq<u8>, count: nat)
    requires
        count <= entries.len(),
        count <= usize::MAX,
        spec_needed(entries, strings, count) is Some,
    ensures
        ({
            let needed = spec_needed(entries, strings, count)->Some_0;
            &&& forall|j: int| 0 <= j < needed.len() ==> (#[trigger] needed[j]).0 < count
                && entries[needed[j].0 as int].tag == Tag::Needed
                && spec_str_at(strings, entries[needed[j].0 as int].payload as usize as int) == Some(needed[j].1)
            &&& forall|i: int| 0 <= i < count && (#[trigger] entries[i]).tag == Tag::Needed
                ==> exists|j: int| 0 <= j < needed.len() && (#[trigger] needed[j]).0 == i
            &&& forall|j: int, l: int| 0 <= j < l < needed.len() ==> (#[trigger] needed[j]).0 < (#[trigger] needed[l]).0
        }),
    decreases count,
{
    if count > 0 {
        lemma_needed_entries(entries, strings, (count - 1) as nat);
        let previous = spec_needed(entries, strings, (count - 1) as nat)->Some_0;
        let needed = spec_needed(entries, strings, count)->Some_0;
        let last = (count - 1) as int;
        if entries[last].tag == Tag::Needed {
            let name = spec_str_at(strings, entries[last].payload as usize as int)->Some_0;
            assert(needed == previous.push(((count - 1) as usize, name)));
            assert(needed[previous.len() as int].0 == last);
            assert forall|i: int| 0 <= i < count && (#[trigger] entries[i]).tag == Tag::Needed
                implies exists|j: int| 0 <= j < needed.len() && (#[trigger] needed[j]).0 == i by {
                if i < last {
                    let j = choose|j: int| 0 <= j < previous.len() && (#[trigger] previous[j]).0 == i;
                    assert(needed[j] == previous[j]);
                } else {
                    assert(needed[previous.len() as int].0 == i);
                }
            }
            assert forall|j: int, l: int| 0 <= j < l < needed.len() implies (#[trigger] needed[j]).0 < (#[trigger] needed[l]).0 by {
                if l < previous.len() {
                    assert(needed[j] == previous[j] && needed[l] == previous[l]);
                } else {
                    assert(needed[j] == previous[j]);
                }
            }
            assert forall|j: int| 0 <= j < needed.len() implies (#[trigger] needed[j]).0 < count
                && entries[needed[j].0 as int].tag == Tag::Needed
                && spec_str_at(strings, entries[needed[j].0 as int].payload as usize as int) == Some(needed[j].1) by {
                if j < previous.len() {
                    assert(needed[j] == previous[j]);
                }
            }
        } else {
            assert(needed == previous);
            assert forall|i: int| 0 <= i < count && (#[trigger] entries[i]).tag == Tag::Needed
                implies exists|j: int| 0 <= j < needed.len() && (#[trigger] needed[j]).0 == i by {
                assert(i < last);
            }
        }
    }
}

/// Appends a located table to the tables found so far: a part that is
/// absent (`None`) adds nothing, one that is present but fails
/// (`Some(None)`) makes the whole result fail.
pub open spec fn spec_append_table(
    tables: Option<Seq<DynamicRelocationTableModel>>,
    part: Option<Option<DynamicRelocationTableModel>>,
) -> Option<Seq<DynamicRelocationTableModel>> {
    match (tables, part) {
        (None, _) => None,
        (Some(found), None) => Some(found),
        (Some(_), Some(None)) => None,
        (Some(found), Some(Some(table))) => Some(found.push(table)),
    }
}

impl<'file> ObjectFile<'file> {
    /// The bucket and chain counts at the head of the System V hash table at
    /// virtual address `address`.
    pub open spec fn spec_system_v_hash_counts(&self, address: u64) -> Option<(u32, u32)> {
        match self.spec_file_range_for_virtual_address(address, 8) {
            Some(b) => Some((spec_u32(b, 0), spec_u32(b, 4))),
            None => None,
        }
    }

    fn system_v_hash_counts(&self, address: u64) -> (r: Option<(u32, u32)>)
        ensures
            r == self.spec_system_v_hash_counts(address),
    {
        let bytes = match self.file_range_for_virtual_address(address, 8) {
            Some(bytes) => bytes,
            None => return None,
        };
        let bucket_count = read_u32(bytes, 0).unwrap();
        let chain_count = read_u32(bytes, 4).unwrap();
        Some((bucket_count, chain_count))
    }

    /// The entries of the dynamic array in the `PT_DYNAMIC` segment `index`.
    pub open spec fn spec_dynamic_array(&self, index: int) -> Option<Seq<Dynamic>> {
        if index < 0 || index >= self.program_headers@.len() || self.program_headers@[index].kind != Type::Dynamic {
            None
        } else {
            match (self.spec_segment(index), spec_class_32(self.header.identification.class)) {
                (Some((_, image)), Some(class_32)) => spec_parse_dynamic_array(
                    image,
                    self.header.identification.class,
                    dynamic_size(class_32),
                ),
                _ => None,
            }
        }
    }

    /// The dynamic array held by program header `index`, which must be a
    /// `PT_DYNAMIC` segment; its entries are the object class's `Elf_Dyn`.
    pub fn dynamic_array_from_program_header(&self, index: usize) -> (r: Option<DynamicArray>)
        ensures
            match r {
                Some(array) => self.spec_dynamic_array(index as int) == Some(array.entries@),
                None => self.spec_dynamic_array(index as int) is None,
            },
    {
        if index >= self.program_headers.len() {
            return None;
        }
        match self.program_headers[index].kind {
            Type::Dynamic => {},
            _ => return None,
        }
        let segment = match self.segment(index) {
            Some(segment) => segment,
            None => return None,
        };
        let entry_size = match class_32(self.header.identification.class) {
            Some(true) => super::super::dynamic::class_32::SIZE,
            Some(false) => super::super::dynamic::class_64::SIZE,
            None => return None,
        };
        parse_dynamic_array(segment.file_image, self.header.identification.class, entry_size)
    }

    /// The dynamic string table: `DT_STRSZ` bytes at the address `DT_STRTAB` gives.
    pub open spec fn spec_dynamic_string_table(&self, index: int) -> Option<Seq<u8>> {
        match self.spec_dynamic_array(index) {
            None => None,
            Some(entries) => match (spec_first_payload(entries, Tag::StringTable), spec_first_payload(entries, Tag::StringTableSize)) {
                (Some(address), Some(size)) => self.spec_file_range_for_virtual_address(address, size),
                _ => None,
            },
        }
    }

    pub fn dynamic_string_table_from_program_header(&self, index: usize) -> (r: Option<StringTable<'file>>)
        ensures
            match r {
                Some(t) => self.spec_dynamic_string_table(index as int) == Some(t.bytes@),
                None => self.spec_dynamic_string_table(index as int) is None,
            },
    {
        let array = match self.dynamic_array_from_program_header(index) {
            Some(array) => array,
            None => return None,
        };
        let address = match array.first(Tag::StringTable) {
            Some(entry) => entry.payload,
            None => return None,
        };
        let size = match array.first(Tag::StringTableSize) {
            Some(entry) => entry.payload,
            None => return None,
        };
        match self.file_range_for_virtual_address(address, size) {
            Some(bytes) => Some(StringTable::new(bytes)),
            None => None,
        }
    }

    /// The extended section indices of the dynamic symbols: `Some(None)`
    /// without `DT_SYMTAB_SHNDX`, `None` when its `count` words do not lie
    /// in a loaded file image.
    pub open spec fn spec_dynamic_extended_indices(&self, entries: Seq<Dynamic>, count: nat) -> Option<Option<Seq<u8>>> {
        match spec_first_payload(entries, Tag::SymbolTableSectionIndex) {
            None => Some(None),
            Some(address) => if count * 4 > usize::MAX {
                None
            } else {
                match self.spec_file_range_for_virtual_address(address, (count * 4) as u64) {
                    None => None,
                    Some(b) => Some(Some(b)),
                }
            },
        }
    }

    /// The dynamic symbol table: as many `DT_SYMENT`-byte symbols at
    /// `DT_SYMTAB` as the System V hash table at `DT_HASH` has chain entries,
    /// named from the dynamic string table, with section indices resolved
    /// through `DT_SYMTAB_SHNDX` when present.
    pub open spec fn spec_dynamic_symbol_table(&self, index: int) -> Option<DynamicSymbolTableModel> {
        match (self.spec_dynamic_array(index), self.spec_dynamic_string_table(index)) {
            (Some(entries), Some(strings)) => match (
                spec_first_payload(entries, Tag::Hash),
                spec_first_payload(entries, Tag::SymbolTable),
                spec_first_payload(entries, Tag::SymbolEntrySize),
                spec_class_32(self.header.identification.class),
            ) {
                (Some(hash_address), Some(symbol_address), Some(entry_size), Some(class_32)) => match self.spec_system_v_hash_counts(hash_address) {
                    None => None,
                    Some((_, chain_count)) => if entry_size > usize::MAX || chain_count * entry_size > usize::MAX
                        || entry_size < symbol_size(class_32) {
                        None
                    } else {
                        match self.spec_file_range_for_virtual_address(symbol_address, (chain_count * entry_size) as u64) {
                            None => None,
                            Some(symbol_bytes) => {
                                let symbols = spec_symbols(class_32, symbol_bytes, chain_count as nat, entry_size as int);
                                match self.spec_dynamic_extended_indices(entries, chain_count as nat) {
                                    None => None,
                                    Some(extended) => match spec_section_indices(symbols, extended) {
                                        None => None,
                                        Some(section_indices) => Some(DynamicSymbolTableModel { symbols, strings, section_indices }),
                                    },
                                }
                            },
                        }
                    },
                },
                _ => None,
            },
            _ => None,
        }
    }

    pub fn dynamic_symbol_table_from_program_header(&self, index: usize) -> (r: Option<DynamicSymbolTable<'file>>)
        ensures
            match r {
                Some(t) => self.spec_dynamic_symbol_table(index as int) == Some(t.model()),
                None => self.spec_dynamic_symbol_table(index as int) is None,
            },
    {
        let array = match self.dynamic_array_from_program_header(index) {
            Some(array) => array,
            None => return None,
        };
        let strings = match self.dynamic_string_table_from_program_header(index) {
            Some(strings) => strings,
            None => return None,
        };
        let hash_address = match array.first(Tag::Hash) {
            Some(entry) => entry.payload,
            None => return None,
        };
        let symbol_address = match array.first(Tag::SymbolTable) {
            Some(entry) => entry.payload,
            None => return None,
        };
        let raw_entry_size = match array.first(Tag::SymbolEntrySize) {
            Some(entry) => entry.payload,
            None => return None,
        };
        let class_32 = match class_32(self.header.identification.class) {
            Some(class_32) => class_32,
            None => return None,
        };
        let chain_count = match self.system_v_hash_counts(hash_address) {
            Some((_, chain_count)) => chain_count,
            None => return None,
        };
        if raw_entry_size > usize::MAX as u64 {
            return None;
        }
        let entry_size = raw_entry_size as usize;
        let count = chain_count as usize;
        let byte_size = match count.checked_mul(entry_size) {
            Some(byte_size) => byte_size,
            None => return None,
        };
        let minimum = if class_32 {
            symbol::class_32::SIZE
        } else {
            symbol::class_64::SIZE
        };
        if entry_size < minimum {
            return None;
        }
        let symbol_bytes = match self.file_range_for_virtual_address(symbol_address, byte_size as u64) {
            Some(symbol_bytes) => symbol_bytes,
            None => return None,
        };
        let symbols = decode_symbols(symbol_bytes, count, entry_size, class_32);
        let extended = match array.first(Tag::SymbolTableSectionIndex) {
            Some(entry) => {
                let size = match count.checked_mul(4) {
                    Some(size) => size,
                    None => return None,
                };
                match self.file_range_for_virtual_address(entry.payload, size as u64) {
                    Some(bytes) => Some(bytes),
                    None => return None,
                }
            },
            None => None,
        };
        let section_indices = match resolve_section_indices(&symbols, extended) {
            Some(section_indices) => section_indices,
            None => return None,
        };
        Some(DynamicSymbolTable::new(symbols, strings, section_indices))
    }

    /// The System V hash table at `DT_HASH`: its bucket and chain arrays,
    /// with the dynamic symbol table it indexes.
    pub open spec fn spec_dynamic_hash_table(&self, index: int) -> Option<DynamicHashTableModel> {
        match self.spec_dynamic_array(index) {
            None => None,
            Some(entries) => match spec_first_payload(entries, Tag::Hash) {
                None => None,
                Some(hash_address) => match self.spec_system_v_hash_counts(hash_address) {
                    None => None,
                    Some((bucket_count, chain_count)) => if bucket_count + chain_count > usize::MAX
                        || 8 + 4 * (bucket_count + chain_count) > usize::MAX {
                        None
                    } else {
                        match self.spec_file_range_for_virtual_address(hash_address, (8 + 4 * (bucket_count + chain_count)) as u64) {
                            None => None,
                            Some(bytes) => match (
                                spec_words(bytes, 8, bucket_count as nat),
                                spec_words(bytes, 8 + 4 * bucket_count, chain_count as nat),
                                self.spec_dynamic_symbol_table(index),
                            ) {
                                (Some(buckets), Some(chains), Some(symbols)) => Some(DynamicHashTableModel { buckets, chains, symbols }),
                                _ => None,
                            },
                        }
                    },
                },
            },
        }
    }

    pub fn dynamic_hash_table_from_program_header(&self, index: usize) -> (r: Option<DynamicHashTable<'file>>)
        ensures
            match r {
                Some(t) => self.spec_dynamic_hash_table(index as int) == Some(t.model()),
                None => self.spec_dynamic_hash_table(index as int) is None,
            },
    {
        let array = match self.dynamic_array_from_program_header(index) {
            Some(array) => array,
            None => return None,
        };
        let hash_address = match array.first(Tag::Hash) {
            Some(entry) => entry.payload,
            None => return None,
        };
        let (bucket_count, chain_count) = match self.system_v_hash_counts(hash_address) {
            Some(counts) => counts,
            None => return None,
        };
        let total_words = match (bucket_count as usize).checked_add(chain_count as usize) {
            Some(total_words) => total_words,
            None => return None,
        };
        let total_size = match total_words.checked_mul(4) {
            Some(words_size) => match words_size.checked_add(8) {
                Some(total_size) => total_size,
                None => return None,
            },
            None => return None,
        };
        let bytes = match self.file_range_for_virtual_address(hash_address, total_size as u64) {
            Some(bytes) => bytes,
            None => return None,
        };
        let buckets = match read_words(bytes, 8, bucket_count as usize) {
            Some(buckets) => buckets,
            None => return None,
        };
        let chains = match read_words(bytes, 8 + 4 * (bucket_count as usize), chain_count as usize) {
            Some(chains) => chains,
            None => return None,
        };
        let symbols = match self.dynamic_symbol_table_from_program_header(index) {
            Some(symbols) => symbols,
            None => return None,
        };
        Some(DynamicHashTable::new(buckets, chains, symbols))
    }

    /// A relocation table of `size` bytes of `entry_size`-byte entries at
    /// virtual address `address`, whose symbols are the dynamic symbols.
    pub open spec fn spec_dynamic_relocation_table_from_parts(
        &self,
        program_header_index: int,
        address: u64,
        size: u64,
        entry_size: u64,
        addend: Addend,
        purpose: Purpose,
    ) -> Option<DynamicRelocationTableModel> {
        if entry_size > usize::MAX || size > usize::MAX || entry_size == 0 || size % entry_size != 0 {
            None
        } else {
            match (self.spec_file_range_for_virtual_address(address, size), spec_class_32(self.header.identification.class)) {
                (Some(bytes), Some(class_32)) => {
                    let explicit = addend == Addend::Explicit;
                    if entry_size < relocation_size(class_32, explicit) {
                        None
                    } else {
                        match self.spec_dynamic_symbol_table(program_header_index) {
                            None => None,
                            Some(symbols) => Some(
                                DynamicRelocationTableModel {
                                    relocations: spec_relocations(class_32, explicit, bytes, (size / entry_size) as nat, entry_size as int),
                                    symbols,
                                    addend,
                                    purpose,
                                },
                            ),
                        }
                    }
                },
                _ => None,
            }
        }
    }

    fn dynamic_relocation_table_from_parts(
        &self,
        program_header_index: usize,
        address: u64,
        size: u64,
        entry_size: u64,
        addend: Addend,
        purpose: Purpose,
    ) -> (r: Option<DynamicRelocationTable<'file>>)
        ensures
            match r {
                Some(t) => self.spec_dynamic_relocation_table_from_parts(program_header_index as int, address, size, entry_size, addend, purpose) == Some(t.model()),
                None => self.spec_dynamic_relocation_table_from_parts(program_header_index as int, address, size, entry_size, addend, purpose) is None,
            },
    {
        if entry_size > usize::MAX as u64 || size > usize::MAX as u64 {
            return None;
        }
        let entry_size = entry_size as usize;
        let byte_size = size as usize;
        if entry_size == 0 || byte_size % entry_size != 0 {
            return None;
        }
        let bytes = match self.file_range_for_virtual_address(address, size) {
            Some(bytes) => bytes,
            None => return None,
        };
        let class_32 = match class_32(self.header.identification.class) {
            Some(class_32) => class_32,
            None => return None,
        };
        let explicit = match addend {
            Addend::Explicit => true,
            Addend::Implicit => false,
        };
        let minimum = if class_32 {
            if explicit {
                super::super::relocation::class_32::RELA_SIZE
            } else {
                super::super::relocation::class_32::REL_SIZE
            }
        } else {
            if explicit {
                super::super::relocation::class_64::RELA_SIZE
            } else {
                super::super::relocation::class_64::REL_SIZE
            }
        };
        if entry_size < minimum {
            return None;
        }
        let count = byte_size / entry_size;
        proof {
            vstd::arithmetic::div_mod::lemma_fundamental_div_mod(byte_size as int, entry_size as int);
            assert(count * entry_size == entry_size * count) by (nonlinear_arith);
        }
        let relocations = decode_relocations(bytes, count, entry_size, class_32, explicit);
        let symbols = match self.dynamic_symbol_table_from_program_header(program_header_index) {
            Some(symbols) => symbols,
            None => return None,
        };
        Some(DynamicRelocationTable::new(relocations, symbols, addend, purpose))
    }

    /// The table that three tags locate (address, size, entry size), when
    /// all three are present.
    pub open spec fn spec_tagged_relocation_part(
        &self,
        index: int,
        entries: Seq<Dynamic>,
        address_tag: Tag,
        size_tag: Tag,
        entry_size_tag: Tag,
        addend: Addend,
    ) -> Option<Option<DynamicRelocationTableModel>> {
        match (
            spec_first_payload(entries, address_tag),
            spec_first_payload(entries, size_tag),
            spec_first_payload(entries, entry_size_tag),
        ) {
            (Some(address), Some(size), Some(entry_size)) => Some(
                self.spec_dynamic_relocation_table_from_parts(index, address, size, entry_size, addend, Purpose::General),
            ),
            _ => None,
        }
    }

    /// The procedure-linkage-table relocations: `DT_PLTRELSZ` bytes at
    /// `DT_JMPREL`, of the form `DT_PLTREL` names.
    pub open spec fn spec_procedure_linkage_table_part(&self, index: int, entries: Seq<Dynamic>) -> Option<Option<DynamicRelocationTableModel>> {
        match (
            spec_first_payload(entries, Tag::JumpRelocation),
            spec_first_payload(entries, Tag::ProcedureLinkageTableRelocationSize),
            spec_first_payload(entries, Tag::ProcedureLinkageTableRelocation),
        ) {
            (Some(address), Some(size), Some(format)) => if format > i64::MAX {
                Some(None)
            } else {
                match Tag::spec_from_raw(format as i64) {
                    Tag::Relocation => match spec_first_payload(entries, Tag::RelocationEntrySize) {
                        None => Some(None),
                        Some(entry_size) => Some(
                            self.spec_dynamic_relocation_table_from_parts(
                                index,
                                address,
                                size,
                                entry_size,
                                Addend::Implicit,
                                Purpose::ProcedureLinkageTable,
                            ),
                        ),
                    },
                    Tag::RelocationWithAddend => match spec_first_payload(entries, Tag::RelocationWithAddendEntrySize) {
                        None => Some(None),
                        Some(entry_size) => Some(
                            self.spec_dynamic_relocation_table_from_parts(
                                index,
                                address,
                                size,
                                entry_size,
                                Addend::Explicit,
                                Purpose::ProcedureLinkageTable,
                            ),
                        ),
                    },
                    _ => Some(None),
                }
            },
            _ => None,
        }
    }

    /// The relocation tables the dynamic array locates, in the order
    /// `DT_REL`, `DT_RELA`, `DT_JMPREL`.
    pub open spec fn spec_dynamic_relocation_tables(&self, index: int) -> Option<Seq<DynamicRelocationTableModel>> {
        match self.spec_dynamic_array(index) {
            None => None,
            Some(entries) => spec_append_table(
                spec_append_table(
                    spec_append_table(
                        Some(Seq::empty()),
                        self.spec_tagged_relocation_part(
                            index,
                            entries,
                            Tag::Relocation,
                            Tag::RelocationSize,
                            Tag::RelocationEntrySize,
                            Addend::Implicit,
                        ),
                    ),
                    self.spec_tagged_relocation_part(
                        index,
                        entries,
                        Tag::RelocationWithAddend,
                        Tag::RelocationWithAddendSize,
                        Tag::RelocationWithAddendEntrySize,
                        Addend::Explicit,
                    ),
                ),
                self.spec_procedure_linkage_table_part(index, entries),
            ),
        }
    }

    pub fn dynamic_relocation_tables_from_program_header(&self, index: usize) -> (r: Option<Vec<DynamicRelocationTable<'file>>>)
        ensures
            match r {
                Some(tables) => self.spec_dynamic_relocation_tables(index as int) == Some(relocation_table_models(tables@)),
                None => self.spec_dynamic_relocation_tables(index as int) is None,
            },
    {
        let array = match self.dynamic_array_from_program_header(index) {
            Some(array) => array,
            None => return None,
        };
        let ghost entries = array.entries@;
        let mut tables: Vec<DynamicRelocationTable<'file>> = Vec::new();
        assert(relocation_table_models(tables@) =~= Seq::<DynamicRelocationTableModel>::empty());
        let ghost step1 = spec_append_table(
            Some(Seq::empty()),
            self.spec_tagged_relocation_part(
                index as int,
                entries,
                Tag::Relocation,
                Tag::RelocationSize,
                Tag::RelocationEntrySize,
                Addend::Implicit,
            ),
        );
        match (array.first(Tag::Relocation), array.first(Tag::RelocationSize), array.first(Tag::RelocationEntrySize)) {
            (Some(address), Some(size), Some(entry_size)) => {
                match self.dynamic_relocation_table_from_parts(
                    index,
                    address.payload,
                    size.payload,
                    entry_size.payload,
                    Addend::Implicit,
                    Purpose::General,
                ) {
                    Some(table) => {
                        let ghost before = tables@;
                        tables.push(table);
                        assert(relocation_table_models(tables@) =~= relocation_table_models(before).push(table.model()));
                    },
                    None => return None,
                }
            },
            _ => {},
        }
        assert(step1 == Some(relocation_table_models(tables@)));
        let ghost step2 = spec_append_table(
            step1,
            self.spec_tagged_relocation_part(
                index as int,
                entries,
                Tag::RelocationWithAddend,
                Tag::RelocationWithAddendSize,
                Tag::RelocationWithAddendEntrySize,
                Addend::Explicit,
            ),
        );
        match (
            array.first(Tag::RelocationWithAddend),
            array.first(Tag::RelocationWithAddendSize),
            array.first(Tag::RelocationWithAddendEntrySize),
        ) {
            (Some(address), Some(size), Some(entry_size)) => {
                match self.dynamic_relocation_table_from_parts(
                    index,
                    address.payload,
                    size.payload,
                    entry_size.payload,
                    Addend::Explicit,
                    Purpose::General,
                ) {
                    Some(table) => {
                        let ghost before = tables@;
                        tables.push(table);
                        assert(relocation_table_models(tables@) =~= relocation_table_models(before).push(table.model()));
                    },
                    None => return None,
                }
            },
            _ => {},
        }
        assert(step2 == Some(relocation_table_models(tables@)));
        match (
            array.first(Tag::JumpRelocation),
            array.first(Tag::ProcedureLinkageTableRelocationSize),
            array.first(Tag::ProcedureLinkageTableRelocation),
        ) {
            (Some(address), Some(size), Some(format)) => {
                if format.payload > i64::MAX as u64 {
                    return None;
                }
                let (addend, entry_size) = match Tag::from_raw(format.payload as i64) {
                    Tag::Relocation => match array.first(Tag::RelocationEntrySize) {
                        Some(entry) => (Addend::Implicit, entry.payload),
                        None => return None,
                    },
                    Tag::RelocationWithAddend => match array.first(Tag::RelocationWithAddendEntrySize) {
                        Some(entry) => (Addend::Explicit, entry.payload),
                        None => return None,
                    },
                    _ => return None,
                };
                match self.dynamic_relocation_table_from_parts(
                    index,
                    address.payload,
                    size.payload,
                    entry_size,
                    addend,
                    Purpose::ProcedureLinkageTable,
                ) {
                    Some(table) => {
                        let ghost before = tables@;
                        tables.push(table);
                        assert(relocation_table_models(tables@) =~= relocation_table_models(before).push(table.model()));
                    },
                    None => return None,
                }
            },
            _ => {},
        }
        Some(tables)
    }

    /// The dependency information of the dynamic array: every `DT_NEEDED`
    /// name, and the `DT_SONAME`, `DT_RPATH` and `DT_RUNPATH` strings.
    pub open spec fn spec_shared_object_dependencies(&self, index: int) -> Option<SharedObjectDependenciesModel> {
        match (self.spec_dynamic_array(index), self.spec_dynamic_string_table(index)) {
            (Some(entries), Some(strings)) => match spec_needed(entries, strings, entries.len()) {
                None => None,
                Some(needed) => Some(
                    SharedObjectDependenciesModel {
                        needed,
                        shared_object_name: spec_tagged_str(entries, strings, Tag::SharedObjectName),
                        runtime_search_path: spec_tagged_str(entries, strings, Tag::RuntimeSearchPath),
                        run_path: spec_tagged_str(entries, strings, Tag::RunPath),
                    },
                ),
            },
            _ => None,
        }
    }

    pub fn shared_object_dependencies_from_program_header(&self, index: usize) -> (r: Option<SharedObjectDependencies<'file>>)
        ensures
            match r {
                Some(d) => self.spec_shared_object_dependencies(index as int) == Some(d.model()),
                None => self.spec_shared_object_dependencies(index as int) is None,
            },
    {
        let array = match self.dynamic_array_from_program_header(index) {
            Some(array) => array,
            None => return None,
        };
        let strings = match self.dynamic_string_table_from_program_header(index) {
            Some(strings) => strings,
            None => return None,
        };
        let ghost entries = array.entries@;
        let mut needed: Vec<SharedObjectDependency<'file>> = Vec::new();
        let mut entry_index: usize = 0;
        assert(needed_model(needed@) =~= Seq::<(usize, Seq<u8>)>::empty());
        while entry_index < array.entries.len()
            invariant
                entries == array.entries@,
                self.spec_dynamic_array(index as int) == Some(entries),
                self.spec_dynamic_string_table(index as int) == Some(strings.bytes@),
                0 <= entry_index <= entries.len(),
                spec_needed(entries, strings.bytes@, entry_index as nat) == Some(needed_model(needed@)),
            decreases entries.len() - entry_index,
        {
            let entry = array.entries[entry_index];
            match entry.tag {
                Tag::Needed => {
                    match strings.get_str(entry.payload as usize) {
                        Some(name) => {
                            let ghost before = needed@;
                            needed.push(SharedObjectDependency::new(entry_index, name));
                            assert(needed_model(needed@) =~= needed_model(before).push((entry_index, name.spec_bytes())));
                        },
                        None => {
                            proof {
                                assert(entry == entries[entry_index as int]);
                                assert(spec_needed(entries, strings.bytes@, (entry_index + 1) as nat) is None);
                                lemma_needed_failure_persists(entries, strings.bytes@, (entry_index + 1) as nat, entries.len());
                            }
                            return None;
                        },
                    }
                },
                _ => {},
            }
            entry_index += 1;
        }
        let shared_object_name = match array.first(Tag::SharedObjectName) {
            Some(entry) => strings.get_str(entry.payload as usize),
            None => None,
        };
        let runtime_search_path = match array.first(Tag::RuntimeSearchPath) {
            Some(entry) => strings.get_str(entry.payload as usize),
            None => None,
        };
        let run_path = match array.first(Tag::RunPath) {
            Some(entry) => strings.get_str(entry.payload as usize),
            None => None,
        };
        assert(str_model(shared_object_name) == spec_tagged_str(entries, strings.bytes@, Tag::SharedObjectName));
        assert(str_model(runtime_search_path) == spec_tagged_str(entries, strings.bytes@, Tag::RuntimeSearchPath));
        assert(str_model(run_path) == spec_tagged_str(entries, strings.bytes@, Tag::RunPath));
        Some(SharedObjectDependencies::new(needed, shared_object_name, runtime_search_path, run_path))
    }

    /// The dependency record follows the raw tags of the dynamic array:
    /// `run_path` is the string named by the first entry with tag 29
    /// (`DT_RUNPATH`), `runtime_search_path` by the first with tag 15
    /// (`DT_RPATH`), `shared_object_name` by the first with tag 14
    /// (`DT_SONAME`); `needed` lists, in array order, the index of every
    /// entry with tag 1 (`DT_NEEDED`) and the string its payload names.
    pub proof fn lemma_dependencies_follow_raw_tags(&self, index: int)
        requires
            self.file_bytes().len() <= usize::MAX,
            self.spec_shared_object_dependencies(index) is Some,
        ensures
            ({
                let dependencies = self.spec_shared_object_dependencies(index)->Some_0;
                let entries = self.spec_dynamic_array(index)->Some_0;
                let strings = self.spec_dynamic_string_table(index)->Some_0;
                &&& dependencies.run_path == spec_raw_tag_str(entries, strings, 29)
                &&& dependencies.runtime_search_path == spec_raw_tag_str(entries, strings, 15)
                &&& dependencies.shared_object_name == spec_raw_tag_str(entries, strings, 14)
                &&& forall|j: int| 0 <= j < dependencies.needed.len() ==> (#[trigger] dependencies.needed[j]).0 < entries.len()
                    && entries[dependencies.needed[j].0 as int].tag.spec_raw() == 1
                    && spec_str_at(strings, entries[dependencies.needed[j].0 as int].payload as usize as int)
                        == Some(dependencies.needed[j].1)
                &&& forall|i: int| 0 <= i < entries.len() && (#[trigger] entries[i]).tag.spec_raw() == 1
                    ==> exists|j: int| 0 <= j < dependencies.needed.len() && (#[trigger] dependencies.needed[j]).0 == i
                &&& forall|j: int, l: int| 0 <= j < l < dependencies.needed.len()
                    ==> (#[trigger] dependencies.needed[j]).0 < (#[trigger] dependencies.needed[l]).0
            }),
    {
        let entries = self.spec_dynamic_array(index)->Some_0;
        let strings = self.spec_dynamic_string_table(index)->Some_0;
        let header = self.program_headers@[index];
        let image = self.spec_segment(index)->Some_0.1;
        let class_32 = spec_class_32(self.header.identification.class)->Some_0;
        lemma_parsed_dynamic_array_tags(image, self.header.identification.class, dynamic_size(class_32));
        assert(image.len() <= self.file_bytes().len());
        lemma_first_raw_tag(entries, Tag::RunPath, 0);
        lemma_first_raw_tag(entries, Tag::RuntimeSearchPath, 0);
        lemma_first_raw_tag(entries, Tag::SharedObjectName, 0);
        lemma_needed_entries(entries, strings, entries.len());
        let dependencies = self.spec_shared_object_dependencies(index)->Some_0;
        assert forall|i: int| 0 <= i < entries.len() && (#[trigger] entries[i]).tag.spec_raw() == 1
            implies exists|j: int| 0 <= j < dependencies.needed.len() && (#[trigger] dependencies.needed[j]).0 == i by {
            assert(Tag::spec_from_raw(entries[i].tag.spec_raw()) == entries[i].tag);
        }
    }
}

} // verus!
