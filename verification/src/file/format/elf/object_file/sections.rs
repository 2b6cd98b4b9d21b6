//! Section-level views of an object file: section contents, section names
//! and the tables that sections hold.
use vstd::prelude::*;
use vstd::string::StringSliceAdditionalSpecFns;
use super::ObjectFile;
use super::super::identification::Class;
use super::super::representation::{bytes_view, range, spec_range};
use super::super::relocation::{decode_relocations, relocation_size, spec_relocations};
use super::super::relocation_table::{RelocationTable, RelocationTableModel};
use super::super::section::Section;
use super::super::compression::{self, CompressedSection, CompressionHeader};
use super::super::hash::{SymbolHashTable, SymbolHashTableModel};
use super::super::note::NoteModel;
use super::super::note_table::{parse_note_table, spec_parse_note_table, NoteTable};
use super::super::representation::{fits, read_u32, read_words, spec_u32, spec_words};
use super::super::section_group::{Flags as SectionGroupFlags, SectionGroup, SectionGroupModel};
use super::super::section_header::Flags;
use super::super::dynamic::Dynamic;
use super::super::dynamic_array::{parse_dynamic_array, spec_parse_dynamic_array};
use super::super::dynamic_table::DynamicTable;
use super::super::section_header::{SectionHeader, Type};
use super::super::string_table::{spec_str_at, spec_string_at, StringTable};
use super::super::symbol_table::{
    decode_symbols, resolve_section_indices, spec_section_indices, spec_symbols, symbol_size,
    SymbolTable, SymbolTableModel,
};

verus! {

/// The index of the first `SHT_SYMTAB_SHNDX` section, at or after `from`,
/// whose `sh_link` names section `target`.
pub open spec fn spec_first_extended_index(headers: Seq<SectionHeader>, target: int, from: int) -> Option<int>
    decreases headers.len() - from,
{
    if from < 0 || from >= headers.len() {
        None
    } else if headers[from].kind == Type::SymbolTableSectionIndex && headers[from].link as int == target {
        Some(from)
    } else {
        spec_first_extended_index(headers, target, from + 1)
    }
}

pub proof fn lemma_first_extended_index(headers: Seq<SectionHeader>, target: int, from: int)
    requires
        0 <= from,
    ensures
        spec_first_extended_index(headers, target, from) matches Some(i) ==> from <= i < headers.len(),
    decreases headers.len() - from,
{
    if from < headers.len() && !(headers[from].kind == Type::SymbolTableSectionIndex && headers[from].link as int == target) {
        lemma_first_extended_index(headers, target, from + 1);
    }
}

/// Whether the object's class is 32-bit; `None` when it is neither class.
pub open spec fn spec_class_32(class: Class) -> Option<bool> {
    match class {
        Class::Class32 => Some(true),
        Class::Class64 => Some(false),
        Class::ClassNone => None,
    }
}

pub fn class_32(class: Class) -> (r: Option<bool>)
    ensures
        r == spec_class_32(class),
{
    match class {
        Class::Class32 => Some(true),
        Class::Class64 => Some(false),
        Class::ClassNone => None,
    }
}

/// The number of `entry_size`-byte entries that exactly fill `length` bytes;
/// `None` for a zero entry size or a length that is not a multiple of it.
pub open spec fn spec_entry_count(length: nat, entry_size: u64) -> Option<nat> {
    if entry_size > usize::MAX || entry_size == 0 || length % (entry_size as nat) != 0 {
        None
    } else {
        Some(length / (entry_size as nat))
    }
}

pub fn entry_count(length: usize, entry_size: u64) -> (r: Option<usize>)
    ensures
        match r {
            Some(count) => spec_entry_count(length as nat, entry_size) == Some(count as nat)
                && count * (entry_size as usize) == length,
            None => spec_entry_count(length as nat, entry_size) is None,
        },
{
    if entry_size > usize::MAX as u64 {
        return None;
    }
    let entry_size = entry_size as usize;
    if entry_size == 0 || length % entry_size != 0 {
        return None;
    }
    proof {
        vstd::arithmetic::div_mod::lemma_fundamental_div_mod(length as int, entry_size as int);
        assert((length / entry_size) * entry_size == entry_size * (length / entry_size)) by (nonlinear_arith);
    }
    Some(length / entry_size)
}

impl<'file> ObjectFile<'file> {
    /// The header and contents of section `index`; a `SHT_NOBITS` section
    /// has no contents in the file.
    pub open spec fn spec_section(&self, index: int) -> Option<(SectionHeader, Seq<u8>)> {
        if index < 0 || index >= self.section_headers@.len() {
            None
        } else {
            let header = self.section_headers@[index];
            if header.kind == Type::NoBits {
                Some((header, Seq::empty()))
            } else {
                match spec_range(self.file_bytes(), header.offset, header.size) {
                    None => None,
                    Some(contents) => Some((header, contents)),
                }
            }
        }
    }

    pub fn section(&self, index: usize) -> (r: Option<Section<'file>>)
        ensures
            match r {
                Some(s) => self.spec_section(index as int) == Some((s.header, s.contents@)),
                None => self.spec_section(index as int) is None,
            },
    {
        if index >= self.section_headers.len() {
            return None;
        }
        let header = self.section_headers[index];
        let contents = match header.kind {
            Type::NoBits => vstd::slice::slice_subrange(self.bytes, 0, 0),
            _ => match range(self.bytes, header.offset, header.size) {
                Some(contents) => contents,
                None => return None,
            },
        };
        proof {
            if header.kind == Type::NoBits {
                assert(contents@ =~= Seq::<u8>::empty());
            }
        }
        Some(Section::new(header, contents))
    }

    /// The contents of the section-name string table.
    pub open spec fn spec_section_name_string_table(&self) -> Option<Seq<u8>> {
        match self.section_name_string_table_index {
            None => None,
            Some(index) => match self.spec_section(index as int) {
                None => None,
                Some((_, contents)) => Some(contents),
            },
        }
    }

    pub fn section_name_string_table(&self) -> (r: Option<StringTable<'file>>)
        ensures
            match r {
                Some(t) => self.spec_section_name_string_table() == Some(t.bytes@),
                None => self.spec_section_name_string_table() is None,
            },
    {
        let index = match self.section_name_string_table_index {
            Some(index) => index,
            None => return None,
        };
        match self.section(index) {
            Some(section) => Some(StringTable::new(section.contents)),
            None => None,
        }
    }

    /// The name of section `index`, as bytes, when it is valid UTF-8.
    pub open spec fn spec_section_name(&self, index: int) -> Option<Seq<u8>> {
        if index < 0 || index >= self.section_headers@.len() {
            None
        } else {
            match self.spec_section_name_string_table() {
                None => None,
                Some(table) => spec_str_at(table, self.section_headers@[index].name_index as int),
            }
        }
    }

    /// The name of section `index`, when it is valid UTF-8.
    pub fn section_name(&self, index: usize) -> (r: Option<&'file str>)
        ensures
            match r {
                Some(s) => self.spec_section_name(index as int) == Some(s.spec_bytes()),
                None => self.spec_section_name(index as int) is None,
            },
    {
        if index >= self.section_headers.len() {
            return None;
        }
        let name_index = self.section_headers[index].name_index;
        match self.section_name_string_table() {
            Some(table) => table.get_str(name_index as usize),
            None => None,
        }
    }

    /// The index of the first `SHT_SYMTAB_SHNDX` section linked to `target`.
    fn extended_section_index_section(&self, target: usize) -> (r: Option<usize>)
        ensures
            match r {
                Some(i) => spec_first_extended_index(self.section_headers@, target as int, 0) == Some(i as int),
                None => spec_first_extended_index(self.section_headers@, target as int, 0) is None,
            },
    {
        let mut index: usize = 0;
        while index < self.section_headers.len()
            invariant
                0 <= index <= self.section_headers@.len(),
                spec_first_extended_index(self.section_headers@, target as int, 0)
                    == spec_first_extended_index(self.section_headers@, target as int, index as int),
            decreases self.section_headers@.len() - index,
        {
            let candidate = self.section_headers[index];
            let is_extended = match candidate.kind {
                Type::SymbolTableSectionIndex => true,
                _ => false,
            };
            if is_extended && candidate.link as usize == target {
                return Some(index);
            }
            index += 1;
        }
        None
    }

    /// The symbol table in section `section_index`.
    pub open spec fn spec_symbol_table(&self, section_index: int) -> Option<SymbolTableModel> {
        match self.spec_section(section_index) {
            None => None,
            Some((header, contents)) => if header.kind != Type::SymbolTable && header.kind != Type::DynamicSymbolTable {
                None
            } else {
                match self.spec_section(header.link as int) {
                    None => None,
                    Some((strings_header, strings)) => if strings_header.kind != Type::StringTable {
                        None
                    } else {
                        match (spec_entry_count(contents.len(), header.entry_size), spec_class_32(self.header.identification.class)) {
                            (Some(count), Some(class_32)) => if (header.entry_size as usize) < symbol_size(class_32) {
                                None
                            } else {
                                let symbols = spec_symbols(class_32, contents, count, header.entry_size as int);
                                let extended = match spec_first_extended_index(self.section_headers@, section_index, 0) {
                                    None => None,
                                    Some(j) => match self.spec_section(j) {
                                        None => None,
                                        Some((_, extended)) => Some(extended),
                                    },
                                };
                                match spec_section_indices(symbols, extended) {
                                    None => None,
                                    Some(section_indices) => Some(
                                        SymbolTableModel {
                                            symbols,
                                            strings,
                                            section_indices,
                                            information: header.information as usize,
                                        },
                                    ),
                                }
                            },
                            _ => None,
                        }
                    },
                }
            },
        }
    }

    /// The symbol table in section `section_index`, with its string table
    /// and resolved section indices.
    pub fn symbol_table(&self, section_index: usize) -> (r: Option<SymbolTable<'file>>)
        ensures
            match r {
                Some(t) => self.spec_symbol_table(section_index as int) == Some(t.model()),
                None => self.spec_symbol_table(section_index as int) is None,
            },
    {
        let section = match self.section(section_index) {
            Some(section) => section,
            None => return None,
        };
        let header = section.header;
        match header.kind {
            Type::SymbolTable | Type::DynamicSymbolTable => {},
            _ => return None,
        }
        let strings_section = match self.section(header.link as usize) {
            Some(strings_section) => strings_section,
            None => return None,
        };
        match strings_section.header.kind {
            Type::StringTable => {},
            _ => return None,
        }
        let strings = StringTable::new(strings_section.contents);
        let count = match entry_count(section.contents.len(), header.entry_size) {
            Some(count) => count,
            None => return None,
        };
        let entry_size = header.entry_size as usize;
        let class_32 = match class_32(self.header.identification.class) {
            Some(class_32) => class_32,
            None => return None,
        };
        let minimum = if class_32 {
            super::super::symbol::class_32::SIZE
        } else {
            super::super::symbol::class_64::SIZE
        };
        if entry_size < minimum {
            return None;
        }
        let symbols = decode_symbols(section.contents, count, entry_size, class_32);
        let extended = match self.extended_section_index_section(section_index) {
            Some(index) => {
                proof {
                    lemma_first_extended_index(self.section_headers@, section_index as int, 0);
                }
                match self.section(index) {
                    Some(extended) => Some(extended.contents),
                    None => None,
                }
            },
            None => None,
        };
        let section_indices = match resolve_section_indices(&symbols, extended) {
            Some(section_indices) => section_indices,
            None => return None,
        };
        Some(SymbolTable::new(symbols, strings, section_indices, header.information as usize))
    }

    /// The relocation table in section `section_index`.
    pub open spec fn spec_relocation_table(&self, section_index: int) -> Option<RelocationTableModel> {
        match self.spec_section(section_index) {
            None => None,
            Some((header, contents)) => if header.kind != Type::Relocation && header.kind != Type::RelocationWithAddend {
                None
            } else {
                let with_addend = header.kind == Type::RelocationWithAddend;
                match self.spec_symbol_table(header.link as int) {
                    None => None,
                    Some(symbols) => match (spec_entry_count(contents.len(), header.entry_size), spec_class_32(self.header.identification.class)) {
                        (Some(count), Some(class_32)) => if (header.entry_size as usize) < relocation_size(class_32, with_addend) {
                            None
                        } else {
                            Some(
                                RelocationTableModel {
                                    relocations: spec_relocations(class_32, with_addend, contents, count, header.entry_size as int),
                                    symbols,
                                    target_section_index: header.information as usize,
                                },
                            )
                        },
                        _ => None,
                    },
                }
            },
        }
    }

    /// The `SHT_REL` or `SHT_RELA` table in section `section_index`, with the
    /// symbol table its `sh_link` names.
    pub fn relocation_table(&self, section_index: usize) -> (r: Option<RelocationTable<'file>>)
        ensures
            match r {
                Some(t) => self.spec_relocation_table(section_index as int) == Some(t.model()),
                None => self.spec_relocation_table(section_index as int) is None,
            },
    {
        let section = match self.section(section_index) {
            Some(section) => section,
            None => return None,
        };
        let header = section.header;
        let with_addend = match header.kind {
            Type::Relocation => false,
            Type::RelocationWithAddend => true,
            _ => return None,
        };
        let symbols = match self.symbol_table(header.link as usize) {
            Some(symbols) => symbols,
            None => return None,
        };
        let count = match entry_count(section.contents.len(), header.entry_size) {
            Some(count) => count,
            None => return None,
        };
        let entry_size = header.entry_size as usize;
        let class_32 = match class_32(self.header.identification.class) {
            Some(class_32) => class_32,
            None => return None,
        };
        let minimum = if class_32 {
            if with_addend {
                super::super::relocation::class_32::RELA_SIZE
            } else {
                super::super::relocation::class_32::REL_SIZE
            }
        } else {
            if with_addend {
                super::super::relocation::class_64::RELA_SIZE
            } else {
                super::super::relocation::class_64::REL_SIZE
            }
        };
        if entry_size < minimum {
            return None;
        }
        let relocations = decode_relocations(section.contents, count, entry_size, class_32, with_addend);
        Some(RelocationTable::new(relocations, symbols, header.information as usize))
    }

    /// The entries and string-table bytes of the dynamic section `section_index`.
    pub open spec fn spec_dynamic_table(&self, section_index: int) -> Option<(Seq<Dynamic>, Seq<u8>)> {
        match self.spec_section(section_index) {
            None => None,
            Some((header, contents)) => if header.kind != Type::Dynamic {
                None
            } else {
                match self.spec_section(header.link as int) {
                    None => None,
                    Some((strings_header, strings)) => if strings_header.kind != Type::StringTable {
                        None
                    } else {
                        match spec_entry_count(contents.len(), header.entry_size) {
                            None => None,
                            Some(_) => match spec_parse_dynamic_array(contents, self.header.identification.class, header.entry_size as usize) {
                                None => None,
                                Some(entries) => Some((entries, strings)),
                            },
                        }
                    },
                }
            },
        }
    }

    /// The `SHT_DYNAMIC` section `section_index`, with the string table its
    /// `sh_link` names.
    pub fn dynamic_table(&self, section_index: usize) -> (r: Option<DynamicTable<'file>>)
        ensures
            match r {
                Some(t) => self.spec_dynamic_table(section_index as int) == Some((t.entries@, t.strings.bytes@)),
                None => self.spec_dynamic_table(section_index as int) is None,
            },
    {
        let section = match self.section(section_index) {
            Some(section) => section,
            None => return None,
        };
        let header = section.header;
        match header.kind {
            Type::Dynamic => {},
            _ => return None,
        }
        let strings_section = match self.section(header.link as usize) {
            Some(strings_section) => strings_section,
            None => return None,
        };
        match strings_section.header.kind {
            Type::StringTable => {},
            _ => return None,
        }
        match entry_count(section.contents.len(), header.entry_size) {
            Some(_) => {},
            None => return None,
        }
        let array = match parse_dynamic_array(section.contents, self.header.identification.class, header.entry_size as usize) {
            Some(array) => array,
            None => return None,
        };
        Some(DynamicTable::new(array.entries, StringTable::new(strings_section.contents)))
    }

    /// The `SHT_HASH` section `section_index` with the symbol table it indexes.
    pub open spec fn spec_hash_table(&self, section_index: int) -> Option<SymbolHashTableModel> {
        match self.spec_section(section_index) {
            None => None,
            Some((header, contents)) => if header.kind != Type::Hash || contents.len() < 8 {
                None
            } else {
                let bucket_count = spec_u32(contents, 0);
                let chain_count = spec_u32(contents, 4);
                match (spec_words(contents, 8, bucket_count as nat), spec_words(contents, 8 + 4 * bucket_count, chain_count as nat)) {
                    (Some(buckets), Some(chains)) => match self.spec_symbol_table(header.link as int) {
                        None => None,
                        Some(symbols) => Some(SymbolHashTableModel { buckets, chains, symbols }),
                    },
                    _ => None,
                }
            },
        }
    }

    pub fn hash_table(&self, section_index: usize) -> (r: Option<SymbolHashTable<'file>>)
        ensures
            match r {
                Some(t) => self.spec_hash_table(section_index as int) == Some(t.model()),
                None => self.spec_hash_table(section_index as int) is None,
            },
    {
        let section = match self.section(section_index) {
            Some(section) => section,
            None => return None,
        };
        let header = section.header;
        match header.kind {
            Type::Hash => {},
            _ => return None,
        }
        if section.contents.len() < 8 {
            return None;
        }
        let bucket_count = read_u32(section.contents, 0).unwrap() as usize;
        let chain_count = read_u32(section.contents, 4).unwrap() as usize;
        let buckets = match read_words(section.contents, 8, bucket_count) {
            Some(buckets) => buckets,
            None => return None,
        };
        let chains_start = 8 + 4 * bucket_count;
        let chains = match read_words(section.contents, chains_start, chain_count) {
            Some(chains) => chains,
            None => return None,
        };
        let symbols = match self.symbol_table(header.link as usize) {
            Some(symbols) => symbols,
            None => return None,
        };
        Some(SymbolHashTable::new(buckets, chains, symbols))
    }

    /// The `SHT_GROUP` section `section_index`: its flags word, its member
    /// section indices, and the symbol table its `sh_link` names.
    pub open spec fn spec_section_group(&self, section_index: int) -> Option<SectionGroupModel> {
        match self.spec_section(section_index) {
            None => None,
            Some((header, contents)) => if header.kind != Type::Group || contents.len() < 4 || contents.len() % 4 != 0 {
                None
            } else {
                let count = contents.len() / 4;
                match self.spec_symbol_table(header.link as int) {
                    None => None,
                    Some(symbols) => Some(
                        SectionGroupModel {
                            flags: SectionGroupFlags { raw: spec_u32(contents, 0) },
                            members: Seq::new((count - 1) as nat, |i: int| spec_u32(contents, 4 + 4 * i) as usize),
                            symbols,
                            signature_index: header.information as usize,
                        },
                    ),
                }
            },
        }
    }

    pub fn section_group(&self, section_index: usize) -> (r: Option<SectionGroup<'file>>)
        ensures
            match r {
                Some(g) => self.spec_section_group(section_index as int) == Some(g.model()),
                None => self.spec_section_group(section_index as int) is None,
            },
    {
        let section = match self.section(section_index) {
            Some(section) => section,
            None => return None,
        };
        let header = section.header;
        match header.kind {
            Type::Group => {},
            _ => return None,
        }
        let length = section.contents.len();
        if length < 4 || length % 4 != 0 {
            return None;
        }
        let flags = SectionGroupFlags::from_raw(read_u32(section.contents, 0).unwrap());
        let count = length / 4;
        let words = read_words(section.contents, 4, count - 1).unwrap();
        let mut members: Vec<usize> = Vec::new();
        let mut index: usize = 0;
        while index < words.len()
            invariant
                0 <= index <= words@.len(),
                members@.len() == index,
                forall|j: int| 0 <= j < index ==> members@[j] == words@[j] as usize,
            decreases words@.len() - index,
        {
            members.push(words[index] as usize);
            index += 1;
        }
        assert(members@ =~= Seq::new((count - 1) as nat, |i: int| spec_u32(section.contents@, 4 + 4 * i) as usize));
        let symbols = match self.symbol_table(header.link as usize) {
            Some(symbols) => symbols,
            None => return None,
        };
        Some(SectionGroup::new(flags, members, symbols, header.information as usize))
    }

    /// The notes in the `SHT_NOTE` section `section_index`.
    pub open spec fn spec_note_table(&self, section_index: int) -> Option<Seq<NoteModel>> {
        match self.spec_section(section_index) {
            None => None,
            Some((header, contents)) => if header.kind != Type::Note {
                None
            } else {
                spec_parse_note_table(contents, self.header.identification.class)
            },
        }
    }

    pub fn note_table(&self, section_index: usize) -> (r: Option<NoteTable<'file>>)
        ensures
            match r {
                Some(t) => self.spec_note_table(section_index as int) == Some(t.model()),
                None => self.spec_note_table(section_index as int) is None,
            },
    {
        let section = match self.section(section_index) {
            Some(section) => section,
            None => return None,
        };
        match section.header.kind {
            Type::Note => {},
            _ => return None,
        }
        parse_note_table(section.contents, self.header.identification.class)
    }

    /// The compression header and compressed bytes of section
    /// `section_index`, when it is flagged `SHF_COMPRESSED`.
    pub open spec fn spec_compressed_section(&self, section_index: int) -> Option<(CompressionHeader, Seq<u8>)> {
        match self.spec_section(section_index) {
            None => None,
            Some((header, contents)) => if header.flags.raw & Flags::COMPRESSED != Flags::COMPRESSED {
                None
            } else {
                match spec_class_32(self.header.identification.class) {
                    None => None,
                    Some(true) => if !fits(contents, 0, compression::class_32::SIZE as int) {
                        None
                    } else {
                        Some((
                            CompressionHeader::spec_from_class_32(compression::class_32::Representation::spec_at(contents, 0)),
                            contents.subrange(compression::class_32::SIZE as int, contents.len() as int),
                        ))
                    },
                    Some(false) => if !fits(contents, 0, compression::class_64::SIZE as int) {
                        None
                    } else {
                        Some((
                            CompressionHeader::spec_from_class_64(compression::class_64::Representation::spec_at(contents, 0)),
                            contents.subrange(compression::class_64::SIZE as int, contents.len() as int),
                        ))
                    },
                }
            },
        }
    }

    pub fn compressed_section(&self, section_index: usize) -> (r: Option<CompressedSection<'file>>)
        ensures
            match r {
                Some(c) => self.spec_compressed_section(section_index as int) == Some((c.header, c.data@)),
                None => self.spec_compressed_section(section_index as int) is None,
            },
    {
        let section = match self.section(section_index) {
            Some(section) => section,
            None => return None,
        };
        if !section.header.flags.contains(Flags::COMPRESSED) {
            return None;
        }
        match self.header.identification.class {
            Class::Class32 => {
                let representation = match compression::class_32::Representation::decode(section.contents, 0) {
                    Some(representation) => representation,
                    None => return None,
                };
                let header = CompressionHeader::from_class_32(representation);
                let data = vstd::slice::slice_subrange(section.contents, compression::class_32::SIZE, section.contents.len());
                Some(CompressedSection::new(header, data))
            },
            Class::Class64 => {
                let representation = match compression::class_64::Representation::decode(section.contents, 0) {
                    Some(representation) => representation,
                    None => return None,
                };
                let header = CompressionHeader::from_class_64(representation);
                let data = vstd::slice::slice_subrange(section.contents, compression::class_64::SIZE, section.contents.len());
                Some(CompressedSection::new(header, data))
            },
            Class::ClassNone => None,
        }
    }
}

} // verus!
