//! ELF symbol table.
//!
//! A symbol table is a section whose entries are `Symbol` values and whose
//! section-header `sh_link` identifies the associated string table.
use vstd::prelude::*;
use vstd::string::StringSliceAdditionalSpecFns;
use vstd::utf8::valid_utf8;
use super::representation::{bytes_view, lemma_exactly_fills, lemma_record_fits, read_u32, spec_u32};
use super::section_header::Index;
use super::string_table::{spec_string_at, StringTable};
use super::symbol::{self, ResolvedSectionIndex, Symbol};

verus! {

/// The symbol of the given class stored at `offset` (which must fit).
pub open spec fn spec_symbol_at(class_32: bool, b: Seq<u8>, offset: int) -> Symbol {
    if class_32 {
        Symbol::spec_from_class_32(symbol::class_32::Representation::spec_at(b, offset))
    } else {
        Symbol::spec_from_class_64(symbol::class_64::Representation::spec_at(b, offset))
    }
}

pub open spec fn symbol_size(class_32: bool) -> usize {
    if class_32 {
        symbol::class_32::SIZE
    } else {
        symbol::class_64::SIZE
    }
}

/// The `count` symbols, `entry_size` bytes apart, that exactly fill `b`.
pub open spec fn spec_symbols(class_32: bool, b: Seq<u8>, count: nat, entry_size: int) -> Seq<Symbol> {
    Seq::new(count, |i: int| spec_symbol_at(class_32, b, i * entry_size))
}

/// The binding and type of a symbol read from the bytes come from its
/// `st_info` byte (offset 12 in `Elf32_Sym`, 4 in `Elf64_Sym`): the binding
/// from the high four bits, the type from the low four.
pub proof fn lemma_symbol_at_info(class_32: bool, b: Seq<u8>, offset: int)
    ensures
        ({
            let info = if class_32 { b[offset + 12] } else { b[offset + 4] };
            &&& spec_symbol_at(class_32, b, offset).binding == symbol::Binding::spec_from_raw(info >> 4u8)
            &&& spec_symbol_at(class_32, b, offset).kind == symbol::Type::spec_from_raw(info & 0x0fu8)
        }),
{
    let info = if class_32 { b[offset + 12] } else { b[offset + 4] };
    assert(info / 16 == info >> 4u8) by (bit_vector);
    assert(info % 16 == info & 0x0fu8) by (bit_vector);
}

/// Decodes the `count` symbols, `entry_size` bytes apart, that exactly fill `bytes`.
pub fn decode_symbols(bytes: &[u8], count: usize, entry_size: usize, class_32: bool) -> (r: Vec<Symbol>)
    requires
        entry_size >= symbol_size(class_32),
        count * entry_size == bytes@.len(),
    ensures
        r@ == spec_symbols(class_32, bytes@, count as nat, entry_size as int),
{
    let mut symbols: Vec<Symbol> = Vec::new();
    let mut index: usize = 0;
    let length = bytes.len();
    while index < count
        invariant
            0 <= index <= count,
            length == bytes@.len(),
            entry_size >= symbol_size(class_32),
            count * entry_size == bytes@.len(),
            symbols@.len() == index,
            forall|j: int| 0 <= j < index ==> symbols@[j] == #[trigger] spec_symbol_at(class_32, bytes@, j * entry_size),
        decreases count - index,
    {
        proof {
            lemma_exactly_fills(count as int, entry_size as int);
            lemma_record_fits(index as int, count as int, entry_size as int, bytes@.len() as int, symbol_size(class_32) as int);
        }
        let offset = index * entry_size;
        let symbol = if class_32 {
            Symbol::from_class_32(symbol::class_32::Representation::decode(bytes, offset).unwrap())
        } else {
            Symbol::from_class_64(symbol::class_64::Representation::decode(bytes, offset).unwrap())
        };
        symbols.push(symbol);
        index += 1;
    }
    assert(symbols@ =~= spec_symbols(class_32, bytes@, count as nat, entry_size as int));
    symbols
}

/// The name of symbol `index` of a table: the string its `st_name` names,
/// when that string is valid UTF-8.
pub open spec fn spec_symbol_name(symbols: Seq<Symbol>, strings: Seq<u8>, index: int) -> Option<Seq<u8>> {
    if index < 0 || index >= symbols.len() {
        None
    } else {
        match spec_string_at(strings, symbols[index].name_index as int) {
            Some(name) => if valid_utf8(name) {
                Some(name)
            } else {
                None
            },
            None => None,
        }
    }
}

/// A symbol table as mathematical values.
pub struct SymbolTableModel {
    pub symbols: Seq<Symbol>,
    pub strings: Seq<u8>,
    pub section_indices: Seq<ResolvedSectionIndex>,
    pub information: usize,
}

#[derive(Debug)]
pub struct SymbolTable<'file> {
    pub symbols: Vec<Symbol>,
    pub strings: StringTable<'file>,
    /// The section each symbol is defined relative to, `SHN_XINDEX` resolved.
    pub section_indices: Vec<ResolvedSectionIndex>,
    /// `sh_info`: one greater than the index of the last local symbol.
    pub information: usize,
}

impl<'file> SymbolTable<'file> {
    pub open spec fn model(&self) -> SymbolTableModel {
        SymbolTableModel {
            symbols: self.symbols@,
            strings: self.strings.bytes@,
            section_indices: self.section_indices@,
            information: self.information,
        }
    }

    pub fn new(
        symbols: Vec<Symbol>,
        strings: StringTable<'file>,
        section_indices: Vec<ResolvedSectionIndex>,
        information: usize,
    ) -> (r: SymbolTable<'file>)
        ensures
            r.symbols@ == symbols@,
            r.strings.bytes@ == strings.bytes@,
            r.section_indices@ == section_indices@,
            r.information == information,
    {
        SymbolTable { symbols, strings, section_indices, information }
    }

    /// The name of symbol `index`, read from the string table, when it is
    /// valid UTF-8.
    pub fn name(&self, index: usize) -> (r: Option<&'file str>)
        ensures
            match r {
                Some(s) => spec_symbol_name(self.symbols@, self.strings.bytes@, index as int) == Some(s.spec_bytes()),
                None => spec_symbol_name(self.symbols@, self.strings.bytes@, index as int) is None,
            },
    {
        if index >= self.symbols.len() {
            return None;
        }
        self.strings.get_str(self.symbols[index].name_index as usize)
    }

    /// The entries, in table order.
    pub fn iter(&self) -> (r: &[Symbol])
        ensures
            r@ == self.symbols@,
    {
        self.symbols.as_slice()
    }

    pub fn len(&self) -> (r: usize)
        ensures
            r == self.symbols@.len(),
    {
        self.symbols.len()
    }

    pub fn is_empty(&self) -> (r: bool)
        ensures
            r == (self.symbols@.len() == 0),
    {
        self.symbols.len() == 0
    }

    pub fn get(&self, index: usize) -> (r: Option<&Symbol>)
        ensures
            index < self.symbols@.len() ==> r == Some(&self.symbols@[index as int]),
            index >= self.symbols@.len() ==> r is None,
    {
        if index < self.symbols.len() {
            Some(&self.symbols[index])
        } else {
            None
        }
    }

    pub fn section_index(&self, index: usize) -> (r: Option<ResolvedSectionIndex>)
        ensures
            index < self.section_indices@.len() ==> r == Some(self.section_indices@[index as int]),
            index >= self.section_indices@.len() ==> r is None,
    {
        if index < self.section_indices.len() {
            Some(self.section_indices[index])
        } else {
            None
        }
    }
}

} // verus!

verus! {

/// The extended section index of symbol `index`, read from the
/// `SHT_SYMTAB_SHNDX` contents when there are any.
pub open spec fn spec_extended_value(extended: Option<Seq<u8>>, index: int) -> Option<u32> {
    match extended {
        Some(bytes) => Some(spec_u32(bytes, index * 4)),
        None => None,
    }
}

/// Whether a symbol's section index cannot be resolved: an extended index
/// is given for a symbol that does not use `SHN_XINDEX` and it is not zero,
/// or the index does not resolve.
pub open spec fn section_index_rejected(symbol: Symbol, extended: Option<u32>) -> bool {
    ||| (extended matches Some(value) && symbol.section_index.raw != Index::EXTENDED && value != 0)
    ||| ResolvedSectionIndex::spec_resolve(symbol.section_index, extended) is None
}

/// The resolved section indices of `symbols`; the extended table, when
/// present, must hold exactly one 32-bit word per symbol.
pub open spec fn spec_section_indices(symbols: Seq<Symbol>, extended: Option<Seq<u8>>) -> Option<Seq<ResolvedSectionIndex>> {
    if extended matches Some(bytes) && bytes.len() != symbols.len() * 4 {
        None
    } else if exists|i: int| 0 <= i < symbols.len() && #[trigger] section_index_rejected(symbols[i], spec_extended_value(extended, i)) {
        None
    } else {
        Some(Seq::new(symbols.len(), |i: int| ResolvedSectionIndex::spec_resolve(symbols[i].section_index, spec_extended_value(extended, i)).unwrap()))
    }
}

/// Resolves the section index of every symbol.
pub fn resolve_section_indices(symbols: &Vec<Symbol>, extended: Option<&[u8]>) -> (r: Option<Vec<ResolvedSectionIndex>>)
    ensures
        match r {
            Some(v) => spec_section_indices(symbols@, bytes_view(extended)) == Some(v@),
            None => spec_section_indices(symbols@, bytes_view(extended)) is None,
        },
{
    let count = symbols.len();
    if let Some(bytes) = extended {
        let length = bytes.len();
        match count.checked_mul(4) {
            Some(size) => {
                if length != size {
                    return None;
                }
            },
            None => return None,
        }
    }
    let mut indices: Vec<ResolvedSectionIndex> = Vec::new();
    let mut index: usize = 0;
    while index < count
        invariant
            0 <= index <= count,
            count == symbols@.len(),
            extended matches Some(bytes) ==> bytes@.len() == count * 4,
            extended is Some ==> count * 4 <= usize::MAX,
            indices@.len() == index,
            forall|j: int| 0 <= j < index ==> !section_index_rejected(symbols@[j], #[trigger] spec_extended_value(bytes_view(extended), j)),
            forall|j: int| 0 <= j < index ==> Some(#[trigger] indices@[j]) == ResolvedSectionIndex::spec_resolve(symbols@[j].section_index, spec_extended_value(bytes_view(extended), j)),
        decreases count - index,
    {
        let symbol = symbols[index];
        let value = match extended {
            Some(bytes) => read_u32(bytes, index * 4),
            None => None,
        };
        assert(value == spec_extended_value(bytes_view(extended), index as int));
        if let Some(word) = value {
            if symbol.section_index.raw != Index::EXTENDED && word != 0 {
                assert(section_index_rejected(symbols@[index as int], spec_extended_value(bytes_view(extended), index as int)));
                return None;
            }
        }
        match ResolvedSectionIndex::resolve(symbol.section_index, value) {
            Some(resolved) => indices.push(resolved),
            None => {
                assert(section_index_rejected(symbols@[index as int], spec_extended_value(bytes_view(extended), index as int)));
                return None;
            },
        }
        index += 1;
    }
    assert(indices@ =~= Seq::new(symbols@.len(), |i: int| ResolvedSectionIndex::spec_resolve(symbols@[i].section_index, spec_extended_value(bytes_view(extended), i)).unwrap()));
    Some(indices)
}

} // verus!
