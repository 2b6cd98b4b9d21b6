//! The dynamic symbol table, located through the dynamic array.
use vstd::prelude::*;
use vstd::string::StringSliceAdditionalSpecFns;
use super::string_table::StringTable;
use super::symbol_table::spec_symbol_name;
use super::symbol::{ResolvedSectionIndex, Symbol};

verus! {

pub struct DynamicSymbolTableModel {
    pub symbols: Seq<Symbol>,
    pub strings: Seq<u8>,
    pub section_indices: Seq<ResolvedSectionIndex>,
}

#[derive(Debug)]
pub struct DynamicSymbolTable<'file> {
    pub symbols: Vec<Symbol>,
    pub strings: StringTable<'file>,
    pub section_indices: Vec<ResolvedSectionIndex>,
}

impl<'file> DynamicSymbolTable<'file> {
    pub open spec fn model(&self) -> DynamicSymbolTableModel {
        DynamicSymbolTableModel {
            symbols: self.symbols@,
            strings: self.strings.bytes@,
            section_indices: self.section_indices@,
        }
    }

    pub fn new(symbols: Vec<Symbol>, strings: StringTable<'file>, section_indices: Vec<ResolvedSectionIndex>) -> (r: DynamicSymbolTable<'file>)
        ensures
            r.symbols@ == symbols@,
            r.strings.bytes@ == strings.bytes@,
            r.section_indices@ == section_indices@,
    {
        DynamicSymbolTable { symbols, strings, section_indices }
    }

    /// The name of symbol `index`.
    pub fn name(&self, index: usize) -> (r: Option<&'file str>)
        ensures
            match r {
                Some(s) => spec_symbol_name(self.symbols@, self.strings.bytes@, index as int) == Some(s.spec_bytes()),
                None => spec_symbol_name(self.symbols@, self.strings.bytes@, index as int) is None,
            },
    {
        if index >= self.symbols.len() {
            return None;
        }
        self.strings.get_str(self.symbols[index].name_index as usize)
    }

    pub fn len(&self) -> (r: usize)
        ensures
            r == self.symbols@.len(),
    {
        self.symbols.len()
    }

    pub fn is_empty(&self) -> (r: bool)
        ensures
            r == (self.symbols@.len() == 0),
    {
        self.symbols.len() == 0
    }

    pub fn get(&self, index: usize) -> (r: Option<&Symbol>)
        ensures
            index < self.symbols@.len() ==> r == Some(&self.symbols@[index as int]),
            index >= self.symbols@.len() ==> r is None,
    {
        if index < self.symbols.len() {
            Some(&self.symbols[index])
        } else {
            None
        }
    }

    pub fn section_index(&self, index: usize) -> (r: Option<ResolvedSectionIndex>)
        ensures
            index < self.section_indices@.len() ==> r == Some(self.section_indices@[index as int]),
            index >= self.section_indices@.len() ==> r is None,
    {
        if index < self.section_indices.len() {
            Some(self.section_indices[index])
        } else {
            None
        }
    }
}

} // verus!
