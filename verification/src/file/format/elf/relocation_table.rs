//! ELF relocation section: relocations, the symbol table they refer to, and
//! the section they apply to.
use vstd::prelude::*;
use vstd::string::StringSliceAdditionalSpecFns;
use super::relocation::Relocation;
use super::symbol_table::{spec_symbol_name, SymbolTable, SymbolTableModel};

verus! {

pub struct RelocationTableModel {
    pub relocations: Seq<Relocation>,
    pub symbols: SymbolTableModel,
    pub target_section_index: usize,
}

#[derive(Debug)]
pub struct RelocationTable<'file> {
    pub relocations: Vec<Relocation>,
    pub symbols: SymbolTable<'file>,
    /// `sh_info`: the section the relocations apply to.
    pub target_section_index: usize,
}

impl<'file> RelocationTable<'file> {
    pub open spec fn model(&self) -> RelocationTableModel {
        RelocationTableModel {
            relocations: self.relocations@,
            symbols: self.symbols.model(),
            target_section_index: self.target_section_index,
        }
    }

    pub fn new(relocations: Vec<Relocation>, symbols: SymbolTable<'file>, target_section_index: usize) -> (r: RelocationTable<'file>)
        ensures
            r.relocations@ == relocations@,
            r.symbols.model() == symbols.model(),
            r.target_section_index == target_section_index,
    {
        RelocationTable { relocations, symbols, target_section_index }
    }

    pub fn len(&self) -> (r: usize)
        ensures
            r == self.relocations@.len(),
    {
        self.relocations.len()
    }

    pub fn is_empty(&self) -> (r: bool)
        ensures
            r == (self.relocations@.len() == 0),
    {
        self.relocations.len() == 0
    }

    pub fn get(&self, index: usize) -> (r: Option<&Relocation>)
        ensures
            index < self.relocations@.len() ==> r == Some(&self.relocations@[index as int]),
            index >= self.relocations@.len() ==> r is None,
    {
        if index < self.relocations.len() {
            Some(&self.relocations[index])
        } else {
            None
        }
    }

    /// The name of the symbol a relocation refers to.
    pub fn symbol_name(&self, relocation: &Relocation) -> (r: Option<&'file str>)
        ensures
            match r {
                Some(s) => spec_symbol_name(self.symbols.symbols@, self.symbols.strings.bytes@, relocation.symbol_index as int)
                    == Some(s.spec_bytes()),
                None => spec_symbol_name(self.symbols.symbols@, self.symbols.strings.bytes@, relocation.symbol_index as int) is None,
            },
    {
        self.symbols.name(relocation.symbol_index as usize)
    }
}

} // verus!
