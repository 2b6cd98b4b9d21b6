//! Relocation tables located through the dynamic array.
use vstd::prelude::*;
use vstd::string::StringSliceAdditionalSpecFns;
use super::dynamic_symbol_table::{DynamicSymbolTable, DynamicSymbolTableModel};
use super::relocation::Relocation;

verus! {

/// Whether entries carry an explicit addend (`Rela`) or not (`Rel`).
#[derive(Debug, Clone, Copy, PartialEq, Eq, Structural)]
pub enum Addend {
    Implicit,
    Explicit,
}

/// Which dynamic tags located the table.
#[derive(Debug, Clone, Copy, PartialEq, Eq, Structural)]
pub enum Purpose {
    /// `DT_REL` / `DT_RELA`.
    General,
    /// `DT_JMPREL`: the procedure-linkage-table relocations.
    ProcedureLinkageTable,
}

pub struct DynamicRelocationTableModel {
    pub relocations: Seq<Relocation>,
    pub symbols: DynamicSymbolTableModel,
    pub addend: Addend,
    pub purpose: Purpose,
}

/// The models of a sequence of tables.
pub open spec fn relocation_table_models<'file>(tables: Seq<DynamicRelocationTable<'file>>) -> Seq<DynamicRelocationTableModel> {
    tables.map_values(|t: DynamicRelocationTable<'file>| t.model())
}

#[derive(Debug)]
pub struct DynamicRelocationTable<'file> {
    pub relocations: Vec<Relocation>,
    pub symbols: DynamicSymbolTable<'file>,
    pub addend: Addend,
    pub purpose: Purpose,
}

impl<'file> DynamicRelocationTable<'file> {
    pub open spec fn model(&self) -> DynamicRelocationTableModel {
        DynamicRelocationTableModel {
            relocations: self.relocations@,
            symbols: self.symbols.model(),
            addend: self.addend,
            purpose: self.purpose,
        }
    }

    pub fn new(relocations: Vec<Relocation>, symbols: DynamicSymbolTable<'file>, addend: Addend, purpose: Purpose) -> (r: DynamicRelocationTable<'file>)
        ensures
            r.model() == (DynamicRelocationTableModel { relocations: relocations@, symbols: symbols.model(), addend, purpose }),
    {
        DynamicRelocationTable { relocations, symbols, addend, purpose }
    }

    pub fn len(&self) -> (r: usize)
        ensures
            r == self.relocations@.len(),
    {
        self.relocations.len()
    }

    pub fn is_empty(&self) -> (r: bool)
        ensures
            r == (self.relocations@.len() == 0),
    {
        self.relocations.len() == 0
    }

    /// The name of the symbol a relocation refers to.
    pub fn symbol_name(&self, relocation: &Relocation) -> (r: Option<&'file str>)
        ensures
            match r {
                Some(s) => super::symbol_table::spec_symbol_name(
                    self.symbols.symbols@,
                    self.symbols.strings.bytes@,
                    relocation.symbol_index as int,
                ) == Some(s.spec_bytes()),
                None => super::symbol_table::spec_symbol_name(
                    self.symbols.symbols@,
                    self.symbols.strings.bytes@,
                    relocation.symbol_index as int,
                ) is None,
            },
    {
        self.symbols.name(relocation.symbol_index as usize)
    }
}

} // verus!
