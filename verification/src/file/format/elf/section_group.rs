//! ELF section groups (`SHT_GROUP`).
use vstd::prelude::*;
use vstd::string::StringSliceAdditionalSpecFns;
use super::symbol_table::{spec_symbol_name, SymbolTable, SymbolTableModel};

verus! {

/// Section-group flags (the first word of the group).
#[derive(Debug, Clone, Copy, PartialEq, Eq, Structural)]
pub struct Flags {
    pub raw: u32,
}

impl Flags {
    /// `GRP_COMDAT`.
    pub const COMDAT: u32 = 0x1;

    pub fn from_raw(raw: u32) -> (r: Flags)
        ensures
            r.raw == raw,
    {
        Flags { raw }
    }

    pub fn contains(self, bits: u32) -> (r: bool)
        ensures
            r == (self.raw & bits == bits),
    {
        self.raw & bits == bits
    }
}

pub struct SectionGroupModel {
    pub flags: Flags,
    pub members: Seq<usize>,
    pub symbols: SymbolTableModel,
    pub signature_index: usize,
}

#[derive(Debug)]
pub struct SectionGroup<'file> {
    pub flags: Flags,
    /// The section indices of the group's members.
    pub members: Vec<usize>,
    pub symbols: SymbolTable<'file>,
    /// `sh_info`: the index of the symbol whose name is the group signature.
    pub signature_index: usize,
}

impl<'file> SectionGroup<'file> {
    pub open spec fn model(&self) -> SectionGroupModel {
        SectionGroupModel {
            flags: self.flags,
            members: self.members@,
            symbols: self.symbols.model(),
            signature_index: self.signature_index,
        }
    }

    pub fn new(flags: Flags, members: Vec<usize>, symbols: SymbolTable<'file>, signature_index: usize) -> (r: SectionGroup<'file>)
        ensures
            r.flags == flags,
            r.members@ == members@,
            r.symbols.model() == symbols.model(),
            r.signature_index == signature_index,
    {
        SectionGroup { flags, members, symbols, signature_index }
    }

    /// The group signature: the name of the symbol `sh_info` names.
    pub fn signature_name(&self) -> (r: Option<&'file str>)
        ensures
            match r {
                Some(s) => spec_symbol_name(self.symbols.symbols@, self.symbols.strings.bytes@, self.signature_index as int)
                    == Some(s.spec_bytes()),
                None => spec_symbol_name(self.symbols.symbols@, self.symbols.strings.bytes@, self.signature_index as int) is None,
            },
    {
        self.symbols.name(self.signature_index)
    }
}

} // verus!
