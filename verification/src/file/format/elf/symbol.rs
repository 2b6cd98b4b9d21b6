//! ELF symbols.
pub mod class_32;
pub mod class_64;
pub mod visibility;

use vstd::prelude::*;
use super::section_header::Index;
pub use visibility::Visibility;

verus! {

/// Symbol binding (`STB_*`, the high four bits of `st_info`).
#[derive(Debug, Clone, Copy, PartialEq, Eq, Structural)]
pub enum Binding {
    Local,
    Global,
    Weak,
    Other(u8),
}

impl Binding {
    pub open spec fn spec_from_raw(raw: u8) -> Binding {
        if raw == 0 {
            Binding::Local
        } else if raw == 1 {
            Binding::Global
        } else if raw == 2 {
            Binding::Weak
        } else {
            Binding::Other(raw)
        }
    }

    pub fn from_raw(raw: u8) -> (r: Binding)
        ensures
            r == Binding::spec_from_raw(raw),
    {
        match raw {
            0 => Binding::Local,
            1 => Binding::Global,
            2 => Binding::Weak,
            _ => Binding::Other(raw),
        }
    }
}

/// Symbol type (`STT_*`, the low four bits of `st_info`).
#[derive(Debug, Clone, Copy, PartialEq, Eq, Structural)]
pub enum Type {
    NoType,
    Object,
    Function,
    Section,
    File,
    Common,
    ThreadLocalStorage,
    Other(u8),
}

impl Type {
    pub open spec fn spec_from_raw(raw: u8) -> Type {
        if raw == 0 {
            Type::NoType
        } else if raw == 1 {
            Type::Object
        } else if raw == 2 {
            Type::Function
        } else if raw == 3 {
            Type::Section
        } else if raw == 4 {
            Type::File
        } else if raw == 5 {
            Type::Common
        } else if raw == 6 {
            Type::ThreadLocalStorage
        } else {
            Type::Other(raw)
        }
    }

    pub fn from_raw(raw: u8) -> (r: Type)
        ensures
            r == Type::spec_from_raw(raw),
    {
        match raw {
            0 => Type::NoType,
            1 => Type::Object,
            2 => Type::Function,
            3 => Type::Section,
            4 => Type::File,
            5 => Type::Common,
            6 => Type::ThreadLocalStorage,
            _ => Type::Other(raw),
        }
    }
}

/// A decoded symbol-table entry.
#[derive(Debug, Clone, Copy, PartialEq, Eq, Structural)]
pub struct Symbol {
    pub name_index: u32,
    pub value: u64,
    pub size: u64,
    pub binding: Binding,
    pub kind: Type,
    pub visibility: Visibility,
    pub section_index: Index,
}

impl Symbol {
    /// The symbol described by raw fields.
    pub open spec fn spec_from_fields(name: u32, value: u64, size: u64, info: u8, other: u8, shndx: u16) -> Symbol {
        Symbol {
            name_index: name,
            value,
            size,
            binding: Binding::spec_from_raw(info / 16),
            kind: Type::spec_from_raw(info % 16),
            visibility: Visibility::spec_from_raw(other),
            section_index: Index { raw: shndx },
        }
    }

    pub fn from_fields(name: u32, value: u64, size: u64, info: u8, other: u8, shndx: u16) -> (r: Symbol)
        ensures
            r == Symbol::spec_from_fields(name, value, size, info, other, shndx),
    {
        Symbol {
            name_index: name,
            value,
            size,
            binding: Binding::from_raw(info / 16),
            kind: Type::from_raw(info % 16),
            visibility: Visibility::from_raw(other),
            section_index: Index::from_raw(shndx),
        }
    }
}

/// A decoded symbol's binding is the `STB_*` value of the high four bits of
/// `st_info` (`ELF_ST_BIND`), its type the `STT_*` value of the low four bits
/// (`ELF_ST_TYPE`), and its other fields are the raw fields; `STB_GLOBAL` is 1
/// and `STT_FUNC` is 2.
pub proof fn lemma_symbol_info_nibbles(name: u32, value: u64, size: u64, info: u8, other: u8, shndx: u16)
    ensures
        Symbol::spec_from_fields(name, value, size, info, other, shndx).binding == Binding::spec_from_raw(info >> 4u8),
        Symbol::spec_from_fields(name, value, size, info, other, shndx).kind == Type::spec_from_raw(info & 0x0fu8),
        Symbol::spec_from_fields(name, value, size, info, other, shndx).name_index == name,
        Symbol::spec_from_fields(name, value, size, info, other, shndx).value == value,
        Symbol::spec_from_fields(name, value, size, info, other, shndx).size == size,
        Symbol::spec_from_fields(name, value, size, info, other, shndx).section_index.raw == shndx,
        Binding::spec_from_raw(0) == Binding::Local,
        Binding::spec_from_raw(1) == Binding::Global,
        Binding::spec_from_raw(2) == Binding::Weak,
        Type::spec_from_raw(1) == Type::Object,
        Type::spec_from_raw(2) == Type::Function,
{
    assert(info / 16 == info >> 4u8) by (bit_vector);
    assert(info % 16 == info & 0x0fu8) by (bit_vector);
}

/// The section a symbol is defined relative to, with `SHN_XINDEX` resolved.
#[derive(Debug, Clone, Copy, PartialEq, Eq, Structural)]
pub enum ResolvedSectionIndex {
    Undefined,
    Absolute,
    Common,
    Section(usize),
    Reserved(u16),
}

impl ResolvedSectionIndex {
    /// Resolves a raw `st_shndx`, taking the real index from `extended` (the
    /// `SHT_SYMTAB_SHNDX` entry) when it is `SHN_XINDEX`; `None` when it is
    /// `SHN_XINDEX` and no extended index is given.
    pub open spec fn spec_resolve(index: Index, extended: Option<u32>) -> Option<ResolvedSectionIndex> {
        if index.raw == Index::EXTENDED {
            match extended {
                Some(value) => Some(ResolvedSectionIndex::Section(value as usize)),
                None => None,
            }
        } else if index.raw == Index::UNDEFINED {
            Some(ResolvedSectionIndex::Undefined)
        } else if index.raw == Index::ABSOLUTE {
            Some(ResolvedSectionIndex::Absolute)
        } else if index.raw == Index::COMMON {
            Some(ResolvedSectionIndex::Common)
        } else if index.raw >= Index::LOW_RESERVE {
            Some(ResolvedSectionIndex::Reserved(index.raw))
        } else {
            Some(ResolvedSectionIndex::Section(index.raw as usize))
        }
    }

    pub fn resolve(index: Index, extended: Option<u32>) -> (r: Option<ResolvedSectionIndex>)
        ensures
            r == ResolvedSectionIndex::spec_resolve(index, extended),
    {
        if index.raw == Index::EXTENDED {
            match extended {
                Some(value) => Some(ResolvedSectionIndex::Section(value as usize)),
                None => None,
            }
        } else if index.raw == Index::UNDEFINED {
            Some(ResolvedSectionIndex::Undefined)
        } else if index.raw == Index::ABSOLUTE {
            Some(ResolvedSectionIndex::Absolute)
        } else if index.raw == Index::COMMON {
            Some(ResolvedSectionIndex::Common)
        } else if index.raw >= Index::LOW_RESERVE {
            Some(ResolvedSectionIndex::Reserved(index.raw))
        } else {
            Some(ResolvedSectionIndex::Section(index.raw as usize))
        }
    }
}

} // verus!
