//! ELF section header.
pub mod class_32;
pub mod class_64;
pub mod validation;

use vstd::prelude::*;

verus! {

/// Section type (`sh_type`).
#[derive(Debug, Clone, Copy, PartialEq, Eq, Structural)]
pub enum Type {
    Null,
    ProgramBits,
    SymbolTable,
    StringTable,
    RelocationWithAddend,
    Hash,
    Dynamic,
    Note,
    NoBits,
    Relocation,
    SharedLibrary,
    DynamicSymbolTable,
    InitializationArray,
    TerminationArray,
    PreInitializationArray,
    Group,
    SymbolTableSectionIndex,
    RelativeRelocation,
    Other(u32),
}

impl Type {
    pub open spec fn spec_from_raw(raw: u32) -> Type {
        if raw == 0 {
            Type::Null
        } else if raw == 1 {
            Type::ProgramBits
        } else if raw == 2 {
            Type::SymbolTable
        } else if raw == 3 {
            Type::StringTable
        } else if raw == 4 {
            Type::RelocationWithAddend
        } else if raw == 5 {
            Type::Hash
        } else if raw == 6 {
            Type::Dynamic
        } else if raw == 7 {
            Type::Note
        } else if raw == 8 {
            Type::NoBits
        } else if raw == 9 {
            Type::Relocation
        } else if raw == 10 {
            Type::SharedLibrary
        } else if raw == 11 {
            Type::DynamicSymbolTable
        } else if raw == 14 {
            Type::InitializationArray
        } else if raw == 15 {
            Type::TerminationArray
        } else if raw == 16 {
            Type::PreInitializationArray
        } else if raw == 17 {
            Type::Group
        } else if raw == 18 {
            Type::SymbolTableSectionIndex
        } else if raw == 19 {
            Type::RelativeRelocation
        } else {
            Type::Other(raw)
        }
    }

    pub open spec fn spec_raw(self) -> u32 {
        match self {
            Type::Null => 0,
            Type::ProgramBits => 1,
            Type::SymbolTable => 2,
            Type::StringTable => 3,
            Type::RelocationWithAddend => 4,
            Type::Hash => 5,
            Type::Dynamic => 6,
            Type::Note => 7,
            Type::NoBits => 8,
            Type::Relocation => 9,
            Type::SharedLibrary => 10,
            Type::DynamicSymbolTable => 11,
            Type::InitializationArray => 14,
            Type::TerminationArray => 15,
            Type::PreInitializationArray => 16,
            Type::Group => 17,
            Type::SymbolTableSectionIndex => 18,
            Type::RelativeRelocation => 19,
            Type::Other(raw) => raw,
        }
    }

    pub fn from_raw(raw: u32) -> (r: Type)
        ensures
            r == Type::spec_from_raw(raw),
    {
        match raw {
            0 => Type::Null,
            1 => Type::ProgramBits,
            2 => Type::SymbolTable,
            3 => Type::StringTable,
            4 => Type::RelocationWithAddend,
            5 => Type::Hash,
            6 => Type::Dynamic,
            7 => Type::Note,
            8 => Type::NoBits,
            9 => Type::Relocation,
            10 => Type::SharedLibrary,
            11 => Type::DynamicSymbolTable,
            14 => Type::InitializationArray,
            15 => Type::TerminationArray,
            16 => Type::PreInitializationArray,
            17 => Type::Group,
            18 => Type::SymbolTableSectionIndex,
            19 => Type::RelativeRelocation,
            _ => Type::Other(raw),
        }
    }

    pub fn raw(self) -> (r: u32)
        ensures
            r == self.spec_raw(),
    {
        match self {
            Type::Null => 0,
            Type::ProgramBits => 1,
            Type::SymbolTable => 2,
            Type::StringTable => 3,
            Type::RelocationWithAddend => 4,
            Type::Hash => 5,
            Type::Dynamic => 6,
            Type::Note => 7,
            Type::NoBits => 8,
            Type::Relocation => 9,
            Type::SharedLibrary => 10,
            Type::DynamicSymbolTable => 11,
            Type::InitializationArray => 14,
            Type::TerminationArray => 15,
            Type::PreInitializationArray => 16,
            Type::Group => 17,
            Type::SymbolTableSectionIndex => 18,
            Type::RelativeRelocation => 19,
            Type::Other(raw) => raw,
        }
    }
}

/// Decoding a raw section type and encoding it again gives the raw value back.
pub proof fn lemma_type_raw_roundtrip(raw: u32)
    ensures
        Type::spec_from_raw(raw).spec_raw() == raw,
{
}

/// Section attribute flags (`sh_flags`).
#[derive(Debug, Clone, Copy, PartialEq, Eq, Structural)]
pub struct Flags {
    pub raw: u64,
}

impl Flags {
    pub const WRITE: u64 = 0x1;
    pub const ALLOCATE: u64 = 0x2;
    pub const EXECUTE: u64 = 0x4;
    pub const MERGE: u64 = 0x10;
    pub const STRINGS: u64 = 0x20;
    pub const INFORMATION_LINK: u64 = 0x40;
    pub const LINK_ORDER: u64 = 0x80;
    pub const GROUP: u64 = 0x200;
    pub const THREAD_LOCAL_STORAGE: u64 = 0x400;
    pub const COMPRESSED: u64 = 0x800;

    /// Whether every bit of `bits` is set.
    pub fn contains(self, bits: u64) -> (r: bool)
        ensures
            r == (self.raw & bits == bits),
    {
        self.raw & bits == bits
    }
}

/// A raw section index (`st_shndx`, `e_shstrndx`).
#[derive(Debug, Clone, Copy, PartialEq, Eq, Structural)]
pub struct Index {
    pub raw: u16,
}

impl Index {
    /// `SHN_UNDEF`.
    pub const UNDEFINED: u16 = 0;
    /// `SHN_LORESERVE`.
    pub const LOW_RESERVE: u16 = 0xff00;
    /// `SHN_ABS`.
    pub const ABSOLUTE: u16 = 0xfff1;
    /// `SHN_COMMON`.
    pub const COMMON: u16 = 0xfff2;
    /// `SHN_XINDEX`.
    pub const EXTENDED: u16 = 0xffff;

    pub fn from_raw(raw: u16) -> (r: Index)
        ensures
            r.raw == raw,
    {
        Index { raw }
    }
}

/// The decoded section header, with addresses and sizes widened to 64 bits.
#[derive(Debug, Clone, Copy, PartialEq, Eq, Structural)]
pub struct SectionHeader {
    pub name_index: u32,
    pub kind: Type,
    pub flags: Flags,
    pub address: u64,
    pub offset: u64,
    pub size: u64,
    pub link: u32,
    pub information: u32,
    pub alignment: u64,
    pub entry_size: u64,
}

} // verus!
