//! ELF dynamic-array entries (`Elf32_Dyn`, `Elf64_Dyn`).
pub mod class_32;
pub mod class_64;
pub mod validation;

use vstd::prelude::*;

verus! {

/// Dynamic-array tag (`d_tag`).
#[derive(Debug, Clone, Copy, PartialEq, Eq, Structural)]
pub enum Tag {
    Null,
    Needed,
    ProcedureLinkageTableRelocationSize,
    ProcedureLinkageTableGlobalOffsetTable,
    Hash,
    StringTable,
    SymbolTable,
    RelocationWithAddend,
    RelocationWithAddendSize,
    RelocationWithAddendEntrySize,
    StringTableSize,
    SymbolEntrySize,
    Initialization,
    Termination,
    SharedObjectName,
    RuntimeSearchPath,
    Symbolic,
    Relocation,
    RelocationSize,
    RelocationEntrySize,
    ProcedureLinkageTableRelocation,
    Debug,
    TextRelocation,
    JumpRelocation,
    BindNow,
    InitializationArray,
    TerminationArray,
    InitializationArraySize,
    TerminationArraySize,
    RunPath,
    Flags,
    PreInitializationArray,
    PreInitializationArraySize,
    SymbolTableSectionIndex,
    RelativeRelocationSize,
    RelativeRelocation,
    RelativeRelocationEntrySize,
    Other(i64),
}

impl Tag {
    pub open spec fn spec_from_raw(raw: i64) -> Tag {
        if raw == 0 { Tag::Null }
        else if raw == 1 { Tag::Needed }
        else if raw == 2 { Tag::ProcedureLinkageTableRelocationSize }
        else if raw == 3 { Tag::ProcedureLinkageTableGlobalOffsetTable }
        else if raw == 4 { Tag::Hash }
        else if raw == 5 { Tag::StringTable }
        else if raw == 6 { Tag::SymbolTable }
        else if raw == 7 { Tag::RelocationWithAddend }
        else if raw == 8 { Tag::RelocationWithAddendSize }
        else if raw == 9 { Tag::RelocationWithAddendEntrySize }
        else if raw == 10 { Tag::StringTableSize }
        else if raw == 11 { Tag::SymbolEntrySize }
        else if raw == 12 { Tag::Initialization }
        else if raw == 13 { Tag::Termination }
        else if raw == 14 { Tag::SharedObjectName }
        else if raw == 15 { Tag::RuntimeSearchPath }
        else if raw == 16 { Tag::Symbolic }
        else if raw == 17 { Tag::Relocation }
        else if raw == 18 { Tag::RelocationSize }
        else if raw == 19 { Tag::RelocationEntrySize }
        else if raw == 20 { Tag::ProcedureLinkageTableRelocation }
        else if raw == 21 { Tag::Debug }
        else if raw == 22 { Tag::TextRelocation }
        else if raw == 23 { Tag::JumpRelocation }
        else if raw == 24 { Tag::BindNow }
        else if raw == 25 { Tag::InitializationArray }
        else if raw == 26 { Tag::TerminationArray }
        else if raw == 27 { Tag::InitializationArraySize }
        else if raw == 28 { Tag::TerminationArraySize }
        else if raw == 29 { Tag::RunPath }
        else if raw == 30 { Tag::Flags }
        else if raw == 32 { Tag::PreInitializationArray }
        else if raw == 33 { Tag::PreInitializationArraySize }
        else if raw == 34 { Tag::SymbolTableSectionIndex }
        else if raw == 35 { Tag::RelativeRelocationSize }
        else if raw == 36 { Tag::RelativeRelocation }
        else if raw == 37 { Tag::RelativeRelocationEntrySize }
        else { Tag::Other(raw) }
    }

    pub open spec fn spec_raw(self) -> i64 {
        match self {
            Tag::Null => 0,
            Tag::Needed => 1,
            Tag::ProcedureLinkageTableRelocationSize => 2,
            Tag::ProcedureLinkageTableGlobalOffsetTable => 3,
            Tag::Hash => 4,
            Tag::StringTable => 5,
            Tag::SymbolTable => 6,
            Tag::RelocationWithAddend => 7,
            Tag::RelocationWithAddendSize => 8,
            Tag::RelocationWithAddendEntrySize => 9,
            Tag::StringTableSize => 10,
            Tag::SymbolEntrySize => 11,
            Tag::Initialization => 12,
            Tag::Termination => 13,
            Tag::SharedObjectName => 14,
            Tag::RuntimeSearchPath => 15,
            Tag::Symbolic => 16,
            Tag::Relocation => 17,
            Tag::RelocationSize => 18,
            Tag::RelocationEntrySize => 19,
            Tag::ProcedureLinkageTableRelocation => 20,
            Tag::Debug => 21,
            Tag::TextRelocation => 22,
            Tag::JumpRelocation => 23,
            Tag::BindNow => 24,
            Tag::InitializationArray => 25,
            Tag::TerminationArray => 26,
            Tag::InitializationArraySize => 27,
            Tag::TerminationArraySize => 28,
            Tag::RunPath => 29,
            Tag::Flags => 30,
            Tag::PreInitializationArray => 32,
            Tag::PreInitializationArraySize => 33,
            Tag::SymbolTableSectionIndex => 34,
            Tag::RelativeRelocationSize => 35,
            Tag::RelativeRelocation => 36,
            Tag::RelativeRelocationEntrySize => 37,
            Tag::Other(raw) => raw,
        }
    }

    pub fn from_raw(raw: i64) -> (r: Tag)
        ensures
            r == Tag::spec_from_raw(raw),
    {
        match raw {
            0 => Tag::Null,
            1 => Tag::Needed,
            2 => Tag::ProcedureLinkageTableRelocationSize,
            3 => Tag::ProcedureLinkageTableGlobalOffsetTable,
            4 => Tag::Hash,
            5 => Tag::StringTable,
            6 => Tag::SymbolTable,
            7 => Tag::RelocationWithAddend,
            8 => Tag::RelocationWithAddendSize,
            9 => Tag::RelocationWithAddendEntrySize,
            10 => Tag::StringTableSize,
            11 => Tag::SymbolEntrySize,
            12 => Tag::Initialization,
            13 => Tag::Termination,
            14 => Tag::SharedObjectName,
            15 => Tag::RuntimeSearchPath,
            16 => Tag::Symbolic,
            17 => Tag::Relocation,
            18 => Tag::RelocationSize,
            19 => Tag::RelocationEntrySize,
            20 => Tag::ProcedureLinkageTableRelocation,
            21 => Tag::Debug,
            22 => Tag::TextRelocation,
            23 => Tag::JumpRelocation,
            24 => Tag::BindNow,
            25 => Tag::InitializationArray,
            26 => Tag::TerminationArray,
            27 => Tag::InitializationArraySize,
            28 => Tag::TerminationArraySize,
            29 => Tag::RunPath,
            30 => Tag::Flags,
            32 => Tag::PreInitializationArray,
            33 => Tag::PreInitializationArraySize,
            34 => Tag::SymbolTableSectionIndex,
            35 => Tag::RelativeRelocationSize,
            36 => Tag::RelativeRelocation,
            37 => Tag::RelativeRelocationEntrySize,
            _ => Tag::Other(raw),
        }
    }

    pub fn raw(self) -> (r: i64)
        ensures
            r == self.spec_raw(),
    {
        match self {
            Tag::Null => 0,
            Tag::Needed => 1,
            Tag::ProcedureLinkageTableRelocationSize => 2,
            Tag::ProcedureLinkageTableGlobalOffsetTable => 3,
            Tag::Hash => 4,
            Tag::StringTable => 5,
            Tag::SymbolTable => 6,
            Tag::RelocationWithAddend => 7,
            Tag::RelocationWithAddendSize => 8,
            Tag::RelocationWithAddendEntrySize => 9,
            Tag::StringTableSize => 10,
            Tag::SymbolEntrySize => 11,
            Tag::Initialization => 12,
            Tag::Termination => 13,
            Tag::SharedObjectName => 14,
            Tag::RuntimeSearchPath => 15,
            Tag::Symbolic => 16,
            Tag::Relocation => 17,
            Tag::RelocationSize => 18,
            Tag::RelocationEntrySize => 19,
            Tag::ProcedureLinkageTableRelocation => 20,
            Tag::Debug => 21,
            Tag::TextRelocation => 22,
            Tag::JumpRelocation => 23,
            Tag::BindNow => 24,
            Tag::InitializationArray => 25,
            Tag::TerminationArray => 26,
            Tag::InitializationArraySize => 27,
            Tag::TerminationArraySize => 28,
            Tag::RunPath => 29,
            Tag::Flags => 30,
            Tag::PreInitializationArray => 32,
            Tag::PreInitializationArraySize => 33,
            Tag::SymbolTableSectionIndex => 34,
            Tag::RelativeRelocationSize => 35,
            Tag::RelativeRelocation => 36,
            Tag::RelativeRelocationEntrySize => 37,
            Tag::Other(raw) => raw,
        }
    }
}

/// Decoding a raw tag and encoding it again gives the raw value back.
pub proof fn lemma_tag_raw_roundtrip(raw: i64)
    ensures
        Tag::spec_from_raw(raw).spec_raw() == raw,
{
}

/// A decoded dynamic-array entry; `payload` is `d_val` or `d_ptr`.
#[derive(Debug, Clone, Copy, PartialEq, Eq, Structural)]
pub struct Dynamic {
    pub tag: Tag,
    pub payload: u64,
}

} // verus!
