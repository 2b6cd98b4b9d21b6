//! ELF program header (segment descriptor).
pub mod class_32;
pub mod class_64;

use vstd::prelude::*;

verus! {

/// Segment type (`p_type`).
#[derive(Debug, Clone, Copy, PartialEq, Eq, Structural)]
pub enum Type {
    Null,
    Load,
    Dynamic,
    Interpreter,
    Note,
    SharedLibrary,
    ProgramHeader,
    ThreadLocalStorage,
    Other(u32),
}

impl Type {
    pub open spec fn spec_from_raw(raw: u32) -> Type {
        if raw == 0 {
            Type::Null
        } else if raw == 1 {
            Type::Load
        } else if raw == 2 {
            Type::Dynamic
        } else if raw == 3 {
            Type::Interpreter
        } else if raw == 4 {
            Type::Note
        } else if raw == 5 {
            Type::SharedLibrary
        } else if raw == 6 {
            Type::ProgramHeader
        } else if raw == 7 {
            Type::ThreadLocalStorage
        } else {
            Type::Other(raw)
        }
    }

    pub open spec fn spec_raw(self) -> u32 {
        match self {
            Type::Null => 0,
            Type::Load => 1,
            Type::Dynamic => 2,
            Type::Interpreter => 3,
            Type::Note => 4,
            Type::SharedLibrary => 5,
            Type::ProgramHeader => 6,
            Type::ThreadLocalStorage => 7,
            Type::Other(raw) => raw,
        }
    }

    pub fn from_raw(raw: u32) -> (r: Type)
        ensures
            r == Type::spec_from_raw(raw),
    {
        match raw {
            0 => Type::Null,
            1 => Type::Load,
            2 => Type::Dynamic,
            3 => Type::Interpreter,
            4 => Type::Note,
            5 => Type::SharedLibrary,
            6 => Type::ProgramHeader,
            7 => Type::ThreadLocalStorage,
            _ => Type::Other(raw),
        }
    }

    pub fn raw(self) -> (r: u32)
        ensures
            r == self.spec_raw(),
    {
        match self {
            Type::Null => 0,
            Type::Load => 1,
            Type::Dynamic => 2,
            Type::Interpreter => 3,
            Type::Note => 4,
            Type::SharedLibrary => 5,
            Type::ProgramHeader => 6,
            Type::ThreadLocalStorage => 7,
            Type::Other(raw) => raw,
        }
    }
}

/// Decoding a raw segment type and encoding it again gives the raw value back.
pub proof fn lemma_type_raw_roundtrip(raw: u32)
    ensures
        Type::spec_from_raw(raw).spec_raw() == raw,
{
}

/// Segment permission flags (`p_flags`).
#[derive(Debug, Clone, Copy, PartialEq, Eq, Structural)]
pub struct Flags {
    pub raw: u32,
}

impl Flags {
    pub const EXECUTE: u32 = 1;
    pub const WRITE: u32 = 2;
    pub const READ: u32 = 4;

    /// Whether every bit of `bits` is set.
    pub fn contains(self, bits: u32) -> (r: bool)
        ensures
            r == (self.raw & bits == bits),
    {
        self.raw & bits == bits
    }
}

/// The decoded program header, with addresses and sizes widened to 64 bits.
#[derive(Debug, Clone, Copy, PartialEq, Eq, Structural)]
pub struct ProgramHeader {
    pub kind: Type,
    pub flags: Flags,
    pub offset: u64,
    pub virtual_address: u64,
    pub physical_address: u64,
    pub file_size: u64,
    pub memory_size: u64,
    pub alignment: u64,
}

/// Constraints that the gABI places on the program-header table.
#[derive(Debug, Clone, Copy, PartialEq, Eq, Structural)]
pub enum ValidationError {
    LoadFileImageLargerThanMemoryImage { index: usize },
    LoadAlignmentNotPowerOfTwo { index: usize },
    LoadAddressOffsetIncongruent { index: usize },
    LoadSegmentsNotOrderedByVirtualAddress { previous: usize, current: usize },
    MultipleInterpreters,
    InterpreterAfterLoad { index: usize },
    MultipleProgramHeaderTableImages,
    ProgramHeaderTableImageAfterLoad { index: usize },
    SharedLibrarySegment { index: usize },
}

} // verus!
