//! Why loading a program failed.
use vstd::prelude::*;

verus! {

#[derive(Debug, Clone, Copy, PartialEq, Eq, Structural)]
pub enum Error {
    InvalidHeader,
    UnsupportedClass,
    UnsupportedEndianness,
    UnsupportedType,
    UnsupportedMachine,
    InvalidProgramHeaderTable,
    InvalidProgramHeader,
    UnsupportedInterpreter,
    UnsupportedDynamicLinking,
    UnsupportedTls,
    NoLoadableSegments,
    EntryOutsideExecutableSegment,
    MappingFailed,
    ProtectionFailed,
    FileReadFailed,
    FileOpenFailed,
    FileMetadataFailed,
    AddressOverflow,
    InvalidInterpreter,
    InterpreterUnavailable,
    StackConstructionFailed,
}

} // verus!
