//! Raw results of the loader's system calls.
use vstd::prelude::*;

verus! {

/// Successful outcome of a loader call: the raw return value.
#[derive(Debug, Clone, Copy, PartialEq, Eq, Structural)]
pub enum Success {
    Default(usize),
}

/// Failed outcome of a loader call; `Default` holds a raw return value.
#[derive(Debug, Clone, Copy, PartialEq, Eq, Structural)]
pub enum Error {
    Default(usize),
    InvalidHeader(usize),
    UnsupportedClass(usize),
    UnsupportedEndianness(usize),
    UnsupportedType(usize),
    UnsupportedMachine(usize),
    InvalidProgramHeaderTable(usize),
    InvalidProgramHeader(usize),
    UnsupportedInterpreter(usize),
    UnsupportedDynamicLinking(usize),
    UnsupportedTls(usize),
    NoLoadableSegments(usize),
    EntryOutsideExecutableSegment(usize),
    MappingFailed(usize),
    ProtectionFailed(usize),
    FileReadFailed(usize),
    FileOpenFailed(usize),
    FileMetadataFailed(usize),
    AddressOverflow(usize),
    InvalidInterpreter(usize),
    InterpreterUnavailable(usize),
    StackConstructionFailed(usize),
}

impl Success {
    pub fn from_no(no: usize) -> (r: Self)
        ensures
            r == Success::Default(no),
    {
        Success::Default(no)
    }
}

impl Error {
    pub fn from_no(no: usize) -> (r: Self)
        ensures
            r == Error::Default(no),
    {
        Error::Default(no)
    }
}

/// A raw return value is an error when, read as a signed machine word, it is
/// negative.
pub open spec fn is_error_return(result: usize) -> bool {
    result > isize::MAX
}

/// Decodes a raw return value of a loader call.
pub fn handle_result(result: usize) -> (r: core::result::Result<Success, Error>)
    ensures
        is_error_return(result) ==> r == core::result::Result::<Success, Error>::Err(Error::Default(result)),
        !is_error_return(result) ==> r == core::result::Result::<Success, Error>::Ok(Success::Default(result)),
{
    if result > isize::MAX as usize {
        core::result::Result::Err(Error::from_no(result))
    } else {
        core::result::Result::Ok(Success::from_no(result))
    }
}

} // verus!
