//! The `PT_INTERP` segment: the path name of the program interpreter.
use vstd::prelude::*;
use super::program_header::ProgramHeader;
use super::string_table::utf8_str;
use vstd::utf8::valid_utf8;
use vstd::string::StringSliceAdditionalSpecFns;

verus! {

/// Whether `bytes` is a C string with its terminator: non-empty, ending in a
/// NUL byte, with no NUL byte before the last.
pub open spec fn is_nul_terminated(bytes: Seq<u8>) -> bool {
    &&& bytes.len() > 0
    &&& bytes.last() == 0
    &&& forall|i: int| 0 <= i < bytes.len() - 1 ==> bytes[i] != 0
}

/// Checks that `bytes` is one NUL-terminated string with no interior NUL.
pub fn is_nul_terminated_exec(bytes: &[u8]) -> (r: bool)
    ensures
        r == is_nul_terminated(bytes@),
{
    let length = bytes.len();
    if length == 0 || bytes[length - 1] != 0 {
        return false;
    }
    let mut index: usize = 0;
    while index < length - 1
        invariant
            length == bytes@.len(),
            length > 0,
            0 <= index <= length - 1,
            forall|i: int| 0 <= i < index ==> bytes@[i] != 0,
        decreases length - 1 - index,
    {
        if bytes[index] == 0 {
            return false;
        }
        index += 1;
    }
    true
}

#[derive(Debug, Clone, Copy)]
pub struct ProgramInterpreter<'file> {
    pub program_header: ProgramHeader,
    /// The path name, including its NUL terminator.
    pub pathname: &'file [u8],
}

impl<'file> ProgramInterpreter<'file> {
    pub fn new(program_header: ProgramHeader, pathname: &'file [u8]) -> (r: ProgramInterpreter<'file>)
        ensures
            r.program_header == program_header,
            r.pathname@ == pathname@,
    {
        ProgramInterpreter { program_header, pathname }
    }

    /// The path name without its terminator, when it is valid UTF-8.
    pub fn pathname_str(&self) -> (r: Option<&'file str>)
        requires
            self.pathname@.len() > 0,
        ensures
            r is Some <==> valid_utf8(self.pathname@.drop_last()),
            r matches Some(s) ==> s.spec_bytes() == self.pathname@.drop_last(),
    {
        let without_terminator = vstd::slice::slice_subrange(self.pathname, 0, self.pathname.len() - 1);
        utf8_str(without_terminator)
    }
}

} // verus!
