//! ELF semantics specific to the x86-64 processor ABI.
use vstd::prelude::*;

verus! {

/// ELF `EM_X86_64`.
pub const MACHINE: u16 = 62;

} // verus!
