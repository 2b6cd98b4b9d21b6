//! gABI validation for dynamic-array relationships.
use vstd::prelude::*;

verus! {

#[derive(Debug, Clone, Copy, PartialEq, Eq, Structural)]
pub enum ValidationError {
    InitializationArrayMissingSize,
    InitializationArraySizeWithoutArray,
    TerminationArrayMissingSize,
    TerminationArraySizeWithoutArray,
    PreInitializationArrayMissingSize,
    PreInitializationArraySizeWithoutArray,
    PreInitializationInSharedObject,
    InitializationArraySizeNotPointerMultiple,
    TerminationArraySizeNotPointerMultiple,
    PreInitializationArraySizeNotPointerMultiple,
}

} // verus!
