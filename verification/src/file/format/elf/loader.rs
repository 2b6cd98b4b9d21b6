//! Outcomes of loading an ELF program and handing control to it.
pub mod execution;
pub mod result;
