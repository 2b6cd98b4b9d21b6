//! ELF semantics specific to processor ABIs.
pub mod x86_64;
