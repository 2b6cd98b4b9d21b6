//! The decisions that start a loaded program.
pub use super::super::segment::load::{execution_entry, interpreter_request};
