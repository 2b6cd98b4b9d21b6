pub mod format;
pub mod result;
