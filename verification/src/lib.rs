//! A userspace systems layer: ELF object-file parsing and the pure parts of
//! loading, a small image file codec, and raw system-call result decoding.
pub mod file;
pub mod image;

