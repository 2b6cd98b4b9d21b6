//! Executable and Linking Format (ELF).
//!
//! This module models the ELF object-file format described by the System V
//! Generic ABI. Operating-system loading and process construction belong to
//! consumers of this representation, not to the format itself.
pub mod representation;
pub mod identification;
pub mod header;
pub mod program_header;
pub mod section_header;
pub mod object_file;
pub mod loadable_segment;
pub mod program_header_table_image;
pub mod program_interpreter;
pub mod section;
pub mod segment;
pub mod string_table;
pub mod thread_local_storage;
pub mod symbol;
pub mod symbol_table;
pub mod relocation;
pub mod relocation_table;
pub mod dynamic;
pub mod dynamic_array;
pub mod dynamic_table;
pub mod hash;
pub mod note;
pub mod note_table;
pub mod compression;
pub mod section_group;
pub mod dynamic_symbol_table;
pub mod dynamic_hash_table;
pub mod dynamic_relocation_table;
pub mod shared_object_dependencies;
pub mod memory_image;
pub mod program_image;
pub mod segment_section;
pub mod loader;
pub mod processor_specific;
