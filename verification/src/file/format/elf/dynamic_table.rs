//! ELF dynamic section.
//!
//! The section-header `sh_link` identifies the string table used by dynamic
//! entries. The dynamic array terminates at the first `DT_NULL` entry.
use vstd::prelude::*;
use vstd::string::StringSliceAdditionalSpecFns;
use super::dynamic::{Dynamic, Tag};
use super::string_table::{spec_str_at, StringTable};

verus! {

/// Whether an entry's payload is an offset into the dynamic string table.
pub open spec fn names_string(tag: Tag) -> bool {
    tag == Tag::Needed || tag == Tag::SharedObjectName || tag == Tag::RuntimeSearchPath || tag == Tag::RunPath
}

#[derive(Debug)]
pub struct DynamicTable<'file> {
    pub entries: Vec<Dynamic>,
    pub strings: StringTable<'file>,
}

impl<'file> DynamicTable<'file> {
    pub fn new(entries: Vec<Dynamic>, strings: StringTable<'file>) -> (r: DynamicTable<'file>)
        ensures
            r.entries@ == entries@,
            r.strings.bytes@ == strings.bytes@,
    {
        DynamicTable { entries, strings }
    }

    pub fn len(&self) -> (r: usize)
        ensures
            r == self.entries@.len(),
    {
        self.entries.len()
    }

    pub fn is_empty(&self) -> (r: bool)
        ensures
            r == (self.entries@.len() == 0),
    {
        self.entries.len() == 0
    }

    pub fn get(&self, index: usize) -> (r: Option<&Dynamic>)
        ensures
            index < self.entries@.len() ==> r == Some(&self.entries@[index as int]),
            index >= self.entries@.len() ==> r is None,
    {
        if index < self.entries.len() {
            Some(&self.entries[index])
        } else {
            None
        }
    }

    /// The entries, in table order.
    pub fn iter(&self) -> (r: &[Dynamic])
        ensures
            r@ == self.entries@,
    {
        self.entries.as_slice()
    }

    /// The string an entry names: for `DT_NEEDED`, `DT_SONAME`, `DT_RPATH`
    /// and `DT_RUNPATH`, the string at its payload; `None` for other tags.
    pub fn string(&self, entry: &Dynamic) -> (r: Option<&'file str>)
        ensures
            match r {
                Some(s) => names_string(entry.tag)
                    && spec_str_at(self.strings.bytes@, entry.payload as usize as int) == Some(s.spec_bytes()),
                None => !names_string(entry.tag) || spec_str_at(self.strings.bytes@, entry.payload as usize as int) is None,
            },
    {
        match entry.tag {
            Tag::Needed | Tag::SharedObjectName | Tag::RuntimeSearchPath | Tag::RunPath => {
                self.strings.get_str(entry.payload as usize)
            },
            _ => None,
        }
    }
}

} // verus!
