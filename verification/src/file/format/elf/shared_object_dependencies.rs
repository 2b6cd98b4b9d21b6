//! Shared object dependencies described by the ELF dynamic array.
use vstd::prelude::*;
use vstd::string::StringSliceAdditionalSpecFns;

verus! {

#[derive(Debug, Clone, Copy)]
pub struct SharedObjectDependency<'file> {
    /// The index of the `DT_NEEDED` entry in the dynamic array.
    pub dynamic_entry_index: usize,
    pub name: &'file str,
}

impl<'file> SharedObjectDependency<'file> {
    pub fn new(dynamic_entry_index: usize, name: &'file str) -> (r: SharedObjectDependency<'file>)
        ensures
            r.dynamic_entry_index == dynamic_entry_index,
            r.name@ == name@,
    {
        SharedObjectDependency { dynamic_entry_index, name }
    }
}

/// The dependency information of a dynamic array, as byte strings.
pub struct SharedObjectDependenciesModel {
    pub needed: Seq<(usize, Seq<u8>)>,
    pub shared_object_name: Option<Seq<u8>>,
    pub runtime_search_path: Option<Seq<u8>>,
    pub run_path: Option<Seq<u8>>,
}

pub open spec fn str_model(s: Option<&str>) -> Option<Seq<u8>> {
    match s {
        Some(s) => Some(s.spec_bytes()),
        None => None,
    }
}

pub open spec fn needed_model<'file>(needed: Seq<SharedObjectDependency<'file>>) -> Seq<(usize, Seq<u8>)> {
    needed.map_values(|d: SharedObjectDependency<'file>| (d.dynamic_entry_index, d.name.spec_bytes()))
}

#[derive(Debug)]
pub struct SharedObjectDependencies<'file> {
    pub needed: Vec<SharedObjectDependency<'file>>,
    pub shared_object_name: Option<&'file str>,
    pub runtime_search_path: Option<&'file str>,
    pub run_path: Option<&'file str>,
}

impl<'file> SharedObjectDependencies<'file> {
    pub open spec fn model(&self) -> SharedObjectDependenciesModel {
        SharedObjectDependenciesModel {
            needed: needed_model(self.needed@),
            shared_object_name: str_model(self.shared_object_name),
            runtime_search_path: str_model(self.runtime_search_path),
            run_path: str_model(self.run_path),
        }
    }

    pub fn new(
        needed: Vec<SharedObjectDependency<'file>>,
        shared_object_name: Option<&'file str>,
        runtime_search_path: Option<&'file str>,
        run_path: Option<&'file str>,
    ) -> (r: SharedObjectDependencies<'file>)
        ensures
            r.needed@ == needed@,
            r.shared_object_name == shared_object_name,
            r.runtime_search_path == runtime_search_path,
            r.run_path == run_path,
    {
        SharedObjectDependencies { needed, shared_object_name, runtime_search_path, run_path }
    }
}

} // verus!
