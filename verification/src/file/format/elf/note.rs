//! An ELF note: a name, a type and a descriptor.
use vstd::prelude::*;

verus! {

#[derive(Debug, Clone, Copy)]
pub struct Note<'file> {
    /// The name bytes, `namesz` long (including any terminator it holds).
    pub name: &'file [u8],
    pub kind: u64,
    /// The descriptor bytes, `descsz` long.
    pub descriptor: &'file [u8],
}

/// A note as mathematical values.
pub struct NoteModel {
    pub name: Seq<u8>,
    pub kind: u64,
    pub descriptor: Seq<u8>,
}

impl<'file> Note<'file> {
    pub open spec fn model(&self) -> NoteModel {
        NoteModel { name: self.name@, kind: self.kind, descriptor: self.descriptor@ }
    }

    pub fn new(name: &'file [u8], kind: u64, descriptor: &'file [u8]) -> (r: Note<'file>)
        ensures
            r.name@ == name@,
            r.kind == kind,
            r.descriptor@ == descriptor@,
    {
        Note { name, kind, descriptor }
    }
}

} // verus!
