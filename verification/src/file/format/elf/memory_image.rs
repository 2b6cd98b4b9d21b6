//! Read-only ELF memory image.
//!
//! A memory image exposes bytes at load-time virtual addresses. Construction
//! and mutation belong to later loading stages; this view only provides the
//! bytes already present in mapped regions.
use vstd::prelude::*;

verus! {

/// The `size` bytes at `address` of a region that starts at
/// `region_address` and holds `contents`, when they all lie in it.
pub open spec fn spec_region_bytes(region_address: u64, contents: Seq<u8>, address: u64, size: usize) -> Option<Seq<u8>> {
    if address < region_address || (address - region_address) + size > contents.len() {
        None
    } else {
        Some(contents.subrange(address - region_address, address - region_address + size))
    }
}

/// Bytes mapped at a load-time virtual address.
#[derive(Debug, Clone, Copy)]
pub struct Region<'memory> {
    pub virtual_address: u64,
    pub bytes: &'memory [u8],
}

impl<'memory> Region<'memory> {
    pub open spec fn spec_bytes(&self, address: u64, size: usize) -> Option<Seq<u8>> {
        spec_region_bytes(self.virtual_address, self.bytes@, address, size)
    }

    pub fn new(virtual_address: u64, bytes: &'memory [u8]) -> (r: Region<'memory>)
        ensures
            r.virtual_address == virtual_address,
            r.bytes@ == bytes@,
    {
        Region { virtual_address, bytes }
    }

    /// The `size` bytes at virtual address `virtual_address`, when the
    /// region holds all of them.
    pub fn bytes(&self, virtual_address: u64, size: usize) -> (r: Option<&'memory [u8]>)
        ensures
            match r {
                Some(b) => self.spec_bytes(virtual_address, size) == Some(b@),
                None => self.spec_bytes(virtual_address, size) is None,
            },
    {
        let length = self.bytes.len();
        if virtual_address < self.virtual_address {
            return None;
        }
        let displacement = virtual_address - self.virtual_address;
        if displacement > usize::MAX as u64 {
            return None;
        }
        let displacement = displacement as usize;
        let end = match displacement.checked_add(size) {
            Some(end) => end,
            None => return None,
        };
        if end > length {
            return None;
        }
        Some(vstd::slice::slice_subrange(self.bytes, displacement, end))
    }
}

/// The bytes at `address` found in the first of `regions`, from `from` on,
/// that holds all of them.
pub open spec fn spec_first_region_bytes<'memory>(regions: Seq<Region<'memory>>, address: u64, size: usize, from: int) -> Option<Seq<u8>>
    decreases regions.len() - from,
{
    if from < 0 || from >= regions.len() {
        None
    } else {
        match regions[from].spec_bytes(address, size) {
            Some(b) => Some(b),
            None => spec_first_region_bytes(regions, address, size, from + 1),
        }
    }
}

/// The mapped regions of a loaded program.
#[derive(Debug)]
pub struct MemoryImage<'memory> {
    pub regions: Vec<Region<'memory>>,
}

impl<'memory> MemoryImage<'memory> {
    pub fn new(regions: Vec<Region<'memory>>) -> (r: MemoryImage<'memory>)
        ensures
            r.regions@ == regions@,
    {
        MemoryImage { regions }
    }

    /// The `size` bytes at `virtual_address`, from the first region that
    /// holds all of them.
    pub fn bytes(&self, virtual_address: u64, size: usize) -> (r: Option<&'memory [u8]>)
        ensures
            match r {
                Some(b) => spec_first_region_bytes(self.regions@, virtual_address, size, 0) == Some(b@),
                None => spec_first_region_bytes(self.regions@, virtual_address, size, 0) is None,
            },
    {
        let mut index: usize = 0;
        while index < self.regions.len()
            invariant
                0 <= index <= self.regions@.len(),
                spec_first_region_bytes(self.regions@, virtual_address, size, 0)
                    == spec_first_region_bytes(self.regions@, virtual_address, size, index as int),
            decreases self.regions@.len() - index,
        {
            match self.regions[index].bytes(virtual_address, size) {
                Some(bytes) => return Some(bytes),
                None => {},
            }
            index += 1;
        }
        None
    }
}

} // verus!
