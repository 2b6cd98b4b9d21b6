//! The identification bytes of a file header, one field per byte.
use vstd::prelude::*;

verus! {

/// The pointer-width class a raw `EI_CLASS` byte names, carrying the byte.
#[derive(Debug, Clone, Copy, PartialEq, Eq, Structural)]
pub enum Class {
    ClassNone(u8),
    Class32(u8),
    Class64(u8),
}

/// `e_ident`, one field per byte.
#[derive(Debug, Clone, Copy, PartialEq, Eq, Structural)]
pub struct Identifier {
    pub magic0: u8,
    pub magic1: u8,
    pub magic2: u8,
    pub magic3: u8,
    pub class: u8,
    pub endianness: u8,
    pub version: u8,
    pub osabi: u8,
    pub abiversion: u8,
    pub padding: u8,
    pub unassigned0: u8,
    pub unassigned1: u8,
    pub unassigned2: u8,
    pub unassigned3: u8,
    pub unassigned4: u8,
    pub nident: u8,
}

impl Identifier {
    /// The class the class byte names: `Class32` for 1, `Class64` for 2, and
    /// `ClassNone` for every other value.
    pub fn class(&self) -> (r: Class)
        ensures
            r == (if self.class == 1 {
                Class::Class32(self.class)
            } else if self.class == 2 {
                Class::Class64(self.class)
            } else {
                Class::ClassNone(self.class)
            }),
    {
        match self.class {
            1 => Class::Class32(self.class),
            2 => Class::Class64(self.class),
            _ => Class::ClassNone(self.class),
        }
    }

    pub open spec fn spec_as_seq(&self) -> Seq<u8> {
        seq![
            self.magic0, self.magic1, self.magic2, self.magic3, self.class, self.endianness,
            self.version, self.osabi, self.abiversion, self.padding, self.unassigned0,
            self.unassigned1, self.unassigned2, self.unassigned3, self.unassigned4, self.nident,
        ]
    }

    /// The sixteen bytes in file order.
    pub fn as_array(&self) -> (r: [u8; 16])
        ensures
            r@ == self.spec_as_seq(),
    {
        let r = [
            self.magic0,
            self.magic1,
            self.magic2,
            self.magic3,
            self.class,
            self.endianness,
            self.version,
            self.osabi,
            self.abiversion,
            self.padding,
            self.unassigned0,
            self.unassigned1,
            self.unassigned2,
            self.unassigned3,
            self.unassigned4,
            self.nident,
        ];
        assert(r@ =~= self.spec_as_seq());
        r
    }

    /// The identifier held by sixteen bytes in file order.
    pub fn from_array(bytes: [u8; 16]) -> (r: Identifier)
        ensures
            r.spec_as_seq() == bytes@,
    {
        let r = Identifier {
            magic0: bytes[0],
            magic1: bytes[1],
            magic2: bytes[2],
            magic3: bytes[3],
            class: bytes[4],
            endianness: bytes[5],
            version: bytes[6],
            osabi: bytes[7],
            abiversion: bytes[8],
            padding: bytes[9],
            unassigned0: bytes[10],
            unassigned1: bytes[11],
            unassigned2: bytes[12],
            unassigned3: bytes[13],
            unassigned4: bytes[14],
            nident: bytes[15],
        };
        assert(r.spec_as_seq() =~= bytes@);
        r
    }
}

/// Reading an identifier back as an array gives the bytes it was made from.
pub proof fn lemma_identifier_array_roundtrip(identifier: Identifier)
    ensures
        identifier.spec_as_seq().len() == 16,
        forall|other: Identifier| other.spec_as_seq() == identifier.spec_as_seq() ==> other == identifier,
{
    assert forall|other: Identifier| other.spec_as_seq() == identifier.spec_as_seq() implies other == identifier by {
        let a = other.spec_as_seq();
        let b = identifier.spec_as_seq();
        assert(a[0] == b[0] && a[1] == b[1] && a[2] == b[2] && a[3] == b[3]);
        assert(a[4] == b[4] && a[5] == b[5] && a[6] == b[6] && a[7] == b[7]);
        assert(a[8] == b[8] && a[9] == b[9] && a[10] == b[10] && a[11] == b[11]);
        assert(a[12] == b[12] && a[13] == b[13] && a[14] == b[14] && a[15] == b[15]);
    }
}

} // verus!
