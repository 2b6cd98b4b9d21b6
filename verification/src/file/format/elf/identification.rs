//! ELF identification bytes (`e_ident`).
use vstd::prelude::*;

verus! {

pub const SIZE: usize = 16;

pub const MAGIC_0_INDEX: usize = 0;
pub const MAGIC_1_INDEX: usize = 1;
pub const MAGIC_2_INDEX: usize = 2;
pub const MAGIC_3_INDEX: usize = 3;
pub const CLASS_INDEX: usize = 4;
pub const DATA_INDEX: usize = 5;
pub const VERSION_INDEX: usize = 6;
pub const OS_ABI_INDEX: usize = 7;
pub const ABI_VERSION_INDEX: usize = 8;
pub const PADDING_INDEX: usize = 9;

/// The four magic bytes `0x7f 'E' 'L' 'F'` that open every ELF object.
pub const MAGIC_0: u8 = 0x7f;
pub const MAGIC_1: u8 = 0x45;
pub const MAGIC_2: u8 = 0x4c;
pub const MAGIC_3: u8 = 0x46;

/// File class (`EI_CLASS`): the width of addresses and offsets.
#[derive(Debug, Clone, Copy, PartialEq, Eq, Structural)]
pub enum Class {
    ClassNone,
    Class32,
    Class64,
}

/// Data encoding (`EI_DATA`): the byte order of multi-byte fields.
#[derive(Debug, Clone, Copy, PartialEq, Eq, Structural)]
pub enum Data {
    DataNone,
    LeastSignificantByteFirst,
    MostSignificantByteFirst,
}

impl Class {
    pub open spec fn spec_from_raw(raw: u8) -> Option<Class> {
        if raw == 0 {
            Some(Class::ClassNone)
        } else if raw == 1 {
            Some(Class::Class32)
        } else if raw == 2 {
            Some(Class::Class64)
        } else {
            None
        }
    }

    pub open spec fn spec_raw(self) -> u8 {
        match self {
            Class::ClassNone => 0,
            Class::Class32 => 1,
            Class::Class64 => 2,
        }
    }

    /// The class named by an `EI_CLASS` byte, if the byte names one.
    pub fn from_raw(raw: u8) -> (r: Option<Class>)
        ensures
            r == Class::spec_from_raw(raw),
    {
        if raw == 0 {
            Some(Class::ClassNone)
        } else if raw == 1 {
            Some(Class::Class32)
        } else if raw == 2 {
            Some(Class::Class64)
        } else {
            None
        }
    }

    pub fn raw(self) -> (r: u8)
        ensures
            r == self.spec_raw(),
    {
        match self {
            Class::ClassNone => 0,
            Class::Class32 => 1,
            Class::Class64 => 2,
        }
    }
}

impl Data {
    pub open spec fn spec_from_raw(raw: u8) -> Option<Data> {
        if raw == 0 {
            Some(Data::DataNone)
        } else if raw == 1 {
            Some(Data::LeastSignificantByteFirst)
        } else if raw == 2 {
            Some(Data::MostSignificantByteFirst)
        } else {
            None
        }
    }

    pub open spec fn spec_raw(self) -> u8 {
        match self {
            Data::DataNone => 0,
            Data::LeastSignificantByteFirst => 1,
            Data::MostSignificantByteFirst => 2,
        }
    }

    /// The data encoding named by an `EI_DATA` byte, if the byte names one.
    pub fn from_raw(raw: u8) -> (r: Option<Data>)
        ensures
            r == Data::spec_from_raw(raw),
    {
        if raw == 0 {
            Some(Data::DataNone)
        } else if raw == 1 {
            Some(Data::LeastSignificantByteFirst)
        } else if raw == 2 {
            Some(Data::MostSignificantByteFirst)
        } else {
            None
        }
    }

    pub fn raw(self) -> (r: u8)
        ensures
            r == self.spec_raw(),
    {
        match self {
            Data::DataNone => 0,
            Data::LeastSignificantByteFirst => 1,
            Data::MostSignificantByteFirst => 2,
        }
    }
}

/// A class byte that names a class is that class's raw value, and every
/// class's raw value names it.
pub proof fn lemma_class_raw_roundtrip(raw: u8, class: Class)
    ensures
        Class::spec_from_raw(raw) matches Some(named) ==> named.spec_raw() == raw,
        Class::spec_from_raw(class.spec_raw()) == Some(class),
{
}

/// A data byte that names an encoding is that encoding's raw value, and
/// every encoding's raw value names it.
pub proof fn lemma_data_raw_roundtrip(raw: u8, data: Data)
    ensures
        Data::spec_from_raw(raw) matches Some(named) ==> named.spec_raw() == raw,
        Data::spec_from_raw(data.spec_raw()) == Some(data),
{
}

/// The decoded identification of an ELF object.
#[derive(Debug, Clone, Copy, PartialEq, Eq, Structural)]
pub struct Identification {
    pub class: Class,
    pub data: Data,
    pub version: u8,
    pub os_abi: u8,
    pub abi_version: u8,
}

/// Whether the first four bytes are the ELF magic number.
pub open spec fn has_magic(bytes: Seq<u8>) -> bool {
    &&& bytes.len() >= 4
    &&& bytes[0] == MAGIC_0
    &&& bytes[1] == MAGIC_1
    &&& bytes[2] == MAGIC_2
    &&& bytes[3] == MAGIC_3
}

impl Identification {
    /// The identification held by the first `SIZE` bytes: present when they
    /// start with the magic number and name a known class and data encoding.
    pub open spec fn spec_from_bytes(bytes: Seq<u8>) -> Option<Identification> {
        if bytes.len() < SIZE || !has_magic(bytes) {
            None
        } else {
            match (Class::spec_from_raw(bytes[4]), Data::spec_from_raw(bytes[5])) {
                (Some(class), Some(data)) => Some(
                    Identification {
                        class,
                        data,
                        version: bytes[6],
                        os_abi: bytes[7],
                        abi_version: bytes[8],
                    },
                ),
                _ => None,
            }
        }
    }

    pub fn from_bytes(bytes: &[u8]) -> (r: Option<Identification>)
        ensures
            r == Identification::spec_from_bytes(bytes@),
    {
        if bytes.len() < SIZE {
            return None;
        }
        if bytes[0] != MAGIC_0 || bytes[1] != MAGIC_1 || bytes[2] != MAGIC_2 || bytes[3] != MAGIC_3 {
            return None;
        }
        let class = match Class::from_raw(bytes[CLASS_INDEX]) {
            Some(class) => class,
            None => return None,
        };
        let data = match Data::from_raw(bytes[DATA_INDEX]) {
            Some(data) => data,
            None => return None,
        };
        Some(
            Identification {
                class,
                data,
                version: bytes[VERSION_INDEX],
                os_abi: bytes[OS_ABI_INDEX],
                abi_version: bytes[ABI_VERSION_INDEX],
            },
        )
    }
}

} // verus!
