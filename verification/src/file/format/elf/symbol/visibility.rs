//! Symbol visibility (`STV_*`).
use vstd::prelude::*;

verus! {

#[derive(Debug, Clone, Copy, PartialEq, Eq, Structural)]
pub enum Visibility {
    Default,
    Internal,
    Hidden,
    Protected,
}

impl Visibility {
    /// The visibility held by the low two bits of `st_other`.
    pub open spec fn spec_from_raw(raw: u8) -> Visibility {
        if raw % 4 == 0 {
            Visibility::Default
        } else if raw % 4 == 1 {
            Visibility::Internal
        } else if raw % 4 == 2 {
            Visibility::Hidden
        } else {
            Visibility::Protected
        }
    }

    pub open spec fn spec_raw(self) -> u8 {
        match self {
            Visibility::Default => 0,
            Visibility::Internal => 1,
            Visibility::Hidden => 2,
            Visibility::Protected => 3,
        }
    }

    pub fn from_raw(raw: u8) -> (r: Visibility)
        ensures
            r == Visibility::spec_from_raw(raw),
    {
        let bits = raw & 0x03;
        assert(bits == raw % 4) by (bit_vector)
            requires
                bits == raw & 0x03,
        ;
        match bits {
            0 => Visibility::Default,
            1 => Visibility::Internal,
            2 => Visibility::Hidden,
            _ => Visibility::Protected,
        }
    }

    pub fn raw(self) -> (r: u8)
        ensures
            r == self.spec_raw(),
    {
        match self {
            Visibility::Default => 0,
            Visibility::Internal => 1,
            Visibility::Hidden => 2,
            Visibility::Protected => 3,
        }
    }
}

/// Encoding a visibility and decoding it again gives it back.
pub proof fn lemma_visibility_roundtrip(visibility: Visibility)
    ensures
        Visibility::spec_from_raw(visibility.spec_raw()) == visibility,
{
}

/// Decoding keeps only the low two bits: encoding the decoded visibility
/// gives `raw % 4`.
pub proof fn lemma_visibility_low_bits(raw: u8)
    ensures
        Visibility::spec_from_raw(raw).spec_raw() == raw % 4,
{
}

} // verus!
