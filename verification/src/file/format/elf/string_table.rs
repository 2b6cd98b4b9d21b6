//! ELF string tables: NUL-terminated strings addressed by byte offset.
use vstd::prelude::*;
use vstd::utf8::valid_utf8;
use vstd::string::StringSliceAdditionalSpecFns;

verus! {

/// `core::str::from_utf8`, with the result's error dropped.
///
/// Trusted: std documents that `from_utf8` succeeds exactly when the bytes
/// are valid UTF-8, and that the string it returns views those same bytes.
/// The contract claims exactly that, through vstd's `valid_utf8` and the
/// string's byte view.
#[verifier::external_body]
pub fn utf8_str<'a>(bytes: &'a [u8]) -> (r: Option<&'a str>)
    ensures
        r is Some <==> valid_utf8(bytes@),
        r matches Some(s) ==> s.spec_bytes() == bytes@,
{
    core::str::from_utf8(bytes).ok()
}

/// The index of the first NUL byte at or after `from`.
pub open spec fn spec_find_nul(bytes: Seq<u8>, from: int) -> Option<int>
    decreases bytes.len() - from,
{
    if from < 0 || from >= bytes.len() {
        None
    } else if bytes[from] == 0 {
        Some(from)
    } else {
        spec_find_nul(bytes, from + 1)
    }
}

/// The string that starts at `index`, without its terminator; `None` when
/// `index` is outside the table or no NUL byte follows it.
pub open spec fn spec_string_at(bytes: Seq<u8>, index: int) -> Option<Seq<u8>> {
    match spec_find_nul(bytes, index) {
        None => None,
        Some(end) => Some(bytes.subrange(index, end)),
    }
}

/// The string that starts at `index`, when it is valid UTF-8.
pub open spec fn spec_str_at(bytes: Seq<u8>, index: int) -> Option<Seq<u8>> {
    match spec_string_at(bytes, index) {
        Some(b) => if valid_utf8(b) {
            Some(b)
        } else {
            None
        },
        None => None,
    }
}

pub proof fn lemma_find_nul_bounds(bytes: Seq<u8>, from: int)
    ensures
        spec_find_nul(bytes, from) matches Some(end) ==> from <= end < bytes.len() && bytes[end] == 0
            && forall|k: int| from <= k < end ==> bytes[k] != 0,
    decreases bytes.len() - from,
{
    if 0 <= from < bytes.len() && bytes[from] != 0 {
        lemma_find_nul_bounds(bytes, from + 1);
    }
}

#[derive(Debug, Clone, Copy)]
pub struct StringTable<'file> {
    pub bytes: &'file [u8],
}

impl<'file> StringTable<'file> {
    pub fn new(bytes: &'file [u8]) -> (r: StringTable<'file>)
        ensures
            r.bytes@ == bytes@,
    {
        StringTable { bytes }
    }

    pub fn bytes(&self) -> (r: &'file [u8])
        ensures
            r@ == self.bytes@,
    {
        self.bytes
    }

    /// The bytes of the string at `index`, without the terminator.
    pub fn get_bytes(&self, index: usize) -> (r: Option<&'file [u8]>)
        ensures
            r matches Some(s) ==> spec_string_at(self.bytes@, index as int) == Some(s@),
            r is None ==> spec_string_at(self.bytes@, index as int) is None,
    {
        let length = self.bytes.len();
        if index >= length {
            return None;
        }
        let mut end = index;
        while end < length && self.bytes[end] != 0
            invariant
                length == self.bytes@.len(),
                index <= end <= length,
                spec_find_nul(self.bytes@, index as int) == spec_find_nul(self.bytes@, end as int),
            decreases length - end,
        {
            end += 1;
        }
        if end == length {
            None
        } else {
            Some(vstd::slice::slice_subrange(self.bytes, index, end))
        }
    }

    /// The string at `index`, when its bytes are valid UTF-8.
    pub fn get_str(&self, index: usize) -> (r: Option<&'file str>)
        ensures
            r matches Some(s) ==> spec_string_at(self.bytes@, index as int) == Some(s.spec_bytes()),
            r matches Some(s) ==> valid_utf8(s.spec_bytes()),
            r is None ==> spec_string_at(self.bytes@, index as int) matches None
                || (spec_string_at(self.bytes@, index as int) matches Some(b) && !valid_utf8(b)),
            match r {
                Some(s) => spec_str_at(self.bytes@, index as int) == Some(s.spec_bytes()),
                None => spec_str_at(self.bytes@, index as int) is None,
            },
    {
        match self.get_bytes(index) {
            None => None,
            Some(bytes) => utf8_str(bytes),
        }
    }
}

} // verus!
