//! Byte strings.

use vstd::prelude::*;
use vstd::string::StringSliceAdditionalSpecFns;

verus! {

/// A string as the ledger holds it: a sequence of bytes.
///
/// Lengths are counted in bytes, and two texts are equal exactly when their
/// bytes are.
#[derive(Debug)]
pub struct Text {
    /// The bytes of the string.
    pub bytes: Vec<u8>,
}

impl View for Text {
    type V = Seq<u8>;

    open spec fn view(&self) -> Seq<u8> {
        self.bytes@
    }
}

impl DeepView for Text {
    type V = Seq<u8>;

    open spec fn deep_view(&self) -> Seq<u8> {
        self.bytes@
    }
}

impl Clone for Text {
    fn clone(&self) -> (r: Text)
        ensures
            r@ == self@,
    {
        let mut bytes: Vec<u8> = Vec::new();
        let mut i: usize = 0;
        while i < self.bytes.len()
            invariant
                i <= self.bytes.len(),
                bytes@ == self.bytes@.take(i as int),
            decreases self.bytes.len() - i,
        {
            bytes.push(self.bytes[i]);
            i += 1;
            assert(self.bytes@.take(i as int).drop_last() == self.bytes@.take(i - 1));
        }
        assert(self.bytes@.take(i as int) == self.bytes@);
        Text { bytes }
    }
}

impl Text {
    /// The text with the UTF-8 bytes of `s`.
    pub fn from_str(s: &str) -> (r: Text)
        ensures
            r@ == s.spec_bytes(),
    {
        let src = s.as_bytes();
        let mut bytes: Vec<u8> = Vec::new();
        let mut i: usize = 0;
        while i < src.len()
            invariant
                i <= src.len(),
                bytes@ == src@.take(i as int),
            decreases src.len() - i,
        {
            bytes.push(src[i]);
            i += 1;
            assert(src@.take(i as int).drop_last() == src@.take(i - 1));
        }
        assert(src@.take(i as int) == src@);
        Text { bytes }
    }

    /// The number of bytes.
    pub fn len(&self) -> (r: usize)
        ensures
            r == self@.len(),
    {
        self.bytes.len()
    }

    /// Whether the two texts hold the same bytes.
    pub fn same(&self, other: &Text) -> (r: bool)
        ensures
            r == (self@ == other@),
    {
        if self.bytes.len() != other.bytes.len() {
            return false;
        }
        let mut i: usize = 0;
        while i < self.bytes.len()
            invariant
                i <= self.bytes.len(),
                self.bytes.len() == other.bytes.len(),
                forall|j: int| 0 <= j < i ==> self@[j] == other@[j],
            decreases self.bytes.len() - i,
        {
            if self.bytes[i] != other.bytes[i] {
                return false;
            }
            i += 1;
        }
        assert(self@ =~= other@);
        true
    }
}

} // verus!
