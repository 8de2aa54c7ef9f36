//! The pre-shared key.

use crate::error::InvalidKeyError;
use crate::hexadecimal::{all_digits, decode, decoded, is_all_digits, HexError};
use std::cmp::Ordering;
use vstd::prelude::*;
use vstd::std_specs::cmp::{PartialEqSpecImpl, PartialOrdSpecImpl};
use vstd::std_specs::convert::{FromSpecImpl, TryFromSpecImpl};
use vstd::string::StringSliceAdditionalSpecFns;

verus! {

/// A 128-bit encryption key for securing peer communications.
///
/// Keys can be created from byte arrays, byte slices, or hex strings. They
/// are plain values: equal when their bytes are equal, ordered as their
/// bytes are, byte by byte.
#[derive(Debug, Clone, Copy, Eq, Ord, Hash)]
pub struct Key([u8; 16]);

impl View for Key {
    type V = Seq<u8>;

    closed spec fn view(&self) -> Seq<u8> {
        self.0@
    }
}

/// The first of two byte strings of one length comes before the second:
/// at the first place where they differ, its byte is the smaller.
pub open spec fn precedes(a: Seq<u8>, b: Seq<u8>) -> bool {
    exists|i: int|
        0 <= i < a.len() && i < b.len() && a[i] < b[i] && forall|j: int|
            0 <= j < i ==> a[j] == b[j]
}

/// The key that a text stands for, given as its bytes: the bytes that 32
/// hexadecimal digits encode. A text with a byte that is no digit is
/// refused for that byte, or for its odd length where it has one; a text of
/// digits alone, but not 32 of them, is refused for its length.
pub open spec fn parsed(text: Seq<u8>) -> Result<Seq<u8>, InvalidKeyError> {
    if !all_digits(text) {
        Err(InvalidKeyError::InvalidHex(decoded(text)->Err_0))
    } else if text.len() != 32 {
        Err(InvalidKeyError::InvalidLength)
    } else {
        Ok(decoded(text)->Ok_0)
    }
}

impl Key {
    /// Parses a key from a hex string of exactly 32 digits, of either case.
    pub fn from_hex(s: &str) -> (r: Result<Key, InvalidKeyError>)
        ensures
            match r {
                Ok(key) => parsed(s.spec_bytes()) == Ok::<Seq<u8>, InvalidKeyError>(key@),
                Err(e) => parsed(s.spec_bytes()) == Err::<Seq<u8>, InvalidKeyError>(e),
            },
    {
        let text = s.as_bytes();
        match decode(text) {
            Ok(bytes) => Key::from_slice(bytes.as_slice()),
            Err(HexError::OddLength) => {
                if is_all_digits(text) {
                    Err(InvalidKeyError::InvalidLength)
                } else {
                    Err(InvalidKeyError::InvalidHex(HexError::OddLength))
                }
            },
            Err(e) => Err(InvalidKeyError::InvalidHex(e)),
        }
    }

    /// A key has exactly 16 bytes, and keys with the same bytes are the
    /// same key.
    pub proof fn lemma_view(self, other: Key)
        ensures
            self@.len() == 16,
            self@ == other@ <==> self == other,
    {
        if self@ == other@ {
            assert(self.0 =~= other.0);
        }
    }

    /// The bytes of the key.
    pub fn as_bytes(&self) -> (bytes: &[u8; 16])
        ensures
            bytes@ == self@,
    {
        &self.0
    }

    /// Makes a key of a slice of exactly 16 bytes.
    pub fn from_slice(slice: &[u8]) -> (r: Result<Key, InvalidKeyError>)
        ensures
            match r {
                Ok(key) => slice@.len() == 16 && key@ == slice@,
                Err(e) => slice@.len() != 16 && e == InvalidKeyError::InvalidLength,
            },
    {
        if slice.len() != 16 {
            return Err(InvalidKeyError::InvalidLength);
        }
        let mut array = [0u8; 16];
        let mut i: usize = 0;
        while i < 16
            invariant
                i <= 16,
                slice@.len() == 16,
                forall|j: int| 0 <= j < i ==> array@[j] == slice@[j],
            decreases 16 - i,
        {
            array[i] = slice[i];
            i += 1;
        }
        assert(array@ =~= slice@);
        Ok(Key(array))
    }
}

impl PartialEq for Key {
    fn eq(&self, other: &Key) -> (equal: bool) {
        let mut i: usize = 0;
        while i < 16
            invariant
                i <= 16,
                forall|j: int| 0 <= j < i ==> self.0@[j] == other.0@[j],
            decreases 16 - i,
        {
            if self.0[i] != other.0[i] {
                return false;
            }
            i += 1;
        }
        assert(self.0@ =~= other.0@);
        true
    }
}

impl PartialEqSpecImpl for Key {
    open spec fn obeys_eq_spec() -> bool {
        true
    }

    open spec fn eq_spec(&self, other: &Key) -> bool {
        self@ == other@
    }
}

impl PartialOrd for Key {
    fn partial_cmp(&self, other: &Key) -> (order: Option<Ordering>) {
        let mut i: usize = 0;
        while i < 16
            invariant
                i <= 16,
                forall|j: int| 0 <= j < i ==> self.0@[j] == other.0@[j],
            decreases 16 - i,
        {
            if self.0[i] < other.0[i] {
                return Some(Ordering::Less);
            }
            if self.0[i] > other.0[i] {
                return Some(Ordering::Greater);
            }
            i += 1;
        }
        assert(self.0@ =~= other.0@);
        Some(Ordering::Equal)
    }
}

impl PartialOrdSpecImpl for Key {
    open spec fn obeys_partial_cmp_spec() -> bool {
        true
    }

    open spec fn partial_cmp_spec(&self, other: &Key) -> Option<Ordering> {
        if self@ == other@ {
            Some(Ordering::Equal)
        } else if precedes(self@, other@) {
            Some(Ordering::Less)
        } else {
            Some(Ordering::Greater)
        }
    }
}

impl From<[u8; 16]> for Key {
    fn from(array: [u8; 16]) -> (key: Key)
        ensures
            key@ == array@,
    {
        Key(array)
    }
}

impl FromSpecImpl<[u8; 16]> for Key {
    open spec fn obeys_from_spec() -> bool {
        true
    }

    closed spec fn from_spec(array: [u8; 16]) -> Key {
        Key(array)
    }
}

impl<'a> TryFrom<&'a [u8]> for Key {
    type Error = InvalidKeyError;

    fn try_from(slice: &'a [u8]) -> (r: Result<Key, InvalidKeyError>)
        ensures
            match r {
                Ok(key) => slice@.len() == 16 && key@ == slice@,
                Err(e) => slice@.len() != 16 && e == InvalidKeyError::InvalidLength,
            },
    {
        let r = Key::from_slice(slice);
        proof {
            if let Ok(key) = r {
                key.lemma_view(choose|k: Key| k@ == slice@);
            }
        }
        r
    }
}

impl<'a> TryFromSpecImpl<&'a [u8]> for Key {
    open spec fn obeys_try_from_spec() -> bool {
        true
    }

    open spec fn try_from_spec(slice: &'a [u8]) -> Result<Key, InvalidKeyError> {
        if slice@.len() == 16 {
            Ok(choose|key: Key| key@ == slice@)
        } else {
            Err(InvalidKeyError::InvalidLength)
        }
    }
}

impl std::str::FromStr for Key {
    type Err = InvalidKeyError;

    /// Parses a key from a hex string, as `from_hex` does.
    fn from_str(s: &str) -> (r: Result<Key, InvalidKeyError>)
        ensures
            match r {
                Ok(key) => parsed(s.spec_bytes()) == Ok::<Seq<u8>, InvalidKeyError>(key@),
                Err(e) => parsed(s.spec_bytes()) == Err::<Seq<u8>, InvalidKeyError>(e),
            },
    {
        Key::from_hex(s)
    }
}

impl std::ops::Deref for Key {
    type Target = [u8; 16];

    fn deref(&self) -> (bytes: &[u8; 16])
        ensures
            bytes@ == self@,
    {
        &self.0
    }
}

impl AsRef<[u8; 16]> for Key {
    /// The bytes of the key, as an array.
    fn as_ref(&self) -> (bytes: &[u8; 16])
        ensures
            <[u8; 16] as View>::view(bytes) == self@,
    {
        &self.0
    }
}

impl AsRef<[u8]> for Key {
    /// The bytes of the key, as a slice: all 16 of them, in order.
    fn as_ref(&self) -> (bytes: &[u8])
        ensures
            <[u8] as View>::view(bytes) == self@,
    {
        self.0.as_slice()
    }
}

} // verus!
