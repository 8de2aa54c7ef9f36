//! Hexadecimal text, as the `hex` crate reads it.

use vstd::prelude::*;

verus! {

/// Why a text is not the hexadecimal form of a byte string.
#[derive(Debug, Clone, Copy, PartialEq, Eq, Structural)]
pub enum HexError {
    /// The byte `c`, at `index`, is no hexadecimal digit.
    InvalidHexCharacter { c: char, index: usize },
    /// The text has an odd number of bytes; two digits make one byte.
    OddLength,
    /// The text does not fill a container of fixed size.
    InvalidStringLength,
}

/// The value of a hexadecimal digit, upper or lower case, given as the byte
/// that encodes it; `None` for any other byte.
pub open spec fn digit_value(byte: u8) -> Option<u8> {
    if 0x30 <= byte <= 0x39 {
        Some((byte - 0x30) as u8)
    } else if 0x41 <= byte <= 0x46 {
        Some((byte - 0x41 + 10) as u8)
    } else if 0x61 <= byte <= 0x66 {
        Some((byte - 0x61 + 10) as u8)
    } else {
        None
    }
}

/// Every byte of the text is a hexadecimal digit.
pub open spec fn all_digits(text: Seq<u8>) -> bool {
    forall|i: int| 0 <= i < text.len() ==> (#[trigger] digit_value(text[i])) is Some
}

/// The index of the first byte that is no hexadecimal digit, or the length
/// of the text where every byte is one.
pub open spec fn first_non_digit(text: Seq<u8>) -> int
    decreases text.len(),
{
    if text.len() == 0 || digit_value(text[0]) is None {
        0
    } else {
        1 + first_non_digit(text.drop_first())
    }
}

/// The byte that the two digits at `2 * i` and `2 * i + 1` stand for.
pub open spec fn byte_at(text: Seq<u8>, i: int) -> u8 {
    (digit_value(text[2 * i]).unwrap() * 16 + digit_value(text[2 * i + 1]).unwrap()) as u8
}

/// The bytes that a text of hexadecimal digits stands for, or the reason why
/// it stands for none: an odd length first, else the first byte that is no
/// digit.
pub open spec fn decoded(text: Seq<u8>) -> Result<Seq<u8>, HexError> {
    if text.len() % 2 != 0 {
        Err(HexError::OddLength)
    } else if !all_digits(text) {
        Err(
            HexError::InvalidHexCharacter {
                c: text[first_non_digit(text)] as char,
                index: first_non_digit(text) as usize,
            },
        )
    } else {
        Ok(Seq::new((text.len() / 2) as nat, |i: int| byte_at(text, i)))
    }
}

/// `hex::decode` on the bytes of a text. It accepts digits of both cases,
/// reports an odd length before it looks at any byte, and else the first
/// byte that is no digit, as a character, with its index.
#[verifier::external_body]
pub(crate) fn decode(text: &[u8]) -> (r: Result<Vec<u8>, HexError>)
    ensures
        match r {
            Ok(bytes) => decoded(text@) == Ok::<Seq<u8>, HexError>(bytes@),
            Err(e) => decoded(text@) == Err::<Seq<u8>, HexError>(e),
        },
{
    match hex::decode(text) {
        Ok(bytes) => Ok(bytes),
        Err(hex::FromHexError::InvalidHexCharacter { c, index }) => Err(
            HexError::InvalidHexCharacter { c, index },
        ),
        Err(hex::FromHexError::OddLength) => Err(HexError::OddLength),
        Err(hex::FromHexError::InvalidStringLength) => Err(HexError::InvalidStringLength),
    }
}

/// The sentence in which the `hex` crate words an error.
pub uninterp spec fn error_text(error: HexError) -> Seq<char>;

/// `Display` of `hex::FromHexError`, through `to_string`.
#[verifier::external_body]
pub(crate) fn describe(error: HexError) -> (text: String)
    ensures
        text@ == error_text(error),
{
    match error {
        HexError::InvalidHexCharacter { c, index } => hex::FromHexError::InvalidHexCharacter {
            c,
            index,
        },
        HexError::OddLength => hex::FromHexError::OddLength,
        HexError::InvalidStringLength => hex::FromHexError::InvalidStringLength,
    }.to_string()
}

/// Whether every byte of the text is a hexadecimal digit.
pub fn is_all_digits(text: &[u8]) -> (all: bool)
    ensures
        all == all_digits(text@),
{
    let mut i: usize = 0;
    while i < text.len()
        invariant
            i <= text.len(),
            forall|j: int| 0 <= j < i ==> (#[trigger] digit_value(text@[j])) is Some,
        decreases text.len() - i,
    {
        let byte: u8 = text[i];
        let digit = (0x30 <= byte && byte <= 0x39) || (0x41 <= byte && byte <= 0x46) || (0x61
            <= byte && byte <= 0x66);
        if !digit {
            assert(digit_value(text@[i as int]) is None);
            return false;
        }
        i += 1;
    }
    true
}

impl HexError {
    /// The error in words.
    pub fn message(&self) -> (text: String)
        ensures
            text@ == error_text(*self),
    {
        describe(*self)
    }
}

} // verus!
