//! The two failures of the library's own.

use crate::hexadecimal::{error_text, HexError};
use vstd::prelude::*;
use vstd::std_specs::convert::FromSpecImpl;
use vstd::string::StringExecFns;

verus! {

/// Opaque error for encryption and decryption failures.
///
/// It says that the operation failed and nothing else: not whether the
/// input was too short, the tag did not match, or the cipher gave up. A
/// caller that could tell these apart would have an oracle.
#[derive(Debug, Clone, Copy, PartialEq, Eq, Structural, PartialOrd, Ord, Hash, Default)]
pub struct CryptoError;

impl CryptoError {
    /// The error in words.
    pub fn message(&self) -> (text: String)
        ensures
            text@ == "opaque crypto error"@,
    {
        String::from_str("opaque crypto error")
    }
}

impl From<aes_gcm::Error> for CryptoError {
    fn from(error: aes_gcm::Error) -> (e: CryptoError) {
        CryptoError
    }
}

impl FromSpecImpl<aes_gcm::Error> for CryptoError {
    open spec fn obeys_from_spec() -> bool {
        true
    }

    open spec fn from_spec(error: aes_gcm::Error) -> CryptoError {
        CryptoError
    }
}

/// Error returned when a key cannot be parsed or has an invalid format.
#[derive(Debug, Clone, Copy, PartialEq, Eq, Structural)]
pub enum InvalidKeyError {
    /// The key is not exactly 16 bytes long.
    InvalidLength,
    /// The text is not hexadecimal; the reason is kept.
    InvalidHex(HexError),
}

impl InvalidKeyError {
    /// What `message` returns.
    pub open spec fn text(self) -> Seq<char> {
        match self {
            InvalidKeyError::InvalidLength => "invalid key length"@,
            InvalidKeyError::InvalidHex(e) => "invalid key hex: "@ + error_text(e),
        }
    }

    /// The error in words.
    pub fn message(&self) -> (text: String)
        ensures
            text@ == self.text(),
    {
        match self {
            InvalidKeyError::InvalidLength => String::from_str("invalid key length"),
            InvalidKeyError::InvalidHex(e) => {
                let reason = e.message();
                String::from_str("invalid key hex: ").concat(reason.as_str())
            },
        }
    }
}

impl From<HexError> for InvalidKeyError {
    fn from(e: HexError) -> (error: InvalidKeyError) {
        InvalidKeyError::InvalidHex(e)
    }
}

impl FromSpecImpl<HexError> for InvalidKeyError {
    open spec fn obeys_from_spec() -> bool {
        true
    }

    open spec fn from_spec(e: HexError) -> InvalidKeyError {
        InvalidKeyError::InvalidHex(e)
    }
}

} // verus!
