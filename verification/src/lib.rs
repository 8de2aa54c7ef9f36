//! Encrypted messaging between two datagram endpoints.
//!
//! Each message is encrypted and authenticated with AES-128-GCM under a
//! pre-shared key. On the wire a message is 28 bytes longer than its
//! plaintext: a 16-byte authentication tag and a 12-byte nonce follow the
//! ciphertext. Receive buffers must leave room for them.

pub mod address;
pub mod cipher;
pub mod crypto;
pub mod error;
pub mod hexadecimal;
pub mod key;
pub mod peer;
pub mod util;

pub use address::SocketAddress;
pub use crypto::Crypto;
pub use error::{CryptoError, InvalidKeyError};
pub use hexadecimal::HexError;
pub use key::Key;
pub use peer::Peer;
pub use util::{can_reconnect, can_retry, is_unspecified, to_unspecified, IoErrorKind};
