//! Encrypted peer-to-peer channel: an ephemeral X25519 handshake, a key
//! derived with HKDF-SHA256, and AES-256-GCM records framed as
//! `nonce (12 bytes) || length (4 bytes, big-endian) || ciphertext`.
//!
//! The library holds no transport. It states what goes on the wire and what
//! comes back from it; the caller moves the bytes.
mod errors;
mod primitives;
pub mod codec;
pub mod keys;
pub mod channel;

pub use errors::{Error, Result};
pub use keys::Keys;
