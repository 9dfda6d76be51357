//! Ephemeral X25519 key pairs and the derivation of the channel key.
use vstd::prelude::*;
use crate::errors::{Error, Result};
use crate::primitives::{
    chacha20_first16, chacha20_first16_of, diffie_hellman, hkdf_sha256_expand, hkdf_sha256_of,
    public_point, random_secret, x25519_public_of, x25519_shared_of,
};

verus! {

/// The channel key that a shared secret gives: HKDF-SHA256 over the
/// secret, salted with the first 16 bytes of a ChaCha20 generator seeded
/// with the same secret, with no info string.
pub open spec fn symmetric_key_of(shared: Seq<u8>) -> Seq<u8> {
    hkdf_sha256_of(chacha20_first16_of(shared), shared)
}

/// An ephemeral key pair for one handshake. The secret scalar is consumed
/// when the channel key is derived.
pub struct Keys {
    secret: x25519_dalek::EphemeralSecret,
    public: [u8; 32],
}

/// Derives the channel key from a Diffie-Hellman shared secret.
pub fn derive_symmetric_key(shared: &[u8; 32]) -> (r: Result<[u8; 32]>)
    ensures
        r matches Ok(k) && k@ == symmetric_key_of(shared@),
{
    let salt = chacha20_first16(shared);
    match hkdf_sha256_expand(&salt, shared) {
        Ok(k) => Ok(k),
        Err(_) => Err(Error::KDFError),
    }
}

impl Keys {
    /// The public point, as 32 bytes.
    pub closed spec fn public_key(&self) -> [u8; 32] {
        self.public
    }

    /// The secret scalar.
    pub closed spec fn secret_key(&self) -> x25519_dalek::EphemeralSecret {
        self.secret
    }

    /// A fresh key pair from the system's secure generator: the public
    /// point is the one of the secret scalar.
    pub fn generate_keys() -> (r: Keys)
        ensures
            r.public_key()@ == x25519_public_of(r.secret_key()),
    {
        let secret = random_secret();
        let public = public_point(&secret);
        Keys { secret, public }
    }

    /// Consumes the pair and derives the channel key against the peer's
    /// public point. Never fails with a 32-byte key.
    pub fn generate_encryption_key(self, their_public: &[u8; 32]) -> (r: Result<[u8; 32]>)
        ensures
            r is Ok,
            r matches Ok(k) ==> k@ == symmetric_key_of(
                x25519_shared_of(self.secret_key(), their_public@),
            ),
            forall|other: x25519_dalek::EphemeralSecret|
                their_public@ == #[trigger] x25519_public_of(other) ==> (r matches Ok(k) && k@
                    == symmetric_key_of(x25519_shared_of(other, x25519_public_of(self.secret_key())))),
    {
        let shared = diffie_hellman(self.secret, their_public);
        derive_symmetric_key(&shared)
    }

    /// The 32 bytes of the public point.
    pub fn get_public_key_bytes(&self) -> (r: [u8; 32])
        ensures
            r == self.public_key(),
    {
        self.public
    }
}

} // verus!
