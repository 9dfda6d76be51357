//! The cryptographic primitives, taken from their crates.
use vstd::prelude::*;
use aes_gcm::aead::Aead;
use aes_gcm::KeyInit;
use rand_chacha::rand_core::{RngCore, SeedableRng};

verus! {

#[verifier::external_type_specification]
#[verifier::external_body]
pub struct ExEphemeralSecret(x25519_dalek::EphemeralSecret);

#[verifier::external_type_specification]
#[verifier::external_body]
pub struct ExInvalidLength(hkdf::InvalidLength);

/// The 32 bytes of the X25519 public point of a secret scalar.
pub uninterp spec fn x25519_public_of(secret: x25519_dalek::EphemeralSecret) -> Seq<u8>;

/// The 32 bytes of the X25519 shared secret of a scalar and a peer's point.
pub uninterp spec fn x25519_shared_of(secret: x25519_dalek::EphemeralSecret, peer: Seq<u8>) -> Seq<u8>;

/// The 16 bytes that a ChaCha20 generator seeded with `seed` gives first.
pub uninterp spec fn chacha20_first16_of(seed: Seq<u8>) -> Seq<u8>;

/// The 32 bytes of HKDF-SHA256 output for a salt, input keying material
/// and an empty info string.
pub uninterp spec fn hkdf_sha256_of(salt: Seq<u8>, ikm: Seq<u8>) -> Seq<u8>;

/// AES-256-GCM ciphertext, with its 16-byte tag appended, of a plaintext
/// under a key and a nonce, with no associated data.
pub uninterp spec fn aes_gcm_seal_of(key: Seq<u8>, nonce: Seq<u8>, plain: Seq<u8>) -> Seq<u8>;

/// AES-256-GCM decryption of a ciphertext with its tag: `None` where the
/// tag does not verify.
pub uninterp spec fn aes_gcm_open_of(key: Seq<u8>, nonce: Seq<u8>, sealed: Seq<u8>) -> Option<Seq<u8>>;

/// The largest plaintext, in bytes, that AES-GCM accepts.
pub open spec fn aes_gcm_max_plain() -> int {
    0x10_0000_0000
}

/// Relies on `x25519_dalek::EphemeralSecret::random_from_rng` with
/// `rand::thread_rng`: a fresh secret scalar from the system generator.
#[verifier::external_body]
pub(crate) fn random_secret() -> (r: x25519_dalek::EphemeralSecret) {
    x25519_dalek::EphemeralSecret::random_from_rng(rand::thread_rng())
}

/// Relies on `x25519_dalek::PublicKey::from(&EphemeralSecret)`: the public
/// point of a secret, as its 32 bytes.
#[verifier::external_body]
pub(crate) fn public_point(secret: &x25519_dalek::EphemeralSecret) -> (r: [u8; 32])
    ensures
        r@ == x25519_public_of(*secret),
{
    x25519_dalek::PublicKey::from(secret).to_bytes()
}

/// Relies on `x25519_dalek::EphemeralSecret::diffie_hellman`: the shared
/// secret of our scalar and the peer's point, as 32 bytes. The scalar is
/// consumed. Key agreement, as the crate documents it: a peer whose point
/// we were given, using our point, computes the same shared secret.
#[verifier::external_body]
pub(crate) fn diffie_hellman(secret: x25519_dalek::EphemeralSecret, peer: &[u8; 32]) -> (r: [u8; 32])
    ensures
        r@ == x25519_shared_of(secret, peer@),
        forall|other: x25519_dalek::EphemeralSecret|
            peer@ == #[trigger] x25519_public_of(other)
                ==> r@ == x25519_shared_of(other, x25519_public_of(secret)),
{
    secret.diffie_hellman(&x25519_dalek::PublicKey::from(*peer)).to_bytes()
}

/// Relies on `rand_chacha::ChaCha20Rng::from_seed` and `fill_bytes`: the
/// first 16 bytes of the generator seeded with `seed`.
#[verifier::external_body]
pub(crate) fn chacha20_first16(seed: &[u8; 32]) -> (r: [u8; 16])
    ensures
        r@ == chacha20_first16_of(seed@),
{
    let mut out = [0u8; 16];
    rand_chacha::ChaCha20Rng::from_seed(*seed).fill_bytes(&mut out);
    out
}

/// Relies on `hkdf::Hkdf::<sha2::Sha256>::new(Some(salt), ikm)` and
/// `expand` with an empty info string into 32 bytes. `expand` fails only
/// for an output longer than 255 hash blocks, so it never fails here.
#[verifier::external_body]
pub(crate) fn hkdf_sha256_expand(salt: &[u8; 16], ikm: &[u8; 32]) -> (r: core::result::Result<[u8; 32], hkdf::InvalidLength>)
    ensures
        r is Ok,
        r matches Ok(k) ==> k@ == hkdf_sha256_of(salt@, ikm@),
{
    let mut okm = [0u8; 32];
    hkdf::Hkdf::<sha2::Sha256>::new(Some(salt), ikm).expand(&[], &mut okm)?;
    Ok(okm)
}

/// Relies on `aes_gcm::Aes256Gcm::encrypt` (through `aead::Aead`): it fails
/// only for a plaintext over 2^36 bytes, and appends a 16-byte tag.
/// Decryption under the same key and nonce recomputes the same tag and
/// keystream, so it gives the plaintext back. The tag is GHASH of the
/// ciphertext masked with AES of `nonce || 0^31 || 1`; AES is a
/// permutation, so under any other 12-byte nonce the tag differs and
/// decryption fails. Its error is a unit value, so it comes back as `None`.
#[verifier::external_body]
pub(crate) fn aes_gcm_encrypt(key: &[u8; 32], nonce: &[u8; 12], plain: &[u8]) -> (r: Option<Vec<u8>>)
    ensures
        plain@.len() <= aes_gcm_max_plain() <==> r is Some,
        r matches Some(c) ==> c@ == aes_gcm_seal_of(key@, nonce@, plain@)
            && c@.len() == plain@.len() + 16,
        r matches Some(c) ==> aes_gcm_open_of(key@, nonce@, c@) == Some(plain@),
        r matches Some(c) ==> forall|other: Seq<u8>|
            other.len() == 12 && other != nonce@ ==> #[trigger] aes_gcm_open_of(key@, other, c@)
                is None,
{
    let cipher = aes_gcm::Aes256Gcm::new(key.into());
    cipher.encrypt(nonce.into(), plain).ok()
}

/// Relies on `aes_gcm::Aes256Gcm::decrypt` (through `aead::Aead`): it
/// returns the plaintext only where the tag verifies, and a ciphertext
/// shorter than the tag never does. A plaintext that comes back was
/// checked against the tag over exactly this ciphertext, so encrypting it
/// again (where encryption accepts its length) gives the input back. Its
/// error is a unit value, so it comes back as `None`.
#[verifier::external_body]
pub(crate) fn aes_gcm_decrypt(key: &[u8; 32], nonce: &[u8; 12], sealed: &[u8]) -> (r: Option<Vec<u8>>)
    ensures
        match aes_gcm_open_of(key@, nonce@, sealed@) {
            Some(p) => r matches Some(v) && v@ == p && p.len() + 16 == sealed@.len()
                && (p.len() <= aes_gcm_max_plain() ==> aes_gcm_seal_of(key@, nonce@, p) == sealed@),
            None => r is None,
        },
{
    let cipher = aes_gcm::Aes256Gcm::new(key.into());
    cipher.decrypt(nonce.into(), sealed).ok()
}

} // verus!
