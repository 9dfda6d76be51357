//! Authenticated encryption of one message and the frame that carries it.
//!
//! A frame is `nonce (12 bytes) || length (4 bytes, big-endian) || ciphertext`,
//! where the ciphertext ends with the 16-byte AES-GCM tag.
//!
//! Nonce policy: the nonce of a frame is the sender's role byte, three zero
//! bytes, then the sender's frame counter as 8 big-endian bytes. The two
//! peers of a channel have different role bytes and each counts its own
//! frames from zero, so no nonce is used twice under one key. The reader
//! takes the nonce from the frame and enforces no order.
use vstd::prelude::*;
use crate::errors::{Error, Result};
use crate::primitives::{
    aes_gcm_decrypt, aes_gcm_encrypt, aes_gcm_max_plain, aes_gcm_open_of, aes_gcm_seal_of,
};

verus! {

/// Bytes of a nonce.
pub const NONCE_LEN: usize = 12;

/// The 4 big-endian bytes of `n`.
pub open spec fn be32(n: u32) -> Seq<u8> {
    seq![(n >> 24u32) as u8, (n >> 16u32) as u8, (n >> 8u32) as u8, n as u8]
}

/// The number that 4 big-endian bytes stand for.
pub open spec fn be32_value(b: Seq<u8>) -> int {
    b[0] * 0x100_0000 + b[1] * 0x1_0000 + b[2] * 0x100 + b[3]
}

/// The 8 big-endian bytes of `n`.
pub open spec fn be64(n: u64) -> Seq<u8> {
    seq![
        (n >> 56u64) as u8, (n >> 48u64) as u8, (n >> 40u64) as u8, (n >> 32u64) as u8,
        (n >> 24u64) as u8, (n >> 16u64) as u8, (n >> 8u64) as u8, n as u8,
    ]
}

/// The nonce of the frame numbered `counter` from the sender with role
/// byte `role`.
pub open spec fn nonce_for(role: u8, counter: u64) -> Seq<u8> {
    seq![role, 0u8, 0u8, 0u8] + be64(counter)
}

/// The bytes of a frame that carries `sealed` under `nonce`.
pub open spec fn frame_bytes(nonce: Seq<u8>, sealed: Seq<u8>) -> Seq<u8>
    recommends
        sealed.len() <= u32::MAX,
{
    nonce + be32(sealed.len() as u32) + sealed
}

/// The length that a frame header announces.
pub open spec fn header_length(header: Seq<u8>) -> int {
    be32_value(header.subrange(12, 16))
}

proof fn lemma_be32_value(n: u32)
    ensures
        be32_value(be32(n)) == n,
{
    let b0 = (n >> 24u32) as u8;
    let b1 = (n >> 16u32) as u8;
    let b2 = (n >> 8u32) as u8;
    let b3 = n as u8;
    assert(b0 as u32 * 0x100_0000u32 + b1 as u32 * 0x1_0000u32 + b2 as u32 * 0x100u32 + b3 as u32 == n)
        by (bit_vector)
        requires
            b0 == (n >> 24u32) as u8,
            b1 == (n >> 16u32) as u8,
            b2 == (n >> 8u32) as u8,
            b3 == n as u8,
    ;
}

proof fn lemma_be64_injective(a: u64, b: u64)
    requires
        be64(a) == be64(b),
    ensures
        a == b,
{
    let sa = be64(a);
    let sb = be64(b);
    assert(sa[0] == sb[0] && sa[1] == sb[1] && sa[2] == sb[2] && sa[3] == sb[3]);
    assert(sa[4] == sb[4] && sa[5] == sb[5] && sa[6] == sb[6] && sa[7] == sb[7]);
    assert(a == b) by (bit_vector)
        requires
            (a >> 56u64) as u8 == (b >> 56u64) as u8,
            (a >> 48u64) as u8 == (b >> 48u64) as u8,
            (a >> 40u64) as u8 == (b >> 40u64) as u8,
            (a >> 32u64) as u8 == (b >> 32u64) as u8,
            (a >> 24u64) as u8 == (b >> 24u64) as u8,
            (a >> 16u64) as u8 == (b >> 16u64) as u8,
            (a >> 8u64) as u8 == (b >> 8u64) as u8,
            a as u8 == b as u8,
    ;
}

/// Two frames whose senders differ in role byte or in frame counter carry
/// different nonces.
pub proof fn lemma_nonces_unique(role1: u8, counter1: u64, role2: u8, counter2: u64)
    requires
        role1 != role2 || counter1 != counter2,
    ensures
        nonce_for(role1, counter1) != nonce_for(role2, counter2),
{
    if nonce_for(role1, counter1) == nonce_for(role2, counter2) {
        assert(nonce_for(role1, counter1)[0] == role1);
        assert(nonce_for(role2, counter2)[0] == role2);
        assert(be64(counter1) =~= nonce_for(role1, counter1).subrange(4, 12));
        assert(be64(counter2) =~= nonce_for(role2, counter2).subrange(4, 12));
        lemma_be64_injective(counter1, counter2);
    }
}

/// A frame's header gives back the nonce and the length of the ciphertext
/// that it was built from, and the ciphertext follows the header.
pub proof fn lemma_frame_round_trip(nonce: Seq<u8>, sealed: Seq<u8>)
    requires
        nonce.len() == NONCE_LEN,
        sealed.len() <= u32::MAX,
    ensures
        frame_bytes(nonce, sealed).subrange(0, 12) == nonce,
        header_length(frame_bytes(nonce, sealed).subrange(0, 16)) == sealed.len(),
        frame_bytes(nonce, sealed).subrange(16, 16 + sealed.len() as int) == sealed,
        frame_bytes(nonce, sealed).len() == 16 + sealed.len(),
{
    let f = frame_bytes(nonce, sealed);
    assert(f.subrange(0, 12) =~= nonce);
    assert(f.subrange(0, 16).subrange(12, 16) =~= be32(sealed.len() as u32));
    lemma_be32_value(sealed.len() as u32);
    assert(f.subrange(16, 16 + sealed.len() as int) =~= sealed);
}

/// The nonce of the frame numbered `counter` from the sender with role
/// byte `role`.
pub fn make_nonce(role: u8, counter: u64) -> (r: [u8; 12])
    ensures
        r@ == nonce_for(role, counter),
{
    let r: [u8; 12] = [
        role, 0, 0, 0,
        (counter >> 56u64) as u8, (counter >> 48u64) as u8, (counter >> 40u64) as u8,
        (counter >> 32u64) as u8, (counter >> 24u64) as u8, (counter >> 16u64) as u8,
        (counter >> 8u64) as u8, counter as u8,
    ];
    assert(r@ =~= nonce_for(role, counter));
    r
}

/// Encrypts `data` under `key` and `nonce`, with no associated data.
pub fn encrypt(key: &[u8; 32], nonce: &[u8; 12], data: &[u8]) -> (r: Result<Vec<u8>>)
    ensures
        data@.len() <= aes_gcm_max_plain() ==> (r matches Ok(c)
            && c@ == aes_gcm_seal_of(key@, nonce@, data@) && c@.len() == data@.len() + 16
            && aes_gcm_open_of(key@, nonce@, c@) == Some(data@)
            && forall|other: Seq<u8>|
                other.len() == 12 && other != nonce@ ==> #[trigger] aes_gcm_open_of(key@, other, c@)
                    is None),
        data@.len() > aes_gcm_max_plain() ==> r == Err::<Vec<u8>, Error>(Error::CryptError),
{
    match aes_gcm_encrypt(key, nonce, data) {
        Some(c) => Ok(c),
        None => Err(Error::CryptError),
    }
}

/// Decrypts and authenticates `sealed` under `key` and `nonce`. Any failure
/// is the one opaque `CryptError`, and no part of the plaintext leaves.
pub fn decrypt(key: &[u8; 32], sealed: &[u8], nonce: &[u8; 12]) -> (r: Result<Vec<u8>>)
    ensures
        match aes_gcm_open_of(key@, nonce@, sealed@) {
            Some(p) => r matches Ok(v) && v@ == p && p.len() + 16 == sealed@.len()
                && (p.len() <= aes_gcm_max_plain() ==> aes_gcm_seal_of(key@, nonce@, p) == sealed@),
            None => r == Err::<Vec<u8>, Error>(Error::CryptError),
        },
{
    match aes_gcm_decrypt(key, nonce, sealed) {
        Some(v) => Ok(v),
        None => Err(Error::CryptError),
    }
}

/// The frame that carries `sealed` under `nonce`; `None` where the
/// ciphertext is too long for the 4-byte length field.
pub fn encode_frame(nonce: &[u8; 12], sealed: &[u8]) -> (r: Option<Vec<u8>>)
    ensures
        sealed@.len() <= u32::MAX <==> r is Some,
        r matches Some(f) ==> f@ == frame_bytes(nonce@, sealed@),
{
    if sealed.len() > u32::MAX as usize {
        return None;
    }
    let n: u32 = sealed.len() as u32;
    let mut out: Vec<u8> = Vec::new();
    let mut i: usize = 0;
    while i < NONCE_LEN
        invariant
            i <= NONCE_LEN,
            out@ == nonce@.subrange(0, i as int),
        decreases NONCE_LEN - i,
    {
        out.push(nonce[i]);
        i = i + 1;
        assert(out@ =~= nonce@.subrange(0, i as int));
    }
    out.push((n >> 24u32) as u8);
    out.push((n >> 16u32) as u8);
    out.push((n >> 8u32) as u8);
    out.push(n as u8);
    assert(out@ =~= nonce@ + be32(n));
    let ghost head = out@;
    let mut j: usize = 0;
    while j < sealed.len()
        invariant
            j <= sealed@.len(),
            out@ == head + sealed@.subrange(0, j as int),
        decreases sealed@.len() - j,
    {
        out.push(sealed[j]);
        j = j + 1;
        assert(out@ =~= head + sealed@.subrange(0, j as int));
    }
    assert(sealed@.subrange(0, sealed@.len() as int) =~= sealed@);
    Some(out)
}

/// Splits a frame header into its nonce and the ciphertext length that it
/// announces.
pub fn parse_header(header: &[u8; 16]) -> (r: ([u8; 12], usize))
    ensures
        r.0@ == header@.subrange(0, 12),
        r.1 == header_length(header@),
{
    let mut nonce: [u8; 12] = [0u8; 12];
    let mut i: usize = 0;
    while i < NONCE_LEN
        invariant
            i <= NONCE_LEN,
            forall|k: int| 0 <= k < i ==> nonce@[k] == header@[k],
        decreases NONCE_LEN - i,
    {
        nonce[i] = header[i];
        i = i + 1;
    }
    assert(nonce@ =~= header@.subrange(0, 12));
    let n: u32 = (header[12] as u32) * 0x100_0000 + (header[13] as u32) * 0x1_0000
        + (header[14] as u32) * 0x100 + header[15] as u32;
    (nonce, n as usize)
}

} // verus!
