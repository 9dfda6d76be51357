//! The channel core: the handshake as a state machine and the framing of
//! messages under the derived key. The caller owns the transport: it does
//! what each step asks and hands back what it read.
use vstd::prelude::*;
use crate::codec::{
    decrypt, encode_frame, encrypt, frame_bytes, header_length, lemma_frame_round_trip,
    make_nonce, nonce_for, parse_header,
};
use crate::errors::{Error, Result};
use crate::keys::{symmetric_key_of, Keys};
use crate::primitives::{aes_gcm_open_of, aes_gcm_seal_of, x25519_public_of, x25519_shared_of};

verus! {

/// Which side of the handshake a peer took.
#[derive(Clone, Copy, Debug, PartialEq, Eq, Structural)]
pub enum Role {
    /// Sent its public key first.
    Initiator,
    /// Read the peer's public key first.
    Responder,
}

/// The byte that opens every nonce that a peer of this role sends.
pub open spec fn role_byte(role: Role) -> u8 {
    match role {
        Role::Initiator => 1u8,
        Role::Responder => 2u8,
    }
}

fn role_byte_exec(role: Role) -> (r: u8)
    ensures
        r == role_byte(role),
{
    match role {
        Role::Initiator => 1u8,
        Role::Responder => 2u8,
    }
}

/// The longest ciphertext, tag included, that a reader accepts. The
/// 4-byte length field can announce up to 2^32 - 1 bytes; a reader refuses
/// more than this before it allocates or reads the body, so that a hostile
/// peer cannot make it take memory at will.
pub const MAX_FRAME_LEN: usize = 0x100_0000;

/// The longest message that fits one frame: its ciphertext, tag included,
/// must fit the 4-byte length field.
pub open spec fn max_message_len() -> int {
    u32::MAX - 16
}

/// What the transport must do next during a handshake.
#[derive(Debug, Clone, Copy)]
pub enum HandshakeAction {
    /// Write these 32 bytes, then call `public_key_sent`.
    SendPublicKey([u8; 32]),
    /// Read exactly 32 bytes, then hand them to `peer_key_received`.
    ReceivePeerKey,
    /// Nothing is left: call `finish`.
    Complete,
}

/// The step that a handshake in this state asks for. A responder reads
/// before it writes; an initiator writes before it reads.
pub open spec fn next_step(role: Role, sent: bool, received: bool) -> int {
    match role {
        Role::Responder => if !received { 1 } else if !sent { 0 } else { 2 },
        Role::Initiator => if !sent { 0 } else if !received { 1 } else { 2 },
    }
}

/// The step that an action stands for: send, receive, complete.
pub open spec fn action_step(a: HandshakeAction) -> int {
    match a {
        HandshakeAction::SendPublicKey(_) => 0,
        HandshakeAction::ReceivePeerKey => 1,
        HandshakeAction::Complete => 2,
    }
}

/// One side of a handshake in progress.
pub struct Handshake {
    role: Role,
    keys: Keys,
    sent: bool,
    peer: Option<[u8; 32]>,
}

impl Handshake {
    pub closed spec fn role(&self) -> Role {
        self.role
    }

    /// Our public key has been written.
    pub closed spec fn sent(&self) -> bool {
        self.sent
    }

    /// The peer's public key, once read.
    pub closed spec fn peer(&self) -> Option<[u8; 32]> {
        self.peer
    }

    /// Our public key.
    pub closed spec fn public(&self) -> [u8; 32] {
        self.keys.public_key()
    }

    /// Our secret scalar.
    pub closed spec fn secret(&self) -> x25519_dalek::EphemeralSecret {
        self.keys.secret_key()
    }

    fn start(role: Role) -> (r: Handshake)
        ensures
            r.public()@ == x25519_public_of(r.secret()),
            r.role() == role,
            !r.sent(),
            r.peer() is None,
    {
        Handshake { role, keys: Keys::generate_keys(), sent: false, peer: None }
    }

    /// Starts the side that waits for the peer's key.
    pub fn respond() -> (r: Handshake)
        ensures
            r.public()@ == x25519_public_of(r.secret()),
            r.role() == Role::Responder,
            !r.sent(),
            r.peer() is None,
    {
        Handshake::start(Role::Responder)
    }

    /// Starts the side that sends its key first.
    pub fn initiate() -> (r: Handshake)
        ensures
            r.public()@ == x25519_public_of(r.secret()),
            r.role() == Role::Initiator,
            !r.sent(),
            r.peer() is None,
    {
        Handshake::start(Role::Initiator)
    }

    /// What the transport must do next.
    pub fn next_action(&self) -> (r: HandshakeAction)
        ensures
            action_step(r) == next_step(self.role(), self.sent(), self.peer() is Some),
            r matches HandshakeAction::SendPublicKey(k) ==> k == self.public(),
    {
        let received = self.peer.is_some();
        match self.role {
            Role::Responder => {
                if !received {
                    HandshakeAction::ReceivePeerKey
                } else if !self.sent {
                    HandshakeAction::SendPublicKey(self.keys.get_public_key_bytes())
                } else {
                    HandshakeAction::Complete
                }
            },
            Role::Initiator => {
                if !self.sent {
                    HandshakeAction::SendPublicKey(self.keys.get_public_key_bytes())
                } else if !received {
                    HandshakeAction::ReceivePeerKey
                } else {
                    HandshakeAction::Complete
                }
            },
        }
    }

    /// Records that our public key has been written.
    pub fn public_key_sent(&mut self)
        ensures
            final(self).sent(),
            final(self).role() == old(self).role(),
            final(self).peer() == old(self).peer(),
            final(self).public() == old(self).public(),
            final(self).secret() == old(self).secret(),
    {
        self.sent = true;
    }

    /// Records the 32 bytes read from the peer as its public key.
    pub fn peer_key_received(&mut self, key: [u8; 32])
        ensures
            final(self).peer() == Some(key),
            final(self).role() == old(self).role(),
            final(self).sent() == old(self).sent(),
            final(self).public() == old(self).public(),
            final(self).secret() == old(self).secret(),
    {
        self.peer = Some(key);
    }

    /// Derives the key and opens the channel, consuming the key pair. Fails
    /// where a step is still owed.
    pub fn finish(self) -> (r: Result<Channel>)
        ensures
            (self.sent() && self.peer() is Some) <==> r is Ok,
            r matches Ok(c) ==> c.role() == self.role() && c.sent_count() == 0,
            r matches Ok(c) ==> c.key() == symmetric_key_of(
                x25519_shared_of(self.secret(), self.peer().unwrap()@),
            ),
            forall|other: x25519_dalek::EphemeralSecret|
                (self.sent() && self.peer() is Some && self.peer().unwrap()@ == #[trigger] x25519_public_of(other))
                    ==> (r matches Ok(c) && c.key() == symmetric_key_of(
                    x25519_shared_of(other, x25519_public_of(self.secret())),
                )),
            r matches Err(e) ==> e is Other,
    {
        if !self.sent {
            return Err(Error::Other("handshake incomplete: public key not sent".to_string()));
        }
        match self.peer {
            None => Err(Error::Other("handshake incomplete: peer key not received".to_string())),
            Some(peer) => {
                match self.keys.generate_encryption_key(&peer) {
                    Ok(key) => Ok(Channel::new(key, self.role)),
                    Err(e) => Err(e),
                }
            },
        }
    }
}

/// An open channel: the key shared with the peer, our role, and how many
/// frames we have sent.
pub struct Channel {
    key: [u8; 32],
    role: Role,
    sent: u64,
}

impl Channel {
    /// The channel key.
    pub closed spec fn key(&self) -> Seq<u8> {
        self.key@
    }

    pub closed spec fn role(&self) -> Role {
        self.role
    }

    /// Frames sent so far.
    pub closed spec fn sent_count(&self) -> u64 {
        self.sent
    }

    /// A channel over `key`, with no frame sent yet.
    pub fn new(key: [u8; 32], role: Role) -> (r: Channel)
        ensures
            r.key() == key@,
            r.role() == role,
            r.sent_count() == 0,
    {
        Channel { key, role, sent: 0 }
    }

    /// Encrypts `data` into the next frame, whose bytes are to be written to
    /// the transport whole and then flushed. Fails, and changes nothing,
    /// where the message does not fit a frame or the frame counter is spent.
    pub fn write_frame(&mut self, data: &[u8]) -> (r: Result<Vec<u8>>)
        ensures
            final(self).key() == old(self).key(),
            final(self).role() == old(self).role(),
            (data@.len() <= max_message_len() && old(self).sent_count() < u64::MAX) <==> r is Ok,
            r is Ok ==> final(self).sent_count() == old(self).sent_count() + 1,
            r is Err ==> final(self).sent_count() == old(self).sent_count(),
            r matches Ok(f) ==> f@.len() == data@.len() + 32
                && header_length(f@.subrange(0, 16)) == data@.len() + 16
                && aes_gcm_open_of(old(self).key(), f@.subrange(0, 12), f@.subrange(16, f@.len() as int))
                == Some(data@),
            r matches Ok(f) ==> f@ == frame_bytes(
                nonce_for(role_byte(old(self).role()), old(self).sent_count()),
                aes_gcm_seal_of(
                    old(self).key(),
                    nonce_for(role_byte(old(self).role()), old(self).sent_count()),
                    data@,
                ),
            ),
            r matches Err(e) ==> e is Other,
    {
        if data.len() > (u32::MAX - 16) as usize {
            return Err(Error::Other("message too long for one frame".to_string()));
        }
        if self.sent == u64::MAX {
            return Err(Error::Other("frame counter exhausted".to_string()));
        }
        let nonce = make_nonce(role_byte_exec(self.role), self.sent);
        let sealed = match encrypt(&self.key, &nonce, data) {
            Ok(c) => c,
            Err(e) => return Err(e),
        };
        match encode_frame(&nonce, &sealed) {
            Some(f) => {
                proof {
                    lemma_frame_round_trip(nonce@, sealed@);
                    assert(f@.subrange(16, f@.len() as int) == sealed@);
                }
                self.sent = self.sent + 1;
                Ok(f)
            },
            None => Err(Error::Other("message too long for one frame".to_string())),
        }
    }

    /// The number of ciphertext bytes that follow a frame header.
    pub fn body_length(header: &[u8; 16]) -> (r: usize)
        ensures
            r == header_length(header@),
    {
        parse_header(header).1
    }

    /// The number of ciphertext bytes that follow a frame header, refused
    /// above `MAX_FRAME_LEN` so that a reader neither allocates nor reads
    /// what a hostile peer announces.
    pub fn checked_body_length(header: &[u8; 16]) -> (r: Result<usize>)
        ensures
            header_length(header@) <= MAX_FRAME_LEN ==> r == Ok::<usize, Error>(
                header_length(header@) as usize,
            ),
            header_length(header@) > MAX_FRAME_LEN ==> (r matches Err(e) && e is Other),
    {
        let n = parse_header(header).1;
        if n > MAX_FRAME_LEN {
            Err(Error::Other("frame length over the ceiling".to_string()))
        } else {
            Ok(n)
        }
    }

    /// Decrypts the frame made of `header` and the `body` read after it.
    pub fn read_frame(&self, header: &[u8; 16], body: &[u8]) -> (r: Result<Vec<u8>>)
        ensures
            match aes_gcm_open_of(self.key(), header@.subrange(0, 12), body@) {
                Some(p) => r matches Ok(v) && v@ == p && p.len() + 16 == body@.len(),
                None => r == Err::<Vec<u8>, Error>(Error::CryptError),
            },
    {
        let (nonce, _) = parse_header(header);
        decrypt(&self.key, body, &nonce)
    }
}

/// A frame that a writer sends, read by a peer that holds the same key,
/// hands decryption exactly the writer's nonce and ciphertext: the peer
/// reads the message back as far as AES-GCM opens what it sealed.
pub proof fn lemma_write_then_read(key: Seq<u8>, role: Role, counter: u64, message: Seq<u8>)
    requires
        aes_gcm_seal_of(key, nonce_for(role_byte(role), counter), message).len() <= u32::MAX,
    ensures
        ({
            let nonce = nonce_for(role_byte(role), counter);
            let frame = frame_bytes(nonce, aes_gcm_seal_of(key, nonce, message));
            let header = frame.subrange(0, 16);
            let body = frame.subrange(16, 16 + header_length(header));
            body.len() + 16 == frame.len() && aes_gcm_open_of(key, header.subrange(0, 12), body)
                == aes_gcm_open_of(key, nonce, aes_gcm_seal_of(key, nonce, message))
        }),
{
    let nonce = nonce_for(role_byte(role), counter);
    let sealed = aes_gcm_seal_of(key, nonce, message);
    lemma_frame_round_trip(nonce, sealed);
    let frame = frame_bytes(nonce, sealed);
    assert(frame.subrange(0, 16).subrange(0, 12) =~= frame.subrange(0, 12));
}

/// Copies a decrypted message to the front of `slice`. Where it does not
/// fit, fails with `Capacity` and leaves `slice` as it was.
pub fn deliver_to_slice(data: &[u8], slice: &mut [u8]) -> (r: Result<()>)
    ensures
        data@.len() <= old(slice)@.len() <==> r is Ok,
        r is Err ==> r == Err::<(), Error>(Error::Capacity) && final(slice)@ == old(slice)@,
        r is Ok ==> final(slice)@ == data@ + old(slice)@.subrange(
            data@.len() as int,
            old(slice)@.len() as int,
        ),
{
    if data.len() > slice.len() {
        return Err(Error::Capacity);
    }
    let ghost before = slice@;
    let mut i: usize = 0;
    while i < data.len()
        invariant
            i <= data@.len() <= slice@.len(),
            slice@.len() == before.len(),
            forall|k: int| 0 <= k < i ==> slice@[k] == data@[k],
            forall|k: int| i <= k < slice@.len() ==> slice@[k] == before[k],
        decreases data@.len() - i,
    {
        slice[i] = data[i];
        i = i + 1;
    }
    assert(slice@ =~= data@ + before.subrange(data@.len() as int, before.len() as int));
    Ok(())
}

/// Appends a decrypted message to `buf`, keeping what it held.
pub fn deliver_to_buf(data: &[u8], buf: &mut Vec<u8>)
    ensures
        final(buf)@ == old(buf)@ + data@,
{
    let ghost before = buf@;
    let mut i: usize = 0;
    while i < data.len()
        invariant
            i <= data@.len(),
            buf@ == before + data@.subrange(0, i as int),
        decreases data@.len() - i,
    {
        buf.push(data[i]);
        i = i + 1;
        assert(buf@ =~= before + data@.subrange(0, i as int));
    }
    assert(data@.subrange(0, data@.len() as int) =~= data@);
}

} // verus!
