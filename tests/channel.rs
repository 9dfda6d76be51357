use p2ps::channel::{
    deliver_to_buf, deliver_to_slice, Channel, Handshake, HandshakeAction, Role, MAX_FRAME_LEN,
};
use p2ps::codec::{decrypt, encode_frame, encrypt, make_nonce, parse_header};
use p2ps::keys::{derive_symmetric_key, Keys};
use p2ps::Error;

/// Moves one handshake step of `hs`, reading from `inbox` and writing to
/// `outbox`. Returns whether the handshake is complete.
fn step(hs: &mut Handshake, inbox: &mut Vec<u8>, outbox: &mut Vec<u8>) -> bool {
    match hs.next_action() {
        HandshakeAction::SendPublicKey(k) => {
            outbox.extend_from_slice(&k);
            hs.public_key_sent();
            false
        }
        HandshakeAction::ReceivePeerKey => {
            if inbox.len() >= 32 {
                let mut k = [0u8; 32];
                k.copy_from_slice(&inbox[..32]);
                inbox.drain(..32);
                hs.peer_key_received(k);
            }
            false
        }
        HandshakeAction::Complete => true,
    }
}

/// Runs a responder and an initiator against each other over two byte
/// queues and returns (responder, initiator).
fn connect() -> (Channel, Channel) {
    let mut a = Handshake::respond();
    let mut b = Handshake::initiate();
    let mut a_to_b: Vec<u8> = Vec::new();
    let mut b_to_a: Vec<u8> = Vec::new();
    let mut rounds = 0;
    loop {
        let a_done = step(&mut a, &mut b_to_a, &mut a_to_b);
        let b_done = step(&mut b, &mut a_to_b, &mut b_to_a);
        if a_done && b_done {
            break;
        }
        rounds += 1;
        assert!(rounds < 10, "handshake did not complete");
    }
    (a.finish().unwrap(), b.finish().unwrap())
}

/// Reads one frame off the front of `wire` as a reader does.
fn read_one(ch: &Channel, wire: &mut Vec<u8>) -> Result<Vec<u8>, Error> {
    let mut header = [0u8; 16];
    header.copy_from_slice(&wire[..16]);
    let len = Channel::body_length(&header);
    let body: Vec<u8> = wire[16..16 + len].to_vec();
    wire.drain(..16 + len);
    ch.read_frame(&header, &body)
}

#[test]
fn handshake_symmetry() {
    let a = Keys::generate_keys();
    let b = Keys::generate_keys();
    let a_pub = a.get_public_key_bytes();
    let b_pub = b.get_public_key_bytes();
    assert_ne!(a_pub, b_pub);
    let ka = a.generate_encryption_key(&b_pub).unwrap();
    let kb = b.generate_encryption_key(&a_pub).unwrap();
    assert_eq!(ka, kb);
}

#[test]
fn key_derivation_is_deterministic_and_mixes() {
    let shared = [7u8; 32];
    let k1 = derive_symmetric_key(&shared).unwrap();
    let k2 = derive_symmetric_key(&shared).unwrap();
    assert_eq!(k1, k2);
    assert_ne!(k1, shared);
    let k3 = derive_symmetric_key(&[8u8; 32]).unwrap();
    assert_ne!(k1, k3);
}

#[test]
fn aead_round_trip() {
    let key = [3u8; 32];
    let nonce = make_nonce(1, 0);
    for m in [Vec::new(), vec![42u8], vec![0xabu8; 70000]] {
        let c = encrypt(&key, &nonce, &m).unwrap();
        assert_eq!(c.len(), m.len() + 16);
        if !m.is_empty() {
            assert_ne!(&c[..m.len()], &m[..]);
        }
        assert_eq!(decrypt(&key, &c, &nonce).unwrap(), m);
    }
}

#[test]
fn aead_tamper_detection() {
    let key = [9u8; 32];
    let nonce = make_nonce(2, 5);
    let m = b"attack at dawn".to_vec();
    let c = encrypt(&key, &nonce, &m).unwrap();
    for i in 0..c.len() {
        for bit in 0..8 {
            let mut t = c.clone();
            t[i] ^= 1 << bit;
            assert_eq!(decrypt(&key, &t, &nonce), Err(Error::CryptError));
        }
    }
    for i in 0..12 {
        let mut n = nonce;
        n[i] ^= 0x01;
        assert_eq!(decrypt(&key, &c, &n), Err(Error::CryptError));
    }
    assert_eq!(decrypt(&[1u8; 32], &c, &nonce), Err(Error::CryptError));
    assert_eq!(decrypt(&key, &c[..10], &nonce), Err(Error::CryptError));
}

#[test]
fn nonce_layout() {
    let n = make_nonce(2, 0x0102030405060708);
    assert_eq!(n, [2, 0, 0, 0, 1, 2, 3, 4, 5, 6, 7, 8]);
    assert_ne!(make_nonce(1, 0), make_nonce(2, 0));
    assert_ne!(make_nonce(1, 0), make_nonce(1, 1));
}

#[test]
fn frame_layout() {
    let nonce = [0x11u8; 12];
    let f = encode_frame(&nonce, &[0xaa, 0xbb, 0xcc]).unwrap();
    let mut expected = vec![0x11u8; 12];
    expected.extend_from_slice(&[0, 0, 0, 3, 0xaa, 0xbb, 0xcc]);
    assert_eq!(f, expected);
    let mut header = [0u8; 16];
    header.copy_from_slice(&f[..16]);
    assert_eq!(parse_header(&header), (nonce, 3));
    let mut big = [0u8; 16];
    big[12..].copy_from_slice(&[0x01, 0x02, 0x03, 0x04]);
    assert_eq!(Channel::body_length(&big), 0x01020304);
}

#[test]
fn frame_round_trip_over_loopback() {
    let (mut a, mut b) = connect();
    let mut wire: Vec<u8> = Vec::new();
    for m in [Vec::new(), vec![1u8], (0..70000u32).map(|i| i as u8).collect::<Vec<u8>>()] {
        let f = b.write_frame(&m).unwrap();
        assert_eq!(f.len(), 16 + m.len() + 16);
        wire.extend_from_slice(&f);
        assert_eq!(read_one(&a, &mut wire).unwrap(), m);
        let f = a.write_frame(&m).unwrap();
        wire.extend_from_slice(&f);
        assert_eq!(read_one(&b, &mut wire).unwrap(), m);
    }
    assert!(wire.is_empty());
}

#[test]
fn frames_carry_distinct_nonces() {
    let (mut a, mut b) = connect();
    let f1 = b.write_frame(b"same").unwrap();
    let f2 = b.write_frame(b"same").unwrap();
    let f3 = a.write_frame(b"same").unwrap();
    assert_eq!(&f1[..12], &[1, 0, 0, 0, 0, 0, 0, 0, 0, 0, 0, 0]);
    assert_eq!(&f2[..12], &[1, 0, 0, 0, 0, 0, 0, 0, 0, 0, 0, 1]);
    assert_eq!(&f3[..12], &[2, 0, 0, 0, 0, 0, 0, 0, 0, 0, 0, 0]);
    assert_ne!(f1[16..], f2[16..]);
}

#[test]
fn tampered_frame_is_rejected() {
    let (a, mut b) = connect();
    let mut wire = b.write_frame(b"Hello there!").unwrap();
    wire[20] ^= 0x80;
    assert_eq!(read_one(&a, &mut wire), Err(Error::CryptError));
}

#[test]
fn frame_under_another_key_is_rejected() {
    let (_a, mut b) = connect();
    let (c, _d) = connect();
    let mut wire = b.write_frame(b"Hello there!").unwrap();
    assert_eq!(read_one(&c, &mut wire), Err(Error::CryptError));
}

#[test]
fn end_to_end_hello() {
    let (a, mut b) = connect();
    let mut wire = b.write_frame(b"Hello there!").unwrap();
    assert_eq!(read_one(&a, &mut wire).unwrap(), b"Hello there!");
}

#[test]
fn slice_read_capacity() {
    let mut slice = [0x55u8; 4];
    assert_eq!(deliver_to_slice(b"Hello there!", &mut slice), Err(Error::Capacity));
    assert_eq!(slice, [0x55u8; 4]);
    let mut slice = [0x55u8; 6];
    assert_eq!(deliver_to_slice(b"Hey", &mut slice), Ok(()));
    assert_eq!(slice, [b'H', b'e', b'y', 0x55, 0x55, 0x55]);
    let mut exact = [0u8; 3];
    assert_eq!(deliver_to_slice(b"abc", &mut exact), Ok(()));
    assert_eq!(&exact, b"abc");
}

#[test]
fn buffer_read_appends() {
    let mut buf = b"ab".to_vec();
    deliver_to_buf(b"cd", &mut buf);
    deliver_to_buf(b"", &mut buf);
    assert_eq!(buf, b"abcd");
}

#[test]
fn handshake_orders_its_steps() {
    let r = Handshake::respond();
    assert!(matches!(r.next_action(), HandshakeAction::ReceivePeerKey));
    let i = Handshake::initiate();
    assert!(matches!(i.next_action(), HandshakeAction::SendPublicKey(_)));
    assert!(matches!(i.finish(), Err(Error::Other(_))));
    let mut r = Handshake::respond();
    r.peer_key_received([9u8; 32]);
    assert!(matches!(r.next_action(), HandshakeAction::SendPublicKey(_)));
    assert!(matches!(r.finish(), Err(Error::Other(_))));
}

#[test]
fn channel_roles() {
    let ch = Channel::new([0u8; 32], Role::Initiator);
    let mut ch2 = Channel::new([0u8; 32], Role::Responder);
    let mut wire = ch2.write_frame(b"x").unwrap();
    assert_eq!(wire[0], 2);
    assert_eq!(read_one(&ch, &mut wire).unwrap(), b"x");
}

#[test]
fn hello_frame_layout() {
    let (_a, mut b) = connect();
    let f = b.write_frame(b"Hello there!").unwrap();
    assert_eq!(f.len(), 44);
    assert_eq!(&f[12..16], &[0, 0, 0, 28]);
}

#[test]
fn frame_length_ceiling() {
    let mut header = [0u8; 16];
    header[12..].copy_from_slice(&(MAX_FRAME_LEN as u32).to_be_bytes());
    assert_eq!(Channel::checked_body_length(&header), Ok(MAX_FRAME_LEN));
    header[12..].copy_from_slice(&(MAX_FRAME_LEN as u32 + 1).to_be_bytes());
    assert!(matches!(Channel::checked_body_length(&header), Err(Error::Other(_))));
    header[12..].copy_from_slice(&[0xff, 0xff, 0xff, 0xff]);
    assert!(matches!(Channel::checked_body_length(&header), Err(Error::Other(_))));
    let mut ch = Channel::new([0u8; 32], Role::Initiator);
    let over = vec![0u8; MAX_FRAME_LEN + 1];
    assert_eq!(ch.write_frame(&over).unwrap().len(), MAX_FRAME_LEN + 33);
}

#[test]
fn decryption_reseals_to_its_input() {
    let key = [4u8; 32];
    let nonce = make_nonce(1, 7);
    let c = encrypt(&key, &nonce, b"re-seal me").unwrap();
    let p = decrypt(&key, &c, &nonce).unwrap();
    assert_eq!(encrypt(&key, &nonce, &p).unwrap(), c);
    assert_eq!(decrypt(&key, &c, &make_nonce(1, 8)), Err(Error::CryptError));
    assert_eq!(decrypt(&key, &c, &make_nonce(2, 7)), Err(Error::CryptError));
}
