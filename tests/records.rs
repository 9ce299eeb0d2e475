use unilink::error::Error;
use unilink::message::{MessageReader, MessageWriter};
use unilink::noise::{Noise, Transport, PLAIN_CHUNK};
use unilink::noise_pattern::{Noise_XXpsk3_25519_ChaChaPoly_BLAKE2s, Pattern, Session, Step};
use unilink::stream::MemoryStream;

type Xx = Noise_XXpsk3_25519_ChaChaPoly_BLAKE2s;

const PSK: &[u8; 32] = b"01234567890123456798012345678901";

fn engine(initiator: bool) -> Xx {
    let params: snow::params::NoiseParams = Xx::pattern().parse().unwrap();
    let key = snow::Builder::new(params).generate_keypair().unwrap().private;
    Xx::new(Xx::new_noise(&key, PSK, initiator).unwrap()).unwrap()
}

fn sessions() -> (Session, Session) {
    let mut i = engine(true);
    let mut r = engine(false);
    while i.next_step() != Step::Done {
        if i.next_step() == Step::Write {
            let m = i.write_step().unwrap();
            r.read_step(&m).unwrap();
        } else {
            let m = r.write_step().unwrap();
            i.read_step(&m).unwrap();
        }
    }
    (
        i.into_inner().into_transport_mode().unwrap(),
        r.into_inner().into_transport_mode().unwrap(),
    )
}

fn transports() -> (Transport, Transport) {
    let (i, r) = sessions();
    (i.transport().unwrap(), r.transport().unwrap())
}

fn plaintext(len: usize) -> Vec<u8> {
    (0..len).map(|k| (k * 31 % 251) as u8).collect()
}

fn sealed_len(len: usize) -> usize {
    len + 16 * ((len + PLAIN_CHUNK - 1) / PLAIN_CHUNK)
}

#[test]
fn chunked_record_round_trip() {
    let (mut it, mut rt) = transports();
    for len in [0usize, 1, 65535, 65536, 200000] {
        let p = plaintext(len);
        let sealed = it.seal(&p).unwrap();
        assert_eq!(sealed.len(), sealed_len(len));
        assert_eq!(rt.open(&sealed).unwrap(), p);
    }
}

#[test]
fn record_at_chunk_boundaries() {
    let (mut it, mut rt) = transports();
    for len in [PLAIN_CHUNK - 1, PLAIN_CHUNK, PLAIN_CHUNK + 1, 2 * PLAIN_CHUNK, 2 * PLAIN_CHUNK + 1] {
        let p = plaintext(len);
        let sealed = it.seal(&p).unwrap();
        assert_eq!(sealed.len(), sealed_len(len));
        assert_eq!(rt.open(&sealed).unwrap(), p);
    }
}

#[test]
fn empty_record_seals_to_nothing() {
    let (mut it, mut rt) = transports();
    assert_eq!(it.seal(b"").unwrap(), Vec::<u8>::new());
    assert_eq!(rt.open(b"").unwrap(), Vec::<u8>::new());
}

#[test]
fn one_byte_record_is_one_sealed_message() {
    let (mut it, _) = transports();
    let sealed = it.seal(b"z").unwrap();
    assert_eq!(sealed.len(), 17);
}

#[test]
fn tamper_any_bit_is_rejected() {
    let p = plaintext(70000);
    let mut positions = vec![0usize, 1, 100, 65534, 65535, 65536, 70000, 70000 + 31];
    positions.push(sealed_len(70000) - 1);
    for pos in positions {
        for bit in [0u8, 7] {
            let (mut it, mut rt) = transports();
            let mut sealed = it.seal(&p).unwrap();
            sealed[pos] ^= 1 << bit;
            assert_eq!(rt.open(&sealed), Err(Error::Crypto));
        }
    }
}

#[test]
fn truncated_record_is_rejected() {
    let (mut it, mut rt) = transports();
    let sealed = it.seal(b"hello").unwrap();
    assert_eq!(rt.open(&sealed[..sealed.len() - 1]), Err(Error::Crypto));
}

#[test]
fn records_are_read_in_order() {
    let (mut it, mut rt) = transports();
    let _first = it.seal(b"first").unwrap();
    let second = it.seal(b"second").unwrap();
    assert_eq!(rt.open(&second), Err(Error::Crypto));
    let (mut it, mut rt) = transports();
    let a2 = it.seal(b"first").unwrap();
    let b2 = it.seal(b"second").unwrap();
    assert_eq!(rt.open(&a2).unwrap(), b"first".to_vec());
    assert_eq!(rt.open(&b2).unwrap(), b"second".to_vec());
}

#[test]
fn record_channel_over_a_stream() {
    let (i, r) = sessions();
    let mut sender = Noise::from(i, MemoryStream::new());
    let message = plaintext(100000);
    sender.write_message(&message).unwrap();
    let wire = sender.into_inner().written_bytes();
    assert_eq!(wire.len(), 4 + sealed_len(100000));
    let mut receiver = Noise::from(r, MemoryStream::from_bytes(wire));
    assert_eq!(receiver.read_message().unwrap(), message);
    assert!(receiver.get_ref().unread_bytes().is_empty());
}

#[test]
fn tampered_frame_fails_receive() {
    let (i, r) = sessions();
    let mut sender = Noise::from(i, MemoryStream::new());
    sender.write_message(b"ping").unwrap();
    let mut wire = sender.into_inner().written_bytes();
    wire[6] ^= 0x10;
    let mut receiver = Noise::from(r, MemoryStream::from_bytes(wire));
    assert_eq!(receiver.read_message(), Err(Error::Crypto));
}
