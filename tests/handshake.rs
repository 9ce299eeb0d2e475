use unilink::error::{Error, PatternError};
use unilink::handshake::Handshake;
use unilink::noise::Transport;
use unilink::noise_pattern::{Noise_XXpsk3_25519_ChaChaPoly_BLAKE2s, Pattern, Session, Step};
use unilink::stream::MemoryStream;

type Xx = Noise_XXpsk3_25519_ChaChaPoly_BLAKE2s;

const PSK: &[u8; 32] = b"an example pre-shared key 32 byt";

fn private_key() -> Vec<u8> {
    let params: snow::params::NoiseParams = Xx::pattern().parse().unwrap();
    snow::Builder::new(params).generate_keypair().unwrap().private
}

fn engine(initiator: bool) -> Xx {
    let session = Xx::new_noise(&private_key(), PSK, initiator).unwrap();
    Xx::new(session).unwrap()
}

fn run_steps(i: &mut Xx, r: &mut Xx) {
    loop {
        match (i.next_step(), r.next_step()) {
            (Step::Write, Step::Read) => {
                let m = i.write_step().unwrap();
                r.read_step(&m).unwrap();
            }
            (Step::Read, Step::Write) => {
                let m = r.write_step().unwrap();
                i.read_step(&m).unwrap();
            }
            (Step::Done, Step::Done) => break,
            other => panic!("roles out of step: {:?}", other),
        }
    }
}

fn transports() -> (Transport, Transport) {
    let mut i = engine(true);
    let mut r = engine(false);
    run_steps(&mut i, &mut r);
    let it = i.into_inner().into_transport_mode().unwrap().transport().unwrap();
    let rt = r.into_inner().into_transport_mode().unwrap().transport().unwrap();
    (it, rt)
}

#[test]
fn pattern_identifier_and_name() {
    assert_eq!(Xx::type_tag(), 0);
    assert_eq!(Xx::pattern(), "Noise_XXpsk3_25519_ChaChaPoly_BLAKE2s");
    let e = engine(true);
    assert_eq!(e.inst_type(), 0);
    assert_eq!(e.inst_pattern(), "Noise_XXpsk3_25519_ChaChaPoly_BLAKE2s");
}

#[test]
fn steps_follow_the_pattern() {
    let mut i = engine(true);
    let mut r = engine(false);
    assert_eq!(i.next_step(), Step::Write);
    assert_eq!(r.next_step(), Step::Read);
    let m1 = i.write_step().unwrap();
    assert_eq!(m1.len(), 48);
    r.read_step(&m1).unwrap();
    assert_eq!(i.next_step(), Step::Read);
    assert_eq!(r.next_step(), Step::Write);
    let m2 = r.write_step().unwrap();
    i.read_step(&m2).unwrap();
    assert_eq!(i.next_step(), Step::Write);
    assert_eq!(r.next_step(), Step::Read);
    let m3 = i.write_step().unwrap();
    r.read_step(&m3).unwrap();
    assert_eq!(i.next_step(), Step::Done);
    assert_eq!(r.next_step(), Step::Done);
}

#[test]
fn handshake_symmetry_both_directions() {
    let (mut it, mut rt) = transports();
    let ping = b"from the initiator".to_vec();
    let sealed = it.seal(&ping).unwrap();
    assert_ne!(sealed[..ping.len()], ping[..]);
    assert_eq!(rt.open(&sealed).unwrap(), ping);
    let pong = b"and back from the responder".to_vec();
    let sealed = rt.seal(&pong).unwrap();
    assert_eq!(it.open(&sealed).unwrap(), pong);
}

#[test]
fn mismatched_psk_fails_the_handshake() {
    let mut i = engine(true);
    let other = Xx::new_noise(&private_key(), b"another pre-shared key, 32 bytes", false).unwrap();
    let mut r = Xx::new(other).unwrap();
    let m1 = i.write_step().unwrap();
    r.read_step(&m1).unwrap();
    let m2 = r.write_step().unwrap();
    i.read_step(&m2).unwrap();
    let m3 = i.write_step().unwrap();
    assert_eq!(r.read_step(&m3), Err(Error::Crypto));
}

#[test]
fn tampered_handshake_message_is_refused() {
    let mut i = engine(true);
    let mut r = engine(false);
    let m1 = i.write_step().unwrap();
    r.read_step(&m1).unwrap();
    let mut m2 = r.write_step().unwrap();
    let last = m2.len() - 1;
    m2[last] ^= 1;
    assert_eq!(i.read_step(&m2), Err(Error::Crypto));
}

#[test]
fn responder_on_initiator_leaves_stream_untouched() {
    let mut e = engine(true);
    let mut stream = MemoryStream::from_bytes(vec![0, 0, 0, 1, 42]);
    assert_eq!(e.responder(&mut stream), Err(Error::Pattern(PatternError::ShouldBeResponder)));
    assert_eq!(stream.unread_bytes(), vec![0, 0, 0, 1, 42]);
    assert!(stream.written_bytes().is_empty());
    assert_eq!(e.next_step(), Step::Write);
}

#[test]
fn initiator_on_responder_leaves_stream_untouched() {
    let mut e = engine(false);
    let mut stream = MemoryStream::new();
    assert_eq!(e.initiator(&mut stream), Err(Error::Pattern(PatternError::ShouldBeInitiator)));
    assert!(stream.written_bytes().is_empty());
}

#[test]
fn handshake_cannot_run_twice() {
    let mut i = engine(true);
    let mut stream = MemoryStream::new();
    let _ = i.write_step().unwrap();
    assert_eq!(
        i.initiator(&mut stream),
        Err(Error::Pattern(PatternError::HandshakeAlreadyFinished))
    );
    assert!(stream.written_bytes().is_empty());
}

#[test]
fn transport_session_is_refused_as_handshake() {
    let mut i = engine(true);
    let mut r = engine(false);
    run_steps(&mut i, &mut r);
    let session = i.into_inner().into_transport_mode().unwrap();
    assert!(session.is_transport());
    assert!(matches!(
        Xx::new(session),
        Err(Error::Pattern(PatternError::HandshakeAlreadyFinished))
    ));
}

#[test]
fn unfinished_handshake_has_no_transport() {
    let i = engine(true);
    let session = i.into_inner();
    assert!(!session.is_transport());
    assert_eq!(
        session.into_transport_mode().err(),
        Some(Error::Pattern(PatternError::HandshakeNotFinished))
    );
}

#[test]
fn initiator_writes_first_frame_then_waits() {
    let mut i = engine(true);
    let mut stream = MemoryStream::new();
    // No reply ever arrives: the read of the second frame fails.
    assert_eq!(i.initiator(&mut stream), Err(Error::Io));
    let written = stream.written_bytes();
    assert_eq!(&written[..4], &[0, 0, 0, 48]);
    assert_eq!(written.len(), 52);
}

#[test]
fn unknown_preamble_is_rejected_before_any_frame() {
    let mut conn = Handshake::new(MemoryStream::from_bytes(vec![1, 0, 0, 0, 48]));
    assert_eq!(conn.id().unwrap(), 1);
    let mut e = engine(false);
    assert_eq!(
        conn.handshake(false, &mut e),
        Err(Error::Pattern(PatternError::UnknownPattern))
    );
    assert_eq!(conn.get_ref().unread_bytes(), vec![0, 0, 0, 48]);
    assert!(matches!(
        conn.noise_params(),
        Err(Error::Pattern(PatternError::UnknownPattern))
    ));
}

#[test]
fn handshake_needs_the_preamble_first() {
    let mut conn = Handshake::new(MemoryStream::from_bytes(vec![0]));
    let mut e = engine(false);
    assert_eq!(
        conn.handshake(false, &mut e),
        Err(Error::Pattern(PatternError::UnknownPattern))
    );
    assert_eq!(conn.get_ref().unread_bytes(), vec![0]);
}

#[test]
fn known_preamble_selects_the_pattern() {
    let mut conn = Handshake::new(MemoryStream::from_bytes(vec![0]));
    assert_eq!(conn.id().unwrap(), 0);
    assert_eq!(conn.id().unwrap(), 0);
    assert!(conn.noise_params().is_ok());
    let mut e = engine(true);
    assert_eq!(conn.handshake(true, &mut e), Err(Error::Io));
    assert_eq!(conn.into_inner().written_bytes().len(), 4 + 48);
}

#[test]
fn missing_preamble_is_an_io_failure() {
    let mut conn = Handshake::new(MemoryStream::new());
    assert_eq!(conn.id(), Err(Error::Io));
}

#[test]
fn handshake_role_check_goes_through_the_connection() {
    let mut conn = Handshake::new(MemoryStream::from_bytes(vec![0]));
    conn.id().unwrap();
    let mut e = engine(true);
    assert_eq!(
        conn.handshake(false, &mut e),
        Err(Error::Pattern(PatternError::ShouldBeResponder))
    );
    assert!(conn.get_ref().unread_bytes().is_empty());
}

#[test]
fn new_noise_builds_the_requested_role() {
    let mut i = Xx::new(Xx::new_noise(&private_key(), PSK, true).unwrap()).unwrap();
    let mut r = Xx::new(Xx::new_noise(&private_key(), PSK, false).unwrap()).unwrap();
    assert_eq!(i.next_step(), Step::Write);
    assert_eq!(r.next_step(), Step::Read);
    let mut stream = MemoryStream::new();
    assert_eq!(r.initiator(&mut stream), Err(Error::Pattern(PatternError::ShouldBeInitiator)));
    assert_eq!(i.responder(&mut stream), Err(Error::Pattern(PatternError::ShouldBeResponder)));
}

#[test]
fn finished_handshake_session_is_refused_and_unfinished_accepted() {
    let mut i = engine(true);
    let mut r = engine(false);
    let m1 = i.write_step().unwrap();
    // An unfinished session goes back into an engine where it stopped.
    let r_session = r.into_inner();
    assert!(!r_session.is_transport());
    let mut r = Xx::new(r_session).unwrap();
    assert_eq!(r.next_step(), Step::Read);
    r.read_step(&m1).unwrap();
    let i_session = i.into_inner();
    let mut i = Xx::new(i_session).unwrap();
    assert_eq!(i.next_step(), Step::Read);
    run_steps(&mut i, &mut r);
    let finished = i.into_inner();
    assert!(matches!(
        Xx::new(finished),
        Err(Error::Pattern(PatternError::HandshakeAlreadyFinished))
    ));
    assert!(r.into_inner().into_transport_mode().unwrap().is_transport());
}

#[test]
fn responder_reads_first_frame_then_answers() {
    let mut i = engine(true);
    let m1 = i.write_step().unwrap();
    let mut wire = MemoryStream::new();
    unilink::message::MessageWriter::write_message(&mut wire, &m1).unwrap();
    let mut stream = MemoryStream::from_bytes(wire.written_bytes());
    let mut r = engine(false);
    // The second frame goes out; the third never arrives.
    assert_eq!(r.responder(&mut stream), Err(Error::Io));
    let out = stream.written_bytes();
    assert_eq!(&out[..4], &(out.len() as u32 - 4).to_be_bytes());
    assert!(stream.unread_bytes().is_empty());
}
