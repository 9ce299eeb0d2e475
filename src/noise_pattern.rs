use vstd::prelude::*;

use crate::crypto::{build_initiator, build_responder, handshake_read, handshake_write, xx_name};
use crate::error::{Error, PatternError};
use crate::message::{frame_bytes, takes_frame, MessageReader, MessageWriter};
use crate::noise::Transport;
use crate::stream::ByteStream;

verus! {

enum Phase {
    Handshake(snow::HandshakeState, bool, u8),
    Transport(Transport),
}

/// A Noise session, owned by one connection. In its handshake phase it
/// records the role it was built for and how many handshake messages it
/// has processed; it only ever moves on to its transport phase.
pub struct Session {
    phase: Phase,
}

impl Session {
    /// Whether the session is in its transport phase.
    pub closed spec fn spec_is_transport(&self) -> bool {
        self.phase is Transport
    }

    /// The role the session was built for (meaningful in the handshake phase).
    pub closed spec fn spec_initiator(&self) -> bool {
        match self.phase {
            Phase::Handshake(_, initiator, _) => initiator,
            Phase::Transport(_) => false,
        }
    }

    /// How many handshake messages the session has processed (in the
    /// handshake phase).
    pub closed spec fn spec_done(&self) -> nat {
        match self.phase {
            Phase::Handshake(_, _, done) => done as nat,
            Phase::Transport(_) => 0,
        }
    }

    /// Ends the handshake phase: splits the transcript into the sending and
    /// the receiving key. A session whose handshake has not processed all
    /// three messages is refused; one already in transport stays as it is.
    pub fn into_transport_mode(self) -> (r: Result<Session, Error>)
        ensures
            self.spec_is_transport() ==> r == Ok::<Session, Error>(self),
            !self.spec_is_transport() && self.spec_done() != 3 ==> r == Err::<Session, Error>(
                Error::Pattern(PatternError::HandshakeNotFinished),
            ),
            r matches Ok(s) ==> s.spec_is_transport(),
            r == Err::<Session, Error>(Error::Crypto) ==> !self.spec_is_transport()
                && self.spec_done() == 3,
            r is Err ==> r->Err_0 == Error::Crypto || r->Err_0 == Error::Pattern(
                PatternError::HandshakeNotFinished,
            ),
    {
        match self.phase {
            Phase::Handshake(h, initiator, done) => {
                if done != 3 {
                    return Err(Error::Pattern(PatternError::HandshakeNotFinished));
                }
                match h.into_transport_mode() {
                    Ok(t) => Ok(Session { phase: Phase::Transport(Transport::new(t)) }),
                    Err(_) => Err(Error::Crypto),
                }
            },
            Phase::Transport(t) => Ok(Session { phase: Phase::Transport(t) }),
        }
    }

    /// The transport phase of the session, if it has reached it.
    pub fn transport(self) -> (r: Option<Transport>)
        ensures
            r is Some <==> self.spec_is_transport(),
    {
        match self.phase {
            Phase::Handshake(..) => None,
            Phase::Transport(t) => Some(t),
        }
    }

    /// Whether the session is in its transport phase.
    pub fn is_transport(&self) -> (r: bool)
        ensures
            r == self.spec_is_transport(),
    {
        match self.phase {
            Phase::Handshake(..) => false,
            Phase::Transport(_) => true,
        }
    }
}

/// What a handshake engine does next.
#[derive(Debug, PartialEq, Eq, Structural)]
pub enum Step {
    /// Produce the next handshake message and send it as one frame.
    Write,
    /// Read one frame and process it as the peer's next handshake message.
    Read,
    /// The handshake is complete.
    Done,
}

/// The next step of a three-message pattern in which the initiator writes
/// the first and the third message and the responder the second.
pub open spec fn step_of(initiator: bool, done: nat) -> Step {
    if done >= 3 {
        Step::Done
    } else if (done % 2 == 0) == initiator {
        Step::Write
    } else {
        Step::Read
    }
}

/// The stream traffic of a whole three-message handshake, from `w0` to `w1`
/// written and from `u0` to `u1` unread: the initiator writes the first and
/// the third frame and reads the second; the responder reads the first and
/// the third and writes the second.
pub open spec fn three_message_exchange(
    initiator: bool,
    w0: Seq<u8>,
    w1: Seq<u8>,
    u0: Seq<u8>,
    u1: Seq<u8>,
) -> bool {
    if initiator {
        exists|m1: Seq<u8>, m2: Seq<u8>, m3: Seq<u8>|
            #![trigger frame_bytes(m1), frame_bytes(m3), takes_frame(u0, u1, m2)]
            w1 == w0 + frame_bytes(m1) + frame_bytes(m3) && takes_frame(u0, u1, m2)
    } else {
        exists|m1: Seq<u8>, m2: Seq<u8>, m3: Seq<u8>, mid: Seq<u8>|
            #![trigger takes_frame(u0, mid, m1), frame_bytes(m2), takes_frame(mid, u1, m3)]
            takes_frame(u0, mid, m1) && w1 == w0 + frame_bytes(m2) && takes_frame(mid, u1, m3)
    }
}

/// A handshake pattern: a fixed sequence of messages between an initiator
/// and a responder, selected on the wire by a one-byte identifier.
pub trait Pattern: Sized {
    /// The pattern's wire identifier.
    spec fn spec_type() -> u8;

    /// The protocol name handed to the cryptographic engine.
    spec fn spec_name() -> Seq<char>;

    /// The session the engine drives.
    spec fn spec_session(&self) -> Session;

    /// Whether the engine plays the initiator.
    spec fn spec_initiator(&self) -> bool;

    /// How many handshake messages the engine has written or read.
    spec fn spec_done(&self) -> nat;

    /// The number of messages in the pattern.
    spec fn spec_len() -> nat;

    /// An engine over a session that is still in its handshake phase: it
    /// takes over the session's role and progress.
    fn new(noise: Session) -> (r: Result<Self, Error>)
        ensures
            noise.spec_is_transport() || noise.spec_done() >= Self::spec_len() <==> r
                == Err::<Self, Error>(Error::Pattern(PatternError::HandshakeAlreadyFinished)),
            r matches Ok(e) ==> e.spec_session() == noise && e.spec_initiator()
                == noise.spec_initiator() && e.spec_done() == noise.spec_done(),
    ;

    /// The wire identifier.
    fn type_tag() -> (r: u8)
        ensures
            r == Self::spec_type(),
    ;

    /// The protocol name.
    fn pattern() -> (r: &'static str)
        ensures
            r@ == Self::spec_name(),
    ;

    /// The wire identifier, asked of an engine.
    fn inst_type(&self) -> (r: u8)
        ensures
            r == Self::spec_type(),
    ;

    /// The protocol name, asked of an engine.
    fn inst_pattern(&self) -> (r: &'static str)
        ensures
            r@ == Self::spec_name(),
    ;

    /// A fresh session for this pattern in the role asked for, with the given
    /// static private key and pre-shared key.
    fn new_noise(private: &[u8], psk: &[u8; 32], initiator: bool) -> (r: Result<Session, Error>)
        requires
            private@.len() <= 32,
        ensures
            r matches Ok(s) ==> !s.spec_is_transport() && s.spec_initiator() == initiator
                && s.spec_done() == 0,
            r is Ok,
    ;

    /// Runs the whole handshake as initiator over `stream`. The role and
    /// state checks come first and touch nothing.
    fn initiator<S: ByteStream>(&mut self, stream: &mut S) -> (r: Result<(), Error>)
        ensures
            r == Err::<(), Error>(Error::Pattern(PatternError::ShouldBeInitiator))
                <==> !old(self).spec_initiator(),
            r == Err::<(), Error>(Error::Pattern(PatternError::HandshakeAlreadyFinished)) <==> old(
                self,
            ).spec_initiator() && old(self).spec_done() != 0,
            r matches Err(Error::Pattern(_)) ==> *final(self) == *old(self) && *final(stream)
                == *old(stream),
            r matches Err(Error::Pattern(e)) ==> e == PatternError::ShouldBeInitiator || e
                == PatternError::HandshakeAlreadyFinished,
            final(self).spec_initiator() == old(self).spec_initiator(),
            r is Ok ==> final(self).spec_done() == Self::spec_len() && three_message_exchange(
                true,
                old(stream).written(),
                final(stream).written(),
                old(stream).unread(),
                final(stream).unread(),
            ),
    ;

    /// Runs the whole handshake as responder over `stream`. The role and
    /// state checks come first and touch nothing.
    fn responder<S: ByteStream>(&mut self, stream: &mut S) -> (r: Result<(), Error>)
        ensures
            r == Err::<(), Error>(Error::Pattern(PatternError::ShouldBeResponder))
                <==> old(self).spec_initiator(),
            r == Err::<(), Error>(Error::Pattern(PatternError::HandshakeAlreadyFinished)) <==> !old(
                self,
            ).spec_initiator() && old(self).spec_done() != 0,
            r matches Err(Error::Pattern(_)) ==> *final(self) == *old(self) && *final(stream)
                == *old(stream),
            r matches Err(Error::Pattern(e)) ==> e == PatternError::ShouldBeResponder || e
                == PatternError::HandshakeAlreadyFinished,
            final(self).spec_initiator() == old(self).spec_initiator(),
            r is Ok ==> final(self).spec_done() == Self::spec_len() && three_message_exchange(
                false,
                old(stream).written(),
                final(stream).written(),
                old(stream).unread(),
                final(stream).unread(),
            ),
    ;

    /// The session, handed back with its role and progress.
    fn into_inner(self) -> (r: Session)
        ensures
            r == self.spec_session(),
            !r.spec_is_transport(),
            r.spec_initiator() == self.spec_initiator(),
            r.spec_done() == self.spec_done(),
    ;
}

/// The two roles take turns: while the handshake runs, at each message
/// exactly one of them writes and the other reads, and both finish together.
pub proof fn lemma_roles_alternate(done: nat)
    ensures
        done < 3 ==> (step_of(true, done) == Step::Write <==> step_of(false, done) == Step::Read),
        done < 3 ==> (step_of(true, done) == Step::Read <==> step_of(false, done) == Step::Write),
        step_of(true, done) == Step::Done <==> step_of(false, done) == Step::Done,
{
}

/// `Noise_XXpsk3_25519_ChaChaPoly_BLAKE2s`: mutual authentication by
/// static keys, with a pre-shared key mixed in at the third message.
#[allow(non_camel_case_types)]
pub struct Noise_XXpsk3_25519_ChaChaPoly_BLAKE2s {
    noise: snow::HandshakeState,
    initiator: bool,
    done: u8,
}

impl Noise_XXpsk3_25519_ChaChaPoly_BLAKE2s {
    /// The next step of the handshake.
    pub open spec fn spec_step(&self) -> Step {
        step_of(self.spec_initiator(), self.spec_done())
    }

    /// What the engine does next.
    pub fn next_step(&self) -> (r: Step)
        ensures
            r == self.spec_step(),
    {
        if self.done >= 3 {
            Step::Done
        } else if (self.done % 2 == 0) == self.initiator {
            Step::Write
        } else {
            Step::Read
        }
    }

    /// Produces the next handshake message; the caller sends it as one frame.
    pub fn write_step(&mut self) -> (r: Result<Vec<u8>, Error>)
        requires
            old(self).spec_step() == Step::Write,
        ensures
            final(self).spec_initiator() == old(self).spec_initiator(),
            r matches Ok(m) ==> final(self).spec_done() == old(self).spec_done() + 1 && m@.len()
                <= 65535,
            r is Err ==> r->Err_0 == Error::Crypto && final(self).spec_done() == old(
                self,
            ).spec_done(),
    {
        match handshake_write(&mut self.noise) {
            Ok(m) => {
                self.done = self.done + 1;
                Ok(m)
            },
            Err(_) => Err(Error::Crypto),
        }
    }

    /// Processes the peer's next handshake message.
    pub fn read_step(&mut self, message: &[u8]) -> (r: Result<(), Error>)
        requires
            old(self).spec_step() == Step::Read,
        ensures
            final(self).spec_initiator() == old(self).spec_initiator(),
            r is Ok ==> final(self).spec_done() == old(self).spec_done() + 1,
            r is Err ==> r->Err_0 == Error::Crypto && final(self).spec_done() == old(
                self,
            ).spec_done(),
    {
        match handshake_read(&mut self.noise, message) {
            Ok(()) => {
                self.done = self.done + 1;
                Ok(())
            },
            Err(_) => Err(Error::Crypto),
        }
    }

    /// Writes the next message and sends it as a frame; returns the message.
    fn send_step<S: ByteStream>(&mut self, stream: &mut S) -> (r: Result<Vec<u8>, Error>)
        requires
            old(self).spec_step() == Step::Write,
        ensures
            final(self).spec_initiator() == old(self).spec_initiator(),
            r matches Ok(m) ==> final(self).spec_done() == old(self).spec_done() + 1
                && final(stream).written() == old(stream).written() + frame_bytes(m@),
            final(stream).unread() == old(stream).unread(),
            r is Err ==> r->Err_0 == Error::Crypto || r->Err_0 == Error::Io,
    {
        let m = self.write_step()?;
        stream.write_message(m.as_slice())?;
        Ok(m)
    }

    /// Reads one frame and processes it as the next message; returns it.
    fn receive_step<S: ByteStream>(&mut self, stream: &mut S) -> (r: Result<Vec<u8>, Error>)
        requires
            old(self).spec_step() == Step::Read,
        ensures
            final(self).spec_initiator() == old(self).spec_initiator(),
            r matches Ok(m) ==> final(self).spec_done() == old(self).spec_done() + 1 && takes_frame(
                old(stream).unread(),
                final(stream).unread(),
                m@,
            ),
            final(stream).written() == old(stream).written(),
            r is Err ==> !(r->Err_0 is Pattern),
    {
        let m = stream.read_message()?;
        self.read_step(m.as_slice())?;
        Ok(m)
    }
}

impl Pattern for Noise_XXpsk3_25519_ChaChaPoly_BLAKE2s {
    open spec fn spec_type() -> u8 {
        0
    }

    open spec fn spec_name() -> Seq<char> {
        xx_name()
    }

    closed spec fn spec_session(&self) -> Session {
        Session { phase: Phase::Handshake(self.noise, self.initiator, self.done) }
    }

    closed spec fn spec_initiator(&self) -> bool {
        self.initiator
    }

    closed spec fn spec_done(&self) -> nat {
        self.done as nat
    }

    open spec fn spec_len() -> nat {
        3
    }

    fn new(noise: Session) -> (r: Result<Self, Error>) {
        match noise.phase {
            Phase::Transport(_) => Err(Error::Pattern(PatternError::HandshakeAlreadyFinished)),
            Phase::Handshake(h, initiator, done) => {
                if done >= 3 {
                    Err(Error::Pattern(PatternError::HandshakeAlreadyFinished))
                } else {
                    Ok(Noise_XXpsk3_25519_ChaChaPoly_BLAKE2s { noise: h, initiator, done })
                }
            },
        }
    }

    fn type_tag() -> (r: u8) {
        0
    }

    fn pattern() -> (r: &'static str) {
        "Noise_XXpsk3_25519_ChaChaPoly_BLAKE2s"
    }

    fn inst_type(&self) -> (r: u8) {
        Self::type_tag()
    }

    fn inst_pattern(&self) -> (r: &'static str) {
        Self::pattern()
    }

    fn new_noise(private: &[u8], psk: &[u8; 32], initiator: bool) -> (r: Result<Session, Error>) {
        let name = Self::pattern();
        let built = if initiator {
            build_initiator(name, private, psk)
        } else {
            build_responder(name, private, psk)
        };
        match built {
            Ok(h) => Ok(Session { phase: Phase::Handshake(h, initiator, 0) }),
            Err(_) => Err(Error::Crypto),
        }
    }

    fn initiator<S: ByteStream>(&mut self, stream: &mut S) -> (r: Result<(), Error>) {
        if !self.initiator {
            return Err(Error::Pattern(PatternError::ShouldBeInitiator));
        }
        if self.done != 0 {
            return Err(Error::Pattern(PatternError::HandshakeAlreadyFinished));
        }
        let ghost w0 = stream.written();
        let ghost u0 = stream.unread();
        let m1 = self.send_step(stream)?;
        let m2 = self.receive_step(stream)?;
        let m3 = self.send_step(stream)?;
        assert(stream.written() == w0 + frame_bytes(m1@) + frame_bytes(m3@));
        assert(takes_frame(u0, stream.unread(), m2@));
        Ok(())
    }

    fn responder<S: ByteStream>(&mut self, stream: &mut S) -> (r: Result<(), Error>) {
        if self.initiator {
            return Err(Error::Pattern(PatternError::ShouldBeResponder));
        }
        if self.done != 0 {
            return Err(Error::Pattern(PatternError::HandshakeAlreadyFinished));
        }
        let ghost w0 = stream.written();
        let ghost u0 = stream.unread();
        let m1 = self.receive_step(stream)?;
        let ghost mid = stream.unread();
        let m2 = self.send_step(stream)?;
        let m3 = self.receive_step(stream)?;
        assert(takes_frame(u0, mid, m1@));
        assert(stream.written() == w0 + frame_bytes(m2@));
        assert(takes_frame(mid, stream.unread(), m3@));
        Ok(())
    }

    fn into_inner(self) -> (r: Session) {
        Session { phase: Phase::Handshake(self.noise, self.initiator, self.done) }
    }
}

} // verus!
