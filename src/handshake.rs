use vstd::prelude::*;

use crate::crypto::parse_params;
use crate::error::{Error, PatternError};
use crate::noise_pattern::{three_message_exchange, Noise_XXpsk3_25519_ChaChaPoly_BLAKE2s, Pattern};
use crate::stream::ByteStream;

verus! {

/// The start of a connection: the one-byte pattern identifier that opens
/// the stream, then the handshake of the pattern it names.
pub struct Handshake<S> {
    stream: S,
    id: Option<u8>,
}

impl<S> Handshake<S> {
    /// The underlying stream.
    pub closed spec fn spec_stream(&self) -> S {
        self.stream
    }

    /// The pattern identifier, once it has been read.
    pub closed spec fn spec_id(&self) -> Option<u8> {
        self.id
    }
}

impl<S: ByteStream> Handshake<S> {
    /// A connection over `stream` whose identifier is not read yet.
    pub fn new(stream: S) -> (r: Self)
        ensures
            r.spec_stream() == stream,
            r.spec_id() is None,
    {
        Self { stream, id: None }
    }

    /// The pattern identifier: read from the stream the first time, then
    /// remembered.
    pub fn id(&mut self) -> (r: Result<u8, Error>)
        ensures
            old(self).spec_id() matches Some(v) ==> r == Ok::<u8, Error>(v) && *final(self)
                == *old(self),
            old(self).spec_id() is None ==> (r is Ok <==> old(self).spec_stream().unread().len()
                >= 1),
            old(self).spec_id() is None && r is Ok ==> old(self).spec_stream().unread() == seq![
                r->Ok_0,
            ] + final(self).spec_stream().unread(),
            r matches Ok(v) ==> final(self).spec_id() == Some(v),
            r is Err ==> r->Err_0 == Error::Io && final(self).spec_id() is None,
            final(self).spec_stream().written() == old(self).spec_stream().written(),
    {
        match self.id {
            Some(id) => Ok(id),
            None => {
                let b = self.stream.read_exact(1)?;
                let id = b[0];
                assert(b@ =~= seq![id]);
                self.id = Some(id);
                Ok(id)
            },
        }
    }

    /// Runs `pattern`'s handshake in the given role, once the identifier
    /// that opened the stream names that pattern. A connection whose
    /// identifier is missing or names another pattern is refused before any
    /// handshake message is read or written.
    pub fn handshake<P: Pattern>(&mut self, initiator: bool, pattern: &mut P) -> (r: Result<
        (),
        Error,
    >)
        ensures
            r == Err::<(), Error>(Error::Pattern(PatternError::UnknownPattern)) <==> old(
                self,
            ).spec_id() != Some(P::spec_type()),
            r == Err::<(), Error>(Error::Pattern(PatternError::ShouldBeInitiator)) <==> old(
                self,
            ).spec_id() == Some(P::spec_type()) && initiator && !old(pattern).spec_initiator(),
            r == Err::<(), Error>(Error::Pattern(PatternError::ShouldBeResponder)) <==> old(
                self,
            ).spec_id() == Some(P::spec_type()) && !initiator && old(pattern).spec_initiator(),
            r == Err::<(), Error>(Error::Pattern(PatternError::HandshakeAlreadyFinished)) <==> old(
                self,
            ).spec_id() == Some(P::spec_type()) && initiator == old(pattern).spec_initiator() && old(
                pattern,
            ).spec_done() != 0,
            r matches Err(Error::Pattern(_)) ==> *final(self) == *old(self) && *final(pattern)
                == *old(pattern),
            final(self).spec_id() == old(self).spec_id(),
            final(pattern).spec_initiator() == old(pattern).spec_initiator(),
            r is Ok ==> final(pattern).spec_done() == P::spec_len() && three_message_exchange(
                initiator,
                old(self).spec_stream().written(),
                final(self).spec_stream().written(),
                old(self).spec_stream().unread(),
                final(self).spec_stream().unread(),
            ),
    {
        let id = match self.id {
            Some(id) => id,
            None => return Err(Error::Pattern(PatternError::UnknownPattern)),
        };
        if pattern.inst_type() != id {
            return Err(Error::Pattern(PatternError::UnknownPattern));
        }
        if initiator {
            pattern.initiator(&mut self.stream)
        } else {
            pattern.responder(&mut self.stream)
        }
    }

    /// The cryptographic parameters of the pattern that the identifier names.
    pub fn noise_params(&self) -> (r: Result<snow::params::NoiseParams, Error>)
        ensures
            self.spec_id() == Some(0u8) <==> r is Ok,
            self.spec_id() != Some(0u8) ==> r is Err && r->Err_0 == Error::Pattern(
                PatternError::UnknownPattern,
            ),
    {
        match self.id {
            Some(0) => match parse_params(Noise_XXpsk3_25519_ChaChaPoly_BLAKE2s::pattern()) {
                Ok(p) => Ok(p),
                Err(_) => Err(Error::Crypto),
            },
            _ => Err(Error::Pattern(PatternError::UnknownPattern)),
        }
    }

    /// The underlying stream.
    pub fn get_ref(&self) -> (r: &S)
        ensures
            *r == self.spec_stream(),
    {
        &self.stream
    }

    /// The underlying stream, ending the start of the connection.
    pub fn into_inner(self) -> (r: S)
        ensures
            r == self.spec_stream(),
    {
        self.stream
    }
}

} // verus!
