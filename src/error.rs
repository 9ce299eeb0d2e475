use vstd::prelude::*;

verus! {

/// Every failure that the transport reports to its caller.
#[derive(Debug, PartialEq, Eq, Structural)]
#[non_exhaustive]
pub enum Error {
    /// A frame could not be built.
    Message(MessageError),
    /// The handshake was driven against its state or its role.
    Pattern(PatternError),
    /// The cryptographic engine refused an operation (a Diffie-Hellman or
    /// authentication failure, a malformed message, a bad parameter).
    Crypto,
    /// The byte stream failed or ended early.
    Io,
    /// An inbound record does not decode to a header.
    Malformed,
}

/// Failures of the framing layer.
#[derive(Debug, PartialEq, Eq, Structural)]
pub enum MessageError {
    /// The message does not fit a 32-bit length prefix.
    MessageTooLarge,
}

/// Failures of the handshake state machine.
#[derive(Debug, PartialEq, Eq, Structural)]
pub enum PatternError {
    /// The session is past its handshake phase.
    HandshakeAlreadyFinished,
    /// Initiator logic was asked of a responder.
    ShouldBeInitiator,
    /// Responder logic was asked of an initiator.
    ShouldBeResponder,
    /// The session has not finished its handshake.
    HandshakeNotFinished,
    /// The connection's pattern identifier is missing or names no known pattern.
    UnknownPattern,
}

/// The text that describes an error to a person.
pub open spec fn describe(e: Error) -> Seq<char> {
    match e {
        Error::Message(MessageError::MessageTooLarge) => "message error: MessageTooLarge"@,
        Error::Pattern(PatternError::HandshakeAlreadyFinished) => "pattern error: HandshakeAlreadyFinished"@,
        Error::Pattern(PatternError::ShouldBeInitiator) => "pattern error: ShouldBeInitiator"@,
        Error::Pattern(PatternError::ShouldBeResponder) => "pattern error: ShouldBeResponder"@,
        Error::Pattern(PatternError::UnknownPattern) => "pattern error: UnknownPattern"@,
        Error::Pattern(PatternError::HandshakeNotFinished) => "pattern error: HandshakeNotFinished"@,
        Error::Crypto => "crypto error"@,
        Error::Io => "io error"@,
        Error::Malformed => "malformed record"@,
    }
}

impl Error {
    /// The text that describes the error.
    pub fn describe(&self) -> (r: String)
        ensures
            r@ == describe(*self),
    {
        let s: &str = match self {
            Error::Message(MessageError::MessageTooLarge) => "message error: MessageTooLarge",
            Error::Pattern(PatternError::HandshakeAlreadyFinished) => "pattern error: HandshakeAlreadyFinished",
            Error::Pattern(PatternError::ShouldBeInitiator) => "pattern error: ShouldBeInitiator",
            Error::Pattern(PatternError::ShouldBeResponder) => "pattern error: ShouldBeResponder",
            Error::Pattern(PatternError::UnknownPattern) => "pattern error: UnknownPattern",
            Error::Pattern(PatternError::HandshakeNotFinished) => "pattern error: HandshakeNotFinished",
            Error::Crypto => "crypto error",
            Error::Io => "io error",
            Error::Malformed => "malformed record",
        };
        s.to_owned()
    }
}

impl From<MessageError> for Error {
    fn from(reason: MessageError) -> (r: Error)
        ensures
            r == Error::Message(reason),
    {
        Error::Message(reason)
    }
}

impl vstd::std_specs::convert::FromSpecImpl<MessageError> for Error {
    open spec fn obeys_from_spec() -> bool {
        true
    }

    open spec fn from_spec(v: MessageError) -> Error {
        Error::Message(v)
    }
}

impl From<PatternError> for Error {
    fn from(reason: PatternError) -> (r: Error)
        ensures
            r == Error::Pattern(reason),
    {
        Error::Pattern(reason)
    }
}

impl vstd::std_specs::convert::FromSpecImpl<PatternError> for Error {
    open spec fn obeys_from_spec() -> bool {
        true
    }

    open spec fn from_spec(v: PatternError) -> Error {
        Error::Pattern(v)
    }
}

} // verus!
