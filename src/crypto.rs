//! The calls into the Noise protocol engine (the `snow` crate) that the
//! handshake and the record layer make, with what each of them relies on.

use snow::Error as NoiseError;
use vstd::prelude::*;

verus! {

/// The largest Noise message, handshake or transport, in bytes.
pub const MAX_MESSAGE_LEN: usize = 65535;

/// The authentication tag that every transport message carries, in bytes.
pub const TAG_LEN: usize = 16;

#[verifier::external_type_specification]
#[verifier::external_body]
pub struct ExHandshakeState(snow::HandshakeState);

#[verifier::external_type_specification]
#[verifier::external_body]
pub struct ExTransportState(snow::TransportState);

#[verifier::external_type_specification]
#[verifier::external_body]
pub struct ExNoiseError(NoiseError);

#[verifier::external_type_specification]
#[verifier::external_body]
pub struct ExNoiseParams(snow::params::NoiseParams);

/// Relies on `snow::HandshakeState::into_transport_mode`: splits the
/// handshake's chaining key into the two directional transport keys.
pub assume_specification[ snow::HandshakeState::into_transport_mode ](
    s: snow::HandshakeState,
) -> Result<snow::TransportState, NoiseError>;

/// The protocol name of the one pattern this library runs.
pub open spec fn xx_name() -> Seq<char> {
    "Noise_XXpsk3_25519_ChaChaPoly_BLAKE2s"@
}

/// Relies on `NoiseParams::from_str`: parses a protocol name. Each of the
/// name's parts (`XXpsk3`, `25519`, `ChaChaPoly`, `BLAKE2s`) is one the
/// parser knows, so that name parses.
#[verifier::external_body]
pub(crate) fn parse_params(name: &str) -> (r: Result<snow::params::NoiseParams, NoiseError>)
    ensures
        name@ == xx_name() ==> r is Ok,
{
    name.parse()
}

/// Relies on `NoiseParams::from_str` and `snow::Builder::{new,
/// local_private_key, psk, build_initiator}`: an initiator state for the
/// named protocol, with the static private key and the pre-shared key mixed
/// in after the third message. The engine copies the private key into a
/// 32-byte buffer, so a longer key would panic. For the library's protocol
/// no check of `Builder::build` can fail: the static key is given, no remote
/// key is needed, the default resolver has every primitive, and the
/// pre-shared key has its 32 bytes.
#[verifier::external_body]
pub(crate) fn build_initiator(name: &str, private: &[u8], psk: &[u8; 32]) -> (r: Result<
    snow::HandshakeState,
    NoiseError,
>)
    requires
        private@.len() <= 32,
    ensures
        name@ == xx_name() ==> r is Ok,
{
    let params: snow::params::NoiseParams = name.parse()?;
    snow::Builder::new(params).local_private_key(private).psk(3, psk).build_initiator()
}

/// Relies on the same calls as `build_initiator`, ending in
/// `build_responder`: the responding side, on the same terms.
#[verifier::external_body]
pub(crate) fn build_responder(name: &str, private: &[u8], psk: &[u8; 32]) -> (r: Result<
    snow::HandshakeState,
    NoiseError,
>)
    requires
        private@.len() <= 32,
    ensures
        name@ == xx_name() ==> r is Ok,
{
    let params: snow::params::NoiseParams = name.parse()?;
    snow::Builder::new(params).local_private_key(private).psk(3, psk).build_responder()
}

/// Relies on `snow::HandshakeState::write_message` with an empty payload:
/// the next handshake message, written into a buffer of the largest
/// message size, of which the written length is kept.
#[verifier::external_body]
pub(crate) fn handshake_write(s: &mut snow::HandshakeState) -> (r: Result<Vec<u8>, NoiseError>)
    ensures
        r is Ok ==> r->Ok_0@.len() <= MAX_MESSAGE_LEN,
{
    let mut buf = vec![0u8; MAX_MESSAGE_LEN];
    let len = s.write_message(&[], &mut buf)?;
    buf.truncate(len);
    Ok(buf)
}

/// Relies on `snow::HandshakeState::read_message`: processes the peer's
/// next handshake message; the engine refuses one longer than the largest
/// message size. The payload, empty in this pattern, is dropped.
#[verifier::external_body]
pub(crate) fn handshake_read(s: &mut snow::HandshakeState, message: &[u8]) -> (r: Result<
    (),
    NoiseError,
>)
    ensures
        message@.len() > MAX_MESSAGE_LEN ==> r is Err,
{
    let mut buf = vec![0u8; MAX_MESSAGE_LEN];
    s.read_message(message, &mut buf)?;
    Ok(())
}

/// Relies on `snow::TransportState::write_message`: seals `plaintext` under
/// the sending key and the next nonce. The engine refuses a plaintext whose
/// sealed form would exceed the largest message size; otherwise the sealed
/// form is the plaintext's length plus the tag.
#[verifier::external_body]
pub(crate) fn transport_write(s: &mut snow::TransportState, plaintext: &[u8]) -> (r: Result<
    Vec<u8>,
    NoiseError,
>)
    ensures
        plaintext@.len() + TAG_LEN > MAX_MESSAGE_LEN ==> r is Err,
        r is Ok ==> r->Ok_0@.len() == plaintext@.len() + TAG_LEN,
{
    let mut buf = vec![0u8; MAX_MESSAGE_LEN];
    let len = s.write_message(plaintext, &mut buf)?;
    buf.truncate(len);
    Ok(buf)
}

/// Relies on `snow::TransportState::read_message`: opens one sealed message
/// under the receiving key and the next nonce, failing when the tag does not
/// authenticate it. A message longer than the largest size, or shorter than
/// the tag, is refused; an opened one is its length less the tag.
#[verifier::external_body]
pub(crate) fn transport_read(s: &mut snow::TransportState, sealed: &[u8]) -> (r: Result<
    Vec<u8>,
    NoiseError,
>)
    ensures
        sealed@.len() > MAX_MESSAGE_LEN || sealed@.len() < TAG_LEN ==> r is Err,
        r is Ok ==> r->Ok_0@.len() + TAG_LEN == sealed@.len(),
{
    let mut buf = vec![0u8; MAX_MESSAGE_LEN];
    let len = s.read_message(sealed, &mut buf)?;
    buf.truncate(len);
    Ok(buf)
}

} // verus!
