use vstd::prelude::*;

use crate::error::{Error, MessageError};
use crate::stream::ByteStream;

verus! {

/// The largest length a frame can carry: the all-ones length is reserved.
pub const MAX_FRAME_LEN: u32 = 0xffff_fffe;

/// The big-endian bytes of `n`.
pub open spec fn be_bytes(n: u32) -> Seq<u8> {
    seq![(n >> 24u32) as u8, (n >> 16u32) as u8, (n >> 8u32) as u8, n as u8]
}

/// The number whose big-endian bytes are `b0 b1 b2 b3`.
pub open spec fn be_value(b0: u8, b1: u8, b2: u8, b3: u8) -> u32 {
    ((b0 as u32) << 24u32) | ((b1 as u32) << 16u32) | ((b2 as u32) << 8u32) | (b3 as u32)
}

/// Whether `m` can be sent as one frame.
pub open spec fn frameable(m: Seq<u8>) -> bool {
    m.len() <= MAX_FRAME_LEN
}

/// The wire form of the frame that carries `m`: its length, big-endian on
/// four bytes, then `m`.
pub open spec fn frame_bytes(m: Seq<u8>) -> Seq<u8> {
    be_bytes(m.len() as u32) + m
}

/// The length that a frame whose first four bytes are `b` announces.
pub open spec fn announced_len(b: Seq<u8>) -> nat {
    be_value(b[0], b[1], b[2], b[3]) as nat
}

/// The frame at the front of `b`, if `b` holds a whole one: its payload and
/// the number of bytes it takes on the wire.
pub open spec fn parse_frame(b: Seq<u8>) -> Option<(Seq<u8>, nat)> {
    if b.len() < 4 || b.len() < 4 + announced_len(b) {
        None
    } else {
        Some((b.subrange(4, 4 + announced_len(b) as int), 4 + announced_len(b)))
    }
}

proof fn lemma_be_round_trip(n: u32)
    ensures
        be_value((n >> 24u32) as u8, (n >> 16u32) as u8, (n >> 8u32) as u8, n as u8) == n,
{
    assert(((((n >> 24u32) as u8) as u32) << 24u32) | ((((n >> 16u32) as u8) as u32) << 16u32)
        | ((((n >> 8u32) as u8) as u32) << 8u32) | ((n as u8) as u32) == n) by (bit_vector);
}

/// Decoding a frame gives back the message that was framed, whatever
/// follows it on the stream, and consumes exactly the frame.
pub proof fn lemma_frame_round_trip(m: Seq<u8>, rest: Seq<u8>)
    requires
        frameable(m),
    ensures
        parse_frame(frame_bytes(m) + rest) == Some((m, (4 + m.len()) as nat)),
{
    let b = frame_bytes(m) + rest;
    lemma_be_round_trip(m.len() as u32);
    assert(b[0] == be_bytes(m.len() as u32)[0]);
    assert(b[1] == be_bytes(m.len() as u32)[1]);
    assert(b[2] == be_bytes(m.len() as u32)[2]);
    assert(b[3] == be_bytes(m.len() as u32)[3]);
    assert(announced_len(b) == m.len());
    assert(b.subrange(4, 4 + m.len() as int) =~= m);
}

/// The frame that carries `message`, or `MessageTooLarge` when its length
/// does not fit below the reserved all-ones value.
pub fn encode_frame(message: &[u8]) -> (r: Result<Vec<u8>, MessageError>)
    ensures
        frameable(message@) <==> r is Ok,
        r is Ok ==> r->Ok_0@ == frame_bytes(message@),
        r is Err ==> r->Err_0 == MessageError::MessageTooLarge,
{
    if message.len() > MAX_FRAME_LEN as usize {
        return Err(MessageError::MessageTooLarge);
    }
    let n = message.len() as u32;
    let mut out: Vec<u8> = Vec::new();
    out.push((n >> 24u32) as u8);
    out.push((n >> 16u32) as u8);
    out.push((n >> 8u32) as u8);
    out.push(n as u8);
    out.extend_from_slice(message);
    assert(out@ =~= frame_bytes(message@));
    Ok(out)
}

/// The payload length announced by a frame's four-byte prefix.
pub fn decode_len(prefix: &[u8]) -> (r: u32)
    requires
        prefix@.len() == 4,
    ensures
        r as nat == announced_len(prefix@),
{
    ((prefix[0] as u32) << 24u32) | ((prefix[1] as u32) << 16u32) | ((prefix[2] as u32) << 8u32)
        | (prefix[3] as u32)
}

/// The first frame held in `buf`: its payload and the bytes it took, or
/// `None` when `buf` ends before the frame does.
pub fn decode_frame(buf: &[u8]) -> (r: Option<(Vec<u8>, usize)>)
    ensures
        r matches Some((m, used)) ==> parse_frame(buf@) == Some((m@, used as nat)),
        r is None ==> parse_frame(buf@) is None,
{
    if buf.len() < 4 {
        return None;
    }
    let n = decode_len(vstd::slice::slice_subrange(buf, 0, 4));
    proof {
        assert(buf@.subrange(0, 4)[0] == buf@[0]);
        assert(buf@.subrange(0, 4)[1] == buf@[1]);
        assert(buf@.subrange(0, 4)[2] == buf@[2]);
        assert(buf@.subrange(0, 4)[3] == buf@[3]);
    }
    if buf.len() - 4 < n as usize {
        return None;
    }
    let end = 4 + n as usize;
    let m = copy_range(buf, 4, end);
    Some((m, end))
}

/// A fresh vector holding `buf[start..end]`.
pub(crate) fn copy_range(buf: &[u8], start: usize, end: usize) -> (r: Vec<u8>)
    requires
        start <= end <= buf@.len(),
    ensures
        r@ == buf@.subrange(start as int, end as int),
{
    let mut r: Vec<u8> = Vec::new();
    r.extend_from_slice(vstd::slice::slice_subrange(buf, start, end));
    r
}

/// Reading the frame at the front of `before` yields `m` and leaves `after`.
pub open spec fn takes_frame(before: Seq<u8>, after: Seq<u8>, m: Seq<u8>) -> bool {
    parse_frame(before) matches Some((p, k)) && p == m && after == before.subrange(
        k as int,
        before.len() as int,
    )
}

/// Writes one framed message.
pub trait MessageWriter {
    fn write_message(&mut self, message: &[u8]) -> (r: Result<(), Error>);
}

/// Reads one framed message.
pub trait MessageReader {
    fn read_message(&mut self) -> (r: Result<Vec<u8>, Error>);
}

/// Every byte stream carries frames: the length prefix and the payload go
/// out in one write.
impl<T: ByteStream> MessageWriter for T {
    fn write_message(&mut self, message: &[u8]) -> (r: Result<(), Error>)
        ensures
            !frameable(message@) ==> r == Err::<(), Error>(Error::Message(MessageError::MessageTooLarge))
                && *final(self) == *old(self),
            frameable(message@) ==> (r is Err ==> r->Err_0 == Error::Io),
            r is Ok ==> final(self).written() == old(self).written() + frame_bytes(message@),
            final(self).unread() == old(self).unread(),
    {
        match encode_frame(message) {
            Err(e) => Err(Error::Message(e)),
            Ok(frame) => self.write_all(frame.as_slice()),
        }
    }
}

/// A frame is read as its four-byte prefix, then exactly the payload it
/// announces; what follows stays unread.
impl<T: ByteStream> MessageReader for T {
    fn read_message(&mut self) -> (r: Result<Vec<u8>, Error>)
        ensures
            r matches Ok(m) ==> takes_frame(old(self).unread(), final(self).unread(), m@)
                && frameable(m@),
            parse_frame(old(self).unread()) is None ==> r is Err,
            parse_frame(old(self).unread()) matches Some((p, k)) ==> (frameable(p) <==> r is Ok),
            r is Err ==> r->Err_0 == Error::Io || r->Err_0 == Error::Message(
                MessageError::MessageTooLarge,
            ),
            final(self).written() == old(self).written(),
    {
        let ghost before = self.unread();
        let prefix = self.read_exact(4)?;
        let n = decode_len(prefix.as_slice());
        proof {
            assert(before.len() >= 4);
            assert(before[0] == prefix@[0]);
            assert(before[1] == prefix@[1]);
            assert(before[2] == prefix@[2]);
            assert(before[3] == prefix@[3]);
            assert(announced_len(before) == n);
        }
        if n > MAX_FRAME_LEN {
            return Err(Error::Message(MessageError::MessageTooLarge));
        }
        let ghost mid = self.unread();
        let m = self.read_exact(n as usize);
        proof {
            assert(before =~= prefix@ + mid);
            if m is Ok {
                let v = m->Ok_0;
                assert(before.subrange(4, 4 + n as int) =~= v@);
                assert(before.subrange(4 + n as int, before.len() as int) =~= self.unread());
            }
        }
        m
    }
}

} // verus!
