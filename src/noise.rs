use vstd::prelude::*;

use crate::crypto::{transport_read, transport_write, MAX_MESSAGE_LEN, TAG_LEN};
use crate::error::Error;
use crate::error::MessageError;
use crate::message::{
    copy_range, frame_bytes, frameable, lemma_frame_round_trip, parse_frame, takes_frame,
    MessageReader, MessageWriter, MAX_FRAME_LEN,
};
use crate::noise_pattern::Session;
use crate::stream::ByteStream;

verus! {

/// The most plaintext that one sealed message carries: the largest Noise
/// message less its authentication tag.
pub const PLAIN_CHUNK: usize = 65519;

/// `b` cut, front to back, into pieces of `size` bytes, the last of which
/// may be shorter. An empty `b` has no pieces.
pub open spec fn chunks(b: Seq<u8>, size: nat) -> Seq<Seq<u8>>
    decreases b.len(),
{
    if b.len() == 0 || size == 0 {
        Seq::empty()
    } else if b.len() <= size {
        seq![b]
    } else {
        seq![b.subrange(0, size as int)] + chunks(b.subrange(size as int, b.len() as int), size)
    }
}

/// The pieces of `s` joined in order.
pub open spec fn concat(s: Seq<Seq<u8>>) -> Seq<u8>
    decreases s.len(),
{
    if s.len() == 0 {
        Seq::empty()
    } else {
        concat(s.drop_last()) + s.last()
    }
}

/// `sealed` holds one sealed message per piece of `plain`, each the piece's
/// length plus the tag.
pub open spec fn sealed_shape(sealed: Seq<Seq<u8>>, plain: Seq<Seq<u8>>) -> bool {
    &&& sealed.len() == plain.len()
    &&& forall|k: int| 0 <= k < sealed.len() ==> #[trigger] sealed[k].len() == plain[k].len() + TAG_LEN
}

proof fn lemma_concat_single(a: Seq<u8>)
    ensures
        concat(seq![a]) == a,
{
    let s = seq![a];
    assert(s.drop_last() =~= Seq::<Seq<u8>>::empty());
    assert(concat(s.drop_last()) =~= Seq::<u8>::empty());
    assert(s.last() == a);
    assert(concat(s) =~= a);
}

proof fn lemma_concat_front(a: Seq<u8>, s: Seq<Seq<u8>>)
    ensures
        concat(seq![a] + s) == a + concat(s),
    decreases s.len(),
{
    if s.len() == 0 {
        assert(seq![a] + s =~= seq![a]);
        lemma_concat_single(a);
        assert(a + concat(s) =~= a);
    } else {
        lemma_concat_front(a, s.drop_last());
        assert((seq![a] + s).drop_last() =~= seq![a] + s.drop_last());
        assert(a + concat(s) =~= a + concat(s.drop_last()) + s.last());
    }
}

/// Cutting a byte string into pieces and joining them gives it back.
pub proof fn lemma_chunks_concat(b: Seq<u8>, size: nat)
    requires
        size > 0,
    ensures
        concat(chunks(b, size)) == b,
    decreases b.len(),
{
    if b.len() == 0 {
        assert(concat(chunks(b, size)) =~= b);
    } else if b.len() <= size {
        lemma_concat_single(b);
    } else {
        let rest = b.subrange(size as int, b.len() as int);
        lemma_chunks_concat(rest, size);
        lemma_concat_front(b.subrange(0, size as int), chunks(rest, size));
        assert(b.subrange(0, size as int) + rest =~= b);
    }
}

/// A record sealed piece by piece, when cut into pieces of the largest
/// message size, falls apart into exactly the sealed messages it was made
/// of: the reader opens the same units the writer sealed.
pub proof fn lemma_sealed_record_splits_back(plain: Seq<u8>, sealed: Seq<Seq<u8>>)
    requires
        sealed_shape(sealed, chunks(plain, PLAIN_CHUNK as nat)),
    ensures
        chunks(concat(sealed), MAX_MESSAGE_LEN as nat) == sealed,
    decreases plain.len(),
{
    let pc = chunks(plain, PLAIN_CHUNK as nat);
    if plain.len() == 0 {
        assert(sealed =~= Seq::<Seq<u8>>::empty());
    } else if plain.len() <= PLAIN_CHUNK {
        assert(sealed.len() == 1);
        assert(sealed[0].len() == plain.len() + TAG_LEN);
        assert(sealed =~= seq![sealed[0]]);
        lemma_concat_single(sealed[0]);
    } else {
        let rest = plain.subrange(PLAIN_CHUNK as int, plain.len() as int);
        let tail = sealed.subrange(1, sealed.len() as int);
        assert(pc == seq![plain.subrange(0, PLAIN_CHUNK as int)] + chunks(rest, PLAIN_CHUNK as nat));
        assert(sealed_shape(tail, chunks(rest, PLAIN_CHUNK as nat))) by {
            assert forall|k: int| 0 <= k < tail.len() implies #[trigger] tail[k].len() == chunks(
                rest,
                PLAIN_CHUNK as nat,
            )[k].len() + TAG_LEN by {
                assert(tail[k] == sealed[k + 1]);
                assert(pc[k + 1] == chunks(rest, PLAIN_CHUNK as nat)[k]);
            }
        }
        lemma_sealed_record_splits_back(rest, tail);
        assert(sealed =~= seq![sealed[0]] + tail);
        lemma_concat_front(sealed[0], tail);
        let whole = concat(sealed);
        assert(sealed[0].len() == MAX_MESSAGE_LEN);
        assert(whole.len() > MAX_MESSAGE_LEN) by {
            assert(rest.len() > 0);
            assert(tail.len() > 0);
            assert(tail[0].len() >= TAG_LEN);
            lemma_concat_len_ge(tail, 0);
        }
        assert(whole.subrange(0, MAX_MESSAGE_LEN as int) =~= sealed[0]);
        assert(whole.subrange(MAX_MESSAGE_LEN as int, whole.len() as int) =~= concat(tail));
    }
}

proof fn lemma_concat_len_ge(s: Seq<Seq<u8>>, k: int)
    requires
        0 <= k < s.len(),
    ensures
        concat(s).len() >= s[k].len(),
    decreases s.len(),
{
    if k < s.len() - 1 {
        lemma_concat_len_ge(s.drop_last(), k);
    }
}

/// The transport phase of a session: a sending and a receiving key, each
/// with its own nonce counter.
pub struct Transport {
    state: snow::TransportState,
}

impl Transport {
    pub(crate) fn new(state: snow::TransportState) -> (r: Transport) {
        Transport { state }
    }

    /// Seals `plaintext` as one record: cut into pieces of at most
    /// `PLAIN_CHUNK` bytes, each sealed on its own under the next nonce, the
    /// sealed messages joined in order. Fails when the engine refuses a
    /// piece.
    pub fn seal(&mut self, plaintext: &[u8]) -> (r: Result<Vec<u8>, Error>)
        ensures
            plaintext@.len() == 0 ==> r is Ok && r->Ok_0@.len() == 0,
            r is Err ==> r->Err_0 == Error::Crypto,
            r is Ok ==> exists|sealed: Seq<Seq<u8>>|
                #![trigger concat(sealed)]
                sealed_shape(sealed, chunks(plaintext@, PLAIN_CHUNK as nat)) && r->Ok_0@
                    == concat(sealed),
    {
        let ghost all = chunks(plaintext@, PLAIN_CHUNK as nat);
        let ghost mut done: Seq<Seq<u8>> = Seq::empty();
        let ghost mut sealed: Seq<Seq<u8>> = Seq::empty();
        let mut out: Vec<u8> = Vec::new();
        let n = plaintext.len();
        let mut i: usize = 0;
        proof {
            assert(plaintext@.subrange(0, n as int) =~= plaintext@);
            assert(all =~= done + all);
        }
        while i < n
            invariant
                n == plaintext@.len(),
                i <= n,
                all == chunks(plaintext@, PLAIN_CHUNK as nat),
                all == done + chunks(plaintext@.subrange(i as int, n as int), PLAIN_CHUNK as nat),
                sealed_shape(sealed, done),
                out@ == concat(sealed),
            decreases n - i,
        {
            let end = if n - i <= PLAIN_CHUNK { n } else { i + PLAIN_CHUNK };
            let piece = copy_range(plaintext, i, end);
            let s = match transport_write(&mut self.state, piece.as_slice()) {
                Ok(s) => s,
                Err(_) => return Err(Error::Crypto),
            };
            proof {
                let rest = plaintext@.subrange(i as int, n as int);
                let after = plaintext@.subrange(end as int, n as int);
                if end == n {
                    assert(rest =~= piece@);
                    assert(after =~= Seq::<u8>::empty());
                    assert(chunks(rest, PLAIN_CHUNK as nat) =~= seq![piece@]);
                } else {
                    assert(rest.subrange(0, PLAIN_CHUNK as int) =~= piece@);
                    assert(rest.subrange(PLAIN_CHUNK as int, rest.len() as int) =~= after);
                }
                assert(chunks(rest, PLAIN_CHUNK as nat) =~= seq![piece@] + chunks(
                    after,
                    PLAIN_CHUNK as nat,
                ));
                assert(all =~= done.push(piece@) + chunks(after, PLAIN_CHUNK as nat));
                let sealed2 = sealed.push(s@);
                assert(sealed2.drop_last() =~= sealed);
                assert(sealed_shape(sealed2, done.push(piece@))) by {
                    assert forall|k: int| 0 <= k < sealed2.len() implies #[trigger] sealed2[k].len()
                        == done.push(piece@)[k].len() + TAG_LEN by {
                        if k < sealed.len() {
                            assert(sealed2[k] == sealed[k]);
                        }
                    }
                }
                done = done.push(piece@);
                sealed = sealed2;
            }
            out.extend_from_slice(s.as_slice());
            i = end;
        }
        proof {
            assert(plaintext@.subrange(n as int, n as int) =~= Seq::<u8>::empty());
            assert(all =~= done);
        }
        Ok(out)
    }

    /// Opens one record: cut into pieces of the largest message size, each
    /// opened in order under the next nonce, the plaintexts joined. Any
    /// piece that fails to authenticate fails the whole record.
    pub fn open(&mut self, record: &[u8]) -> (r: Result<Vec<u8>, Error>)
        ensures
            record@.len() == 0 ==> r is Ok && r->Ok_0@.len() == 0,
            r is Err ==> r->Err_0 == Error::Crypto,
            r is Ok ==> exists|opened: Seq<Seq<u8>>|
                #![trigger concat(opened)]
                sealed_shape(chunks(record@, MAX_MESSAGE_LEN as nat), opened) && r->Ok_0@
                    == concat(opened),
    {
        let ghost all = chunks(record@, MAX_MESSAGE_LEN as nat);
        let ghost mut done: Seq<Seq<u8>> = Seq::empty();
        let ghost mut opened: Seq<Seq<u8>> = Seq::empty();
        let mut out: Vec<u8> = Vec::new();
        let n = record.len();
        let mut i: usize = 0;
        proof {
            assert(record@.subrange(0, n as int) =~= record@);
            assert(all =~= done + all);
        }
        while i < n
            invariant
                n == record@.len(),
                i <= n,
                all == chunks(record@, MAX_MESSAGE_LEN as nat),
                all == done + chunks(record@.subrange(i as int, n as int), MAX_MESSAGE_LEN as nat),
                sealed_shape(done, opened),
                out@ == concat(opened),
            decreases n - i,
        {
            let end = if n - i <= MAX_MESSAGE_LEN { n } else { i + MAX_MESSAGE_LEN };
            let piece = copy_range(record, i, end);
            let p = match transport_read(&mut self.state, piece.as_slice()) {
                Ok(p) => p,
                Err(_) => return Err(Error::Crypto),
            };
            proof {
                let rest = record@.subrange(i as int, n as int);
                let after = record@.subrange(end as int, n as int);
                if end == n {
                    assert(rest =~= piece@);
                    assert(after =~= Seq::<u8>::empty());
                    assert(chunks(rest, MAX_MESSAGE_LEN as nat) =~= seq![piece@]);
                } else {
                    assert(rest.subrange(0, MAX_MESSAGE_LEN as int) =~= piece@);
                    assert(rest.subrange(MAX_MESSAGE_LEN as int, rest.len() as int) =~= after);
                }
                assert(chunks(rest, MAX_MESSAGE_LEN as nat) =~= seq![piece@] + chunks(
                    after,
                    MAX_MESSAGE_LEN as nat,
                ));
                assert(all =~= done.push(piece@) + chunks(after, MAX_MESSAGE_LEN as nat));
                let opened2 = opened.push(p@);
                assert(opened2.drop_last() =~= opened);
                assert(sealed_shape(done.push(piece@), opened2)) by {
                    assert forall|k: int| 0 <= k < opened2.len() implies #[trigger] done.push(
                        piece@,
                    )[k].len() == opened2[k].len() + TAG_LEN by {
                        if k < opened.len() {
                            assert(opened2[k] == opened[k]);
                        }
                    }
                }
                done = done.push(piece@);
                opened = opened2;
            }
            out.extend_from_slice(p.as_slice());
            i = end;
        }
        proof {
            assert(record@.subrange(n as int, n as int) =~= Seq::<u8>::empty());
            assert(all =~= done);
        }
        Ok(out)
    }
}

/// The length of a record sealed from `n` plaintext bytes of which the
/// pieces are `pieces`: each piece gains a tag.
pub open spec fn sealed_len(n: nat, pieces: nat) -> nat {
    n + (TAG_LEN as nat) * pieces
}

/// `p` is what opening `record` piece by piece gave: one plaintext per
/// sealed unit of the largest message size, joined in order.
pub open spec fn opened_from(record: Seq<u8>, p: Seq<u8>) -> bool {
    exists|opened: Seq<Seq<u8>>|
        #![trigger concat(opened)]
        sealed_shape(chunks(record, MAX_MESSAGE_LEN as nat), opened) && p == concat(opened)
}

/// `record` is `plaintext` sealed piece by piece and joined.
pub open spec fn sealed_from(plaintext: Seq<u8>, record: Seq<u8>) -> bool {
    exists|sealed: Seq<Seq<u8>>|
        #![trigger concat(sealed)]
        sealed_shape(sealed, chunks(plaintext, PLAIN_CHUNK as nat)) && record == concat(sealed)
}

proof fn lemma_shape_len(sealed: Seq<Seq<u8>>, plain: Seq<Seq<u8>>)
    requires
        sealed_shape(sealed, plain),
    ensures
        concat(sealed).len() == concat(plain).len() + TAG_LEN * plain.len(),
    decreases sealed.len(),
{
    if sealed.len() > 0 {
        let (s0, p0) = (sealed.drop_last(), plain.drop_last());
        assert(sealed_shape(s0, p0)) by {
            assert forall|k: int| 0 <= k < s0.len() implies #[trigger] s0[k].len() == p0[k].len()
                + TAG_LEN by {
                assert(s0[k] == sealed[k]);
                assert(p0[k] == plain[k]);
            }
        }
        lemma_shape_len(s0, p0);
        assert(sealed.last().len() == plain.last().len() + TAG_LEN);
    }
}

/// A sealed record is as long as its plaintext plus one tag per piece.
pub proof fn lemma_sealed_len(plaintext: Seq<u8>, record: Seq<u8>)
    requires
        sealed_from(plaintext, record),
    ensures
        record.len() == sealed_len(plaintext.len(), chunks(plaintext, PLAIN_CHUNK as nat).len()),
{
    let sealed = choose|sealed: Seq<Seq<u8>>|
        #![trigger concat(sealed)]
        sealed_shape(sealed, chunks(plaintext, PLAIN_CHUNK as nat)) && record == concat(sealed);
    lemma_shape_len(sealed, chunks(plaintext, PLAIN_CHUNK as nat));
    lemma_chunks_concat(plaintext, PLAIN_CHUNK as nat);
}

/// What a sender puts on the stream for one record, the receiver takes
/// back off it whole: the frame yields exactly the sealed record, whatever
/// follows, and the record falls apart into exactly the units that were
/// sealed, so each is opened under the key and nonce it was sealed with.
pub proof fn lemma_record_frames_back(
    plaintext: Seq<u8>,
    sealed: Seq<Seq<u8>>,
    rest: Seq<u8>,
)
    requires
        sealed_shape(sealed, chunks(plaintext, PLAIN_CHUNK as nat)),
        frameable(concat(sealed)),
    ensures
        takes_frame(frame_bytes(concat(sealed)) + rest, rest, concat(sealed)),
        chunks(concat(sealed), MAX_MESSAGE_LEN as nat) == sealed,
{
    let c = concat(sealed);
    lemma_frame_round_trip(c, rest);
    let b = frame_bytes(c) + rest;
    assert(frame_bytes(c).len() == 4 + c.len());
    assert(b.subrange(4 + c.len() as int, b.len() as int) =~= rest);
    assert(parse_frame(b) == Some((c, (4 + c.len()) as nat)));
    lemma_sealed_record_splits_back(plaintext, sealed);
}

/// An encrypted record channel: a byte stream that carries one sealed
/// record per frame, over a session in its transport phase.
pub struct Noise<S> {
    stream: S,
    noise: Transport,
}

impl<S> Noise<S> {
    /// The underlying stream.
    pub closed spec fn spec_stream(&self) -> S {
        self.stream
    }
}

impl<S: ByteStream> Noise<S> {
    /// The channel over `stream` for a session in its transport phase.
    pub fn from(noise: Session, stream: S) -> (r: Noise<S>)
        requires
            noise.spec_is_transport(),
        ensures
            r.spec_stream() == stream,
    {
        match noise.transport() {
            Some(t) => Noise { stream, noise: t },
            None => vstd::pervasive::unreached(),
        }
    }

    /// The underlying stream.
    pub fn get_ref(&self) -> (r: &S)
        ensures
            *r == self.spec_stream(),
    {
        &self.stream
    }

    /// The underlying stream, giving up the session.
    pub fn into_inner(self) -> (r: S)
        ensures
            r == self.spec_stream(),
    {
        self.stream
    }
}

/// Sends `message` as one record: sealed piece by piece, then written as
/// one frame. Nothing is written when sealing fails.
impl<S: ByteStream> MessageWriter for Noise<S> {
    fn write_message(&mut self, message: &[u8]) -> (r: Result<(), Error>)
        ensures
            r is Ok ==> exists|record: Seq<u8>|
                #![trigger frame_bytes(record)]
                sealed_from(message@, record) && frameable(record) && final(self).spec_stream().written()
                    == old(self).spec_stream().written() + frame_bytes(record),
            r == Err::<(), Error>(Error::Crypto) ==> final(self).spec_stream().written() == old(
                self,
            ).spec_stream().written(),
            r == Err::<(), Error>(Error::Message(MessageError::MessageTooLarge)) <==> r is Err
                && r->Err_0 != Error::Crypto && r->Err_0 != Error::Io,
            r == Err::<(), Error>(Error::Message(MessageError::MessageTooLarge)) ==> sealed_len(
                message@.len(),
                chunks(message@, PLAIN_CHUNK as nat).len(),
            ) > MAX_FRAME_LEN,
            sealed_len(message@.len(), chunks(message@, PLAIN_CHUNK as nat).len()) > MAX_FRAME_LEN
                ==> r is Err,
            r is Err ==> r->Err_0 == Error::Crypto || r->Err_0 == Error::Io || r->Err_0
                == Error::Message(MessageError::MessageTooLarge),
            final(self).spec_stream().unread() == old(self).spec_stream().unread(),
    {
        let sealed = self.noise.seal(message)?;
        proof {
            lemma_sealed_len(message@, sealed@);
        }
        self.stream.write_message(sealed.as_slice())
    }
}

/// Receives one record: one frame, opened piece by piece. Any piece that
/// fails to authenticate fails the whole record.
impl<S: ByteStream> MessageReader for Noise<S> {
    fn read_message(&mut self) -> (r: Result<Vec<u8>, Error>)
        ensures
            r matches Ok(p) ==> exists|record: Seq<u8>|
                #![trigger opened_from(record, p@)]
                takes_frame(old(self).spec_stream().unread(), final(self).spec_stream().unread(), record)
                    && opened_from(record, p@),
            parse_frame(old(self).spec_stream().unread()) is None ==> r is Err,
            parse_frame(old(self).spec_stream().unread()) matches Some((rec, k)) ==> (rec.len() == 0
                ==> r is Ok && r->Ok_0@.len() == 0),
            final(self).spec_stream().written() == old(self).spec_stream().written(),
    {
        let record = self.stream.read_message()?;
        let p = self.noise.open(record.as_slice())?;
        assert(opened_from(record@, p@));
        Ok(p)
    }
}

} // verus!
