use vstd::prelude::*;

use crate::error::Error;

verus! {

/// An ordered, reliable byte stream.
///
/// Its model is two byte strings: what has been written to it so far, and
/// what reads will still yield before the stream ends or fails. A read of
/// more than that fails; a failed read or write is never retried.
pub trait ByteStream {
    /// Every byte written so far.
    closed spec fn written(&self) -> Seq<u8> {
        Seq::empty()
    }

    /// The bytes that reads will still yield.
    closed spec fn unread(&self) -> Seq<u8> {
        Seq::empty()
    }

    /// Reads exactly `n` bytes.
    fn read_exact(&mut self, n: usize) -> (r: Result<Vec<u8>, Error>)
        ensures
            r is Ok <==> n <= old(self).unread().len(),
            r matches Ok(v) ==> v@.len() == n && old(self).unread() == v@ + final(self).unread(),
            r is Err ==> r->Err_0 == Error::Io,
            final(self).written() == old(self).written(),
    ;

    /// Writes all of `bytes`.
    fn write_all(&mut self, bytes: &[u8]) -> (r: Result<(), Error>)
        ensures
            r is Ok ==> final(self).written() == old(self).written() + bytes@,
            r is Err ==> r->Err_0 == Error::Io,
            final(self).unread() == old(self).unread(),
    ;
}

/// An in-memory stream end: reads take bytes from a fixed input, writes
/// collect into an output.
pub struct MemoryStream {
    input: Vec<u8>,
    pos: usize,
    output: Vec<u8>,
}

impl MemoryStream {
    pub closed spec fn wf(&self) -> bool {
        self.pos <= self.input@.len()
    }

    /// An empty stream.
    pub fn new() -> (r: MemoryStream)
        ensures
            r.wf(),
            r.written() == Seq::<u8>::empty(),
            r.unread() == Seq::<u8>::empty(),
    {
        MemoryStream { input: Vec::new(), pos: 0, output: Vec::new() }
    }

    /// A stream whose reads yield `bytes`.
    pub fn from_bytes(bytes: Vec<u8>) -> (r: MemoryStream)
        ensures
            r.wf(),
            r.written() == Seq::<u8>::empty(),
            r.unread() == bytes@,
    {
        let r = MemoryStream { input: bytes, pos: 0, output: Vec::new() };
        assert(r.unread() =~= bytes@);
        r
    }

    /// The bytes not read yet.
    pub fn unread_bytes(&self) -> (r: Vec<u8>)
        requires
            self.wf(),
        ensures
            r@ == self.unread(),
    {
        crate::message::copy_range(self.input.as_slice(), self.pos, self.input.len())
    }

    /// Every byte written so far.
    pub fn written_bytes(&self) -> (r: Vec<u8>)
        ensures
            r@ == self.written(),
    {
        self.output.clone()
    }
}

impl ByteStream for MemoryStream {
    closed spec fn written(&self) -> Seq<u8> {
        self.output@
    }

    closed spec fn unread(&self) -> Seq<u8> {
        if self.pos <= self.input@.len() {
            self.input@.subrange(self.pos as int, self.input@.len() as int)
        } else {
            Seq::empty()
        }
    }

    fn read_exact(&mut self, n: usize) -> (r: Result<Vec<u8>, Error>) {
        if self.pos > self.input.len() {
            self.pos = self.input.len();
            assert(self.unread() =~= old(self).unread());
        }
        if n > self.input.len() - self.pos {
            return Err(Error::Io);
        }
        let end = self.pos + n;
        let out = crate::message::copy_range(self.input.as_slice(), self.pos, end);
        proof {
            let u = self.input@.subrange(self.pos as int, self.input@.len() as int);
            assert(u =~= out@ + self.input@.subrange(end as int, self.input@.len() as int));
        }
        self.pos = end;
        Ok(out)
    }

    fn write_all(&mut self, bytes: &[u8]) -> (r: Result<(), Error>) {
        self.output.extend_from_slice(bytes);
        Ok(())
    }
}

} // verus!
