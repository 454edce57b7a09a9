use vstd::prelude::*;

use crate::error::Error;

verus! {

/// A bounded, position-tracking byte writer.
///
/// The writer accepts at most `cap` bytes; a write that does not fit fails
/// with [`Error::Eof`] and leaves the written bytes unchanged. The producer
/// hands one writer per enqueue to the payload-construction callback and
/// measures afterwards how many bytes were written.
pub struct ByteWriter {
    data: Vec<u8>,
    cap: usize,
}

impl View for ByteWriter {
    type V = Seq<u8>;

    /// The bytes written so far, in order.
    closed spec fn view(&self) -> Seq<u8> {
        self.data@
    }
}

impl ByteWriter {
    /// The fixed bound on how many bytes this writer accepts in total.
    pub closed spec fn cap_spec(&self) -> usize {
        self.cap
    }

    /// The written bytes never exceed the writer's bound.
    pub open spec fn wf(&self) -> bool {
        self@.len() <= self.cap_spec()
    }

    /// Creates an empty writer that accepts at most `cap` bytes.
    pub fn new(cap: usize) -> (r: ByteWriter)
        ensures
            r.wf(),
            r@ == Seq::<u8>::empty(),
            r.cap_spec() == cap,
    {
        ByteWriter { data: Vec::new(), cap }
    }

    /// How many more bytes fit before the bound is reached.
    pub fn space_left(&self) -> (r: usize)
        requires
            self.wf(),
        ensures
            r == self.cap_spec() - self@.len(),
    {
        self.cap - self.data.len()
    }

    /// Appends one byte, or fails with [`Error::Eof`] when the writer is full.
    pub fn write_u8(&mut self, b: u8) -> (r: Result<(), Error>)
        requires
            old(self).wf(),
        ensures
            final(self).wf(),
            final(self).cap_spec() == old(self).cap_spec(),
            old(self)@.len() < old(self).cap_spec() ==> r == Ok::<(), Error>(())
                && final(self)@ == old(self)@.push(b),
            old(self)@.len() >= old(self).cap_spec() ==> r == Err::<(), Error>(Error::Eof)
                && final(self)@ == old(self)@,
    {
        if self.data.len() < self.cap {
            self.data.push(b);
            Ok(())
        } else {
            Err(Error::Eof)
        }
    }

    /// Appends all of `s`, or fails with [`Error::Eof`] and writes nothing
    /// when `s` does not fit in the space that is left.
    pub fn write_slice(&mut self, s: &[u8]) -> (r: Result<(), Error>)
        requires
            old(self).wf(),
        ensures
            final(self).wf(),
            final(self).cap_spec() == old(self).cap_spec(),
            old(self)@.len() + s@.len() <= old(self).cap_spec() ==> r == Ok::<(), Error>(())
                && final(self)@ == old(self)@ + s@,
            old(self)@.len() + s@.len() > old(self).cap_spec() ==> r == Err::<(), Error>(Error::Eof)
                && final(self)@ == old(self)@,
    {
        if s.len() > self.cap - self.data.len() {
            return Err(Error::Eof);
        }
        let mut i: usize = 0;
        while i < s.len()
            invariant
                i <= s@.len(),
                self@ == old(self)@ + s@.take(i as int),
                self.cap_spec() == old(self).cap_spec(),
                old(self)@.len() + s@.len() <= self.cap_spec(),
            decreases s@.len() - i,
        {
            self.data.push(s[i]);
            i += 1;
            proof {
                assert(s@.take(i as int) == s@.take(i - 1).push(s@[i - 1]));
            }
        }
        proof {
            assert(s@.take(s@.len() as int) == s@);
        }
        Ok(())
    }

    /// Hands the written bytes out, consuming the writer.
    pub fn into_vec(self) -> (r: Vec<u8>)
        ensures
            r@ == self@,
    {
        self.data
    }
}

/// A bounded byte reader over a fully-formed PDU buffer.
///
/// Fixed-size reads past the end fail with [`Error::Eof`]; slice reads are
/// bounds-checked and fail distinctly, with [`Error::InvalidLength`], so that
/// a malformed payload length surfaces as an error and never as an
/// out-of-range access.
pub struct ByteReader {
    data: Vec<u8>,
    pos: usize,
}

impl ByteReader {
    /// The bytes not yet read, in order.
    pub closed spec fn remaining(&self) -> Seq<u8> {
        self.data@.skip(self.pos as int)
    }

    /// The read position never passes the end of the buffer.
    pub closed spec fn wf(&self) -> bool {
        self.pos <= self.data@.len()
    }

    /// Creates a reader over the given bytes.
    pub fn new(data: Vec<u8>) -> (r: ByteReader)
        ensures
            r.wf(),
            r.remaining() == data@,
    {
        let r = ByteReader { data, pos: 0 };
        proof {
            assert(r.remaining() =~= r.data@);
        }
        r
    }

    /// How many bytes are left to read.
    pub fn bytes_left(&self) -> (r: usize)
        requires
            self.wf(),
        ensures
            r == self.remaining().len(),
    {
        self.data.len() - self.pos
    }

    /// Reads the next byte, or fails with [`Error::Eof`] at the end.
    pub fn read_u8(&mut self) -> (r: Result<u8, Error>)
        requires
            old(self).wf(),
        ensures
            final(self).wf(),
            old(self).remaining().len() > 0 ==> r == Ok::<u8, Error>(old(self).remaining()[0])
                && final(self).remaining() == old(self).remaining().skip(1),
            old(self).remaining().len() == 0 ==> r == Err::<u8, Error>(Error::Eof)
                && final(self).remaining() == old(self).remaining(),
    {
        if self.pos < self.data.len() {
            let b = self.data[self.pos];
            self.pos += 1;
            proof {
                assert(self.remaining() =~= old(self).remaining().skip(1));
            }
            Ok(b)
        } else {
            Err(Error::Eof)
        }
    }

    /// Reads the next `n` bytes as an owned vector. Fails with
    /// [`Error::InvalidLength`], reading nothing, when fewer than `n` bytes
    /// are left.
    pub fn read_vec(&mut self, n: usize) -> (r: Result<Vec<u8>, Error>)
        requires
            old(self).wf(),
        ensures
            final(self).wf(),
            n <= old(self).remaining().len() ==> (r matches Ok(v) && v@ == old(self).remaining().take(n as int))
                && final(self).remaining() == old(self).remaining().skip(n as int),
            n > old(self).remaining().len() ==> r == Err::<Vec<u8>, Error>(Error::InvalidLength)
                && final(self).remaining() == old(self).remaining(),
    {
        if n > self.data.len() - self.pos {
            return Err(Error::InvalidLength);
        }
        let mut out: Vec<u8> = Vec::new();
        let mut i: usize = 0;
        while i < n
            invariant
                i <= n,
                n <= old(self).remaining().len(),
                self.wf(),
                out@ == old(self).remaining().take(i as int),
                self.remaining() == old(self).remaining().skip(i as int),
            decreases n - i,
        {
            match self.read_u8() {
                Ok(b) => out.push(b),
                Err(_) => proof {
                    assert(false);
                },
            }
            i += 1;
            proof {
                assert(old(self).remaining().take(i as int) =~= old(self).remaining().take(
                    i - 1,
                ).push(old(self).remaining()[i - 1]));
                assert(old(self).remaining().skip(i - 1).skip(1) =~= old(self).remaining().skip(
                    i as int,
                ));
            }
        }
        proof {
            assert(out@ =~= old(self).remaining().take(n as int));
        }
        Ok(out)
    }
}

} // verus!
