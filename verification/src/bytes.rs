//! Byte sources and sinks held in memory, and the big-endian 32-bit numbers
//! that the format stores in them.

use crate::error::Error;
use byteorder::ByteOrder;
use vstd::prelude::*;

verus! {

/// The number that the first four bytes of `b` spell, most significant first.
pub open spec fn be_value(b: Seq<u8>) -> u32
    recommends
        b.len() >= 4,
{
    (b[0] as int * 0x100_0000 + b[1] as int * 0x1_0000 + b[2] as int * 0x100 + b[3] as int) as u32
}

/// The four bytes that spell `n`, most significant first.
pub open spec fn be_bytes(n: u32) -> Seq<u8> {
    seq![
        (n as int / 0x100_0000) as u8,
        (n as int / 0x1_0000 % 256) as u8,
        (n as int / 0x100 % 256) as u8,
        (n as int % 256) as u8,
    ]
}

/// Spelling a number and reading it back gives the number.
pub proof fn lemma_be_round_trip(n: u32)
    ensures
        be_bytes(n).len() == 4,
        be_value(be_bytes(n)) == n,
{
}

/// `byteorder::BigEndian::read_u32`: the first four bytes of `buf` read as one
/// number, most significant byte first. It panics on a shorter slice.
#[verifier::external_body]
fn read_be_u32(buf: &[u8]) -> (n: u32)
    requires
        buf@.len() >= 4,
    ensures
        n == be_value(buf@),
{
    byteorder::BigEndian::read_u32(buf)
}

/// `byteorder::BigEndian::write_u32`: the four bytes of `n`, most significant
/// first, written into a buffer of that length.
#[verifier::external_body]
fn write_be_u32(n: u32) -> (b: [u8; 4])
    ensures
        b@ == be_bytes(n),
{
    let mut b = [0u8; 4];
    byteorder::BigEndian::write_u32(&mut b, n);
    b
}

/// A byte source in memory. Its view is what has not been read yet.
#[derive(Debug)]
pub struct Source {
    bytes: Vec<u8>,
    pos: usize,
}

impl View for Source {
    type V = Seq<u8>;

    closed spec fn view(&self) -> Seq<u8> {
        self.bytes@.skip(self.pos as int)
    }
}

impl Source {
    #[verifier::type_invariant]
    spec fn inv(self) -> bool {
        self.pos <= self.bytes.len()
    }

    /// A source that will hand out `bytes` from the first on.
    pub fn new(bytes: Vec<u8>) -> (r: Self)
        ensures
            r@ == bytes@,
    {
        let r = Source { bytes, pos: 0 };
        assert(r.bytes@.skip(0) =~= r.bytes@);
        r
    }

    /// The bytes that have not been read.
    pub fn as_slice(&self) -> (s: &[u8])
        ensures
            s@ == self@,
    {
        proof {
            use_type_invariant(self);
        }
        let n = self.bytes.len();
        let s = &self.bytes.as_slice()[self.pos..n];
        assert(s@ =~= self@);
        s
    }

    /// Drops the next `n` bytes unread.
    pub fn advance(&mut self, n: usize)
        requires
            n <= old(self)@.len(),
        ensures
            final(self)@ == old(self)@.skip(n as int),
    {
        proof {
            use_type_invariant(&*self);
        }
        self.pos = self.pos + n;
        assert(self@ =~= old(self)@.skip(n as int));
    }

    /// Reads one byte. At the end of the source it fails and reads nothing.
    pub fn read_u8(&mut self) -> (r: Result<u8, Error>)
        ensures
            old(self)@.len() >= 1 ==> r == Ok::<u8, Error>(old(self)@[0]) && final(self)@ == old(self)@.skip(1),
            old(self)@.len() == 0 ==> r == Err::<u8, Error>(Error::UnexpectedEof) && final(self)@
                == old(self)@,
    {
        proof {
            use_type_invariant(&*self);
        }
        if self.pos < self.bytes.len() {
            let byte = self.bytes[self.pos];
            self.pos = self.pos + 1;
            assert(self@ =~= old(self)@.skip(1));
            Ok(byte)
        } else {
            Err(Error::UnexpectedEof)
        }
    }

    /// Reads a big-endian 32-bit number. Where fewer than four bytes are left
    /// it fails, and what was left is gone.
    pub fn read_u32_be(&mut self) -> (r: Result<u32, Error>)
        ensures
            old(self)@.len() >= 4 ==> r == Ok::<u32, Error>(be_value(old(self)@)) && final(self)@
                == old(self)@.skip(4),
            old(self)@.len() < 4 ==> r == Err::<u32, Error>(Error::UnexpectedEof) && final(self)@.len() == 0,
    {
        proof {
            use_type_invariant(&*self);
        }
        let n = self.bytes.len();
        if n - self.pos >= 4 {
            let value = read_be_u32(&self.bytes.as_slice()[self.pos..n]);
            self.pos = self.pos + 4;
            assert(self@ =~= old(self)@.skip(4));
            Ok(value)
        } else {
            self.pos = n;
            Err(Error::UnexpectedEof)
        }
    }
}

/// A byte sink in memory that takes bytes up to a limit. Its view is what has
/// been written.
#[derive(Debug)]
pub struct Sink {
    bytes: Vec<u8>,
    limit: usize,
}

impl View for Sink {
    type V = Seq<u8>;

    closed spec fn view(&self) -> Seq<u8> {
        self.bytes@
    }
}

impl Sink {
    /// The number of bytes that the sink holds at most.
    pub closed spec fn limit(&self) -> nat {
        self.limit as nat
    }

    /// The number of bytes that the sink still takes.
    pub open spec fn room(&self) -> int {
        if self@.len() <= self.limit() {
            self.limit() - self@.len()
        } else {
            0
        }
    }

    /// An empty sink that takes whatever memory can hold.
    pub fn new() -> (r: Self)
        ensures
            r@.len() == 0,
            r.limit() == usize::MAX,
    {
        Sink { bytes: Vec::new(), limit: usize::MAX }
    }

    /// An empty sink that takes `limit` bytes and no more.
    pub fn with_limit(limit: usize) -> (r: Self)
        ensures
            r@.len() == 0,
            r.limit() == limit,
    {
        Sink { bytes: Vec::new(), limit }
    }

    /// What has been written.
    pub fn as_slice(&self) -> (s: &[u8])
        ensures
            s@ == self@,
    {
        self.bytes.as_slice()
    }

    /// The sink's contents.
    pub fn into_bytes(self) -> (v: Vec<u8>)
        ensures
            v@ == self@,
    {
        self.bytes
    }

    /// Writes the longest prefix of `buf` that the sink has room for, and
    /// returns its length.
    pub fn write(&mut self, buf: &[u8]) -> (n: usize)
        ensures
            n == if buf@.len() <= old(self).room() {
                buf@.len() as int
            } else {
                old(self).room()
            },
            final(self)@ == old(self)@ + buf@.take(n as int),
            final(self).limit() == old(self).limit(),
    {
        let room = if self.bytes.len() <= self.limit {
            self.limit - self.bytes.len()
        } else {
            0
        };
        let n = if buf.len() <= room {
            buf.len()
        } else {
            room
        };
        self.bytes.extend_from_slice(&buf[0..n]);
        assert(self.bytes@ =~= old(self).bytes@ + buf@.take(n as int));
        n
    }

    /// Writes all of `buf`, or as much of it as there is room for and fails.
    pub fn write_all(&mut self, buf: &[u8]) -> (r: Result<(), Error>)
        ensures
            buf@.len() <= old(self).room() ==> r == Ok::<(), Error>(()) && final(self)@ == old(self)@ + buf@,
            buf@.len() > old(self).room() ==> r == Err::<(), Error>(Error::WriteZero) && final(self)@ == old(self)@ + buf@.take(old(self).room()),
            final(self).limit() == old(self).limit(),
    {
        let n = self.write(buf);
        if n == buf.len() {
            assert(buf@.take(n as int) =~= buf@);
            Ok(())
        } else {
            Err(Error::WriteZero)
        }
    }

    /// Writes one byte, if there is room for it.
    pub fn write_u8(&mut self, byte: u8) -> (r: Result<(), Error>)
        ensures
            old(self).room() >= 1 ==> r == Ok::<(), Error>(()) && final(self)@ == old(self)@.push(byte),
            old(self).room() < 1 ==> r == Err::<(), Error>(Error::WriteZero) && final(self)@
                == old(self)@,
            final(self).limit() == old(self).limit(),
    {
        if self.bytes.len() < self.limit {
            self.bytes.push(byte);
            Ok(())
        } else {
            Err(Error::WriteZero)
        }
    }

    /// Writes `n` as four bytes, most significant first, or as many of them
    /// as there is room for and fails.
    pub fn write_u32_be(&mut self, n: u32) -> (r: Result<(), Error>)
        ensures
            old(self).room() >= 4 ==> r == Ok::<(), Error>(()) && final(self)@ == old(self)@
                + be_bytes(n),
            old(self).room() < 4 ==> r == Err::<(), Error>(Error::WriteZero) && final(self)@
                == old(self)@ + be_bytes(n).take(old(self).room()),
            final(self).limit() == old(self).limit(),
    {
        let b = write_be_u32(n);
        self.write_all(b.as_slice())
    }

    /// Hands on what was written. A sink in memory has nothing to hand on.
    pub fn flush(&mut self) -> (r: Result<(), Error>)
        ensures
            r == Ok::<(), Error>(()),
            *final(self) == *old(self),
    {
        Ok(())
    }
}

} // verus!
