//! Reading a ZLIB stream: the header, the decompressed data, and the check
//! of the trailer at the end.

use crate::bytes::{be_value, Source};
use crate::checksum::{adler32, fold, lemma_fold_concat, Adler32};
use crate::deflate::{fault, run, Inflater};
use crate::error::Error;
use crate::header::{parse, Header};
use vstd::prelude::*;

verus! {

/// What the check of the trailer comes to, when `source` is what follows the
/// compressed data and `checksum` is that of the data that was read: the
/// trailer is the next four bytes, a big-endian number, and has to be the
/// checksum.
pub open spec fn check_trailer(source: Seq<u8>, checksum: u32) -> Result<usize, Error> {
    if source.len() < 4 {
        Err(Error::UnexpectedEof)
    } else if be_value(source) != checksum {
        Err(Error::ChecksumMismatch { value: checksum, expected: be_value(source) })
    } else {
        Ok(0)
    }
}

/// What is left of `source` once the trailer was read from it, or was found
/// to be cut short.
pub open spec fn behind_trailer(source: Seq<u8>) -> Seq<u8> {
    if source.len() >= 4 {
        source.skip(4)
    } else {
        Seq::<u8>::empty()
    }
}

/// What decoding a whole stream comes to: the error of a header that does
/// not read; the fault of the engine's run over what follows the header;
/// the error of the trailer, which stands behind what the engine read and
/// is held against the checksum of the data; or else the data.
pub open spec fn decoded(stream: Seq<u8>) -> Result<Seq<u8>, Error> {
    match parse(stream).0 {
        Err(e) => Err(e),
        Ok(_) => {
            let rest = stream.skip(2);
            let (step, data) = run(rest);
            match fault(step) {
                Some(e) => Err(e),
                None => match check_trailer(rest.skip(step.consumed as int), adler32(data)) {
                    Err(e) => Err(e),
                    Ok(_) => Ok(data),
                },
            }
        },
    }
}

/// A reader of the data in a ZLIB stream.
///
/// It is active until the decompressing stream below it yields no byte; then
/// it checks the trailer, once, and is at its end for good.
pub struct Decoder {
    header: Header,
    reader: Inflater,
    adler32: Adler32,
    eos: bool,
}

impl Decoder {
    /// The header that the stream began with.
    pub closed spec fn spec_header(&self) -> Header {
        self.header
    }

    /// The decompressing stream below the decoder.
    pub closed spec fn reader(&self) -> Inflater {
        self.reader
    }

    /// What has not been read from the source.
    pub open spec fn source(&self) -> Seq<u8> {
        self.reader().source()
    }

    /// The checksum of the data that was read so far.
    pub closed spec fn checksum(&self) -> u32 {
        self.adler32@
    }

    /// Whether the decoder is at its end.
    pub closed spec fn at_end(&self) -> bool {
        self.eos
    }

    /// Reads the header off the front of `inner` and stands ready to read
    /// the data behind it. It fails as reading the header fails, and then
    /// hands back the source, which has lost the bytes that it took to find
    /// the fault, no more.
    pub fn try_new(inner: Source) -> (r: Result<Decoder, (Error, Source)>)
        ensures
            match parse(inner@).0 {
                Err(e) => r matches Err(failed) && failed.0 == e && failed.1@ == inner@.skip(
                    parse(inner@).1 as int,
                ),
                Ok(h) => r matches Ok(d) && d.spec_header() == h && d.source() == inner@.skip(2)
                    && d.checksum() == adler32(Seq::<u8>::empty()) && !d.at_end()
                    && !d.reader().opened(),
            },
    {
        let mut inner = inner;
        let header = match Header::read_from(&mut inner) {
            Ok(h) => h,
            Err(e) => {
                return Err((e, inner));
            },
        };
        Ok(Decoder { header, reader: Inflater::new(inner), adler32: Adler32::new(), eos: false })
    }

    /// As `try_new`, with the error alone where the header does not read.
    pub fn new(inner: Source) -> (r: Result<Decoder, Error>)
        ensures
            match parse(inner@).0 {
                Err(e) => r matches Err(f) && f == e,
                Ok(h) => r matches Ok(d) && d.spec_header() == h && d.source() == inner@.skip(2)
                    && d.checksum() == adler32(Seq::<u8>::empty()) && !d.at_end()
                    && !d.reader().opened(),
            },
    {
        match Self::try_new(inner) {
            Ok(d) => Ok(d),
            Err(failed) => Err(failed.0),
        }
    }

    /// The header that the stream began with.
    pub fn header(&self) -> (h: &Header)
        ensures
            *h == self.spec_header(),
    {
        &self.header
    }

    /// The source, as far as it has not been read.
    pub fn into_inner(self) -> (inner: Source)
        ensures
            inner@ == self.source(),
    {
        self.reader.into_inner()
    }

    /// What an active decoder makes of one read of the stream below it,
    /// which put `inner` bytes into the front of `buf` or failed.
    ///
    /// A failure is handed on. Bytes are added to the checksum and counted.
    /// No byte means the end: the decoder reads the trailer from the source
    /// and holds it against the checksum. A decoder at its end does nothing.
    pub fn after_inner_read(&mut self, buf: &[u8], inner: Result<usize, Error>) -> (r: Result<
        usize,
        Error,
    >)
        requires
            inner matches Ok(n) ==> n <= buf@.len(),
        ensures
            final(self).spec_header() == old(self).spec_header(),
            final(self).reader().opened() == old(self).reader().opened(),
            final(self).reader().pending() == old(self).reader().pending(),
            old(self).at_end() ==> r == Ok::<usize, Error>(0) && *final(self) == *old(self),
            !old(self).at_end() ==> match inner {
                Err(e) => r == Err::<usize, Error>(e) && *final(self) == *old(self),
                Ok(n) => if n > 0 {
                    &&& r == Ok::<usize, Error>(n)
                    &&& !final(self).at_end()
                    &&& final(self).checksum() == fold(old(self).checksum(), buf@.take(n as int))
                    &&& final(self).source() == old(self).source()
                } else {
                    &&& r == check_trailer(old(self).source(), old(self).checksum())
                    &&& final(self).at_end()
                    &&& final(self).checksum() == old(self).checksum()
                    &&& final(self).source() == behind_trailer(old(self).source())
                },
            },
    {
        if self.eos {
            return Ok(0);
        }
        let read_size = match inner {
            Ok(n) => n,
            Err(e) => {
                return Err(e);
            },
        };
        if read_size == 0 {
            self.eos = true;
            let expected = match self.reader.read_u32_be() {
                Ok(n) => n,
                Err(e) => {
                    assert(self.reader.source() =~= Seq::<u8>::empty());
                    return Err(e);
                },
            };
            let value = self.adler32.value();
            if expected != value {
                Err(Error::ChecksumMismatch { value, expected })
            } else {
                Ok(0)
            }
        } else {
            self.adler32.update(&buf[0..read_size]);
            Ok(read_size)
        }
    }

    /// Reads decompressed data into the front of `buf` and returns how many
    /// bytes it put there.
    ///
    /// A decoder at its end returns 0 and touches nothing. An active one
    /// asks the stream below it. Where that stream fails, the decoder fails
    /// with it and stays as it is. Where it hands out data, they go into the
    /// checksum and the decoder stays active. Where it hands out none, for
    /// an empty `buf` or at the end of the data, the decoder is at its end
    /// and the check of the trailer decides.
    pub fn read(&mut self, buf: &mut [u8]) -> (r: Result<usize, Error>)
        ensures
            final(buf)@.len() == old(buf)@.len(),
            final(self).spec_header() == old(self).spec_header(),
            old(self).at_end() ==> r == Ok::<usize, Error>(0) && *final(self) == *old(self)
                && final(buf)@ == old(buf)@,
            !old(self).at_end() && old(buf)@.len() == 0 ==> {
                &&& r == check_trailer(old(self).source(), old(self).checksum())
                &&& final(self).at_end()
                &&& final(buf)@ == old(buf)@
                &&& final(self).source() == behind_trailer(old(self).source())
                &&& final(self).checksum() == old(self).checksum()
                &&& final(self).reader().opened() == old(self).reader().opened()
                &&& final(self).reader().pending() == old(self).reader().pending()
            },
            !old(self).at_end() && old(buf)@.len() > 0 ==> match old(self).reader().fault_ahead() {
                Some(e) => r == Err::<usize, Error>(e) && *final(self) == *old(self) && final(buf)@
                    == old(buf)@,
                None => {
                    let ahead = old(self).reader().data_ahead();
                    let behind = old(self).reader().source_behind();
                    let n = if ahead.len() <= old(buf)@.len() {
                        ahead.len()
                    } else {
                        old(buf)@.len()
                    };
                    &&& final(buf)@ == ahead.take(n as int) + old(buf)@.skip(n as int)
                    &&& final(self).reader().opened()
                    &&& final(self).reader().pending() == ahead.skip(n as int)
                    &&& if n > 0 {
                        &&& (r matches Ok(m) && m == n)
                        &&& !final(self).at_end()
                        &&& final(self).checksum() == fold(old(self).checksum(), ahead.take(n as int))
                        &&& final(self).source() == behind
                    } else {
                        &&& r == check_trailer(behind, old(self).checksum())
                        &&& final(self).at_end()
                        &&& final(self).checksum() == old(self).checksum()
                        &&& final(self).source() == behind_trailer(behind)
                    }
                },
            },
    {
        if self.eos {
            return Ok(0);
        }
        let inner = self.reader.read(buf);
        proof {
            if inner.is_ok() {
                let n = inner.unwrap();
                let ahead = old(self).reader().data_ahead();
                if n > 0 {
                    assert(buf@.take(n as int) =~= ahead.take(n as int));
                } else if old(buf)@.len() > 0 {
                    assert(buf@ =~= old(buf)@);
                }
            }
        }
        self.after_inner_read(buf, inner)
    }
}

/// Decodes the ZLIB stream in `buf` and returns its data, or the error that
/// `decoded` names.
pub fn decode_all(buf: &[u8]) -> (r: Result<Vec<u8>, Error>)
    ensures
        match decoded(buf@) {
            Ok(data) => r matches Ok(v) && v@ == data,
            Err(e) => r == Err::<Vec<u8>, Error>(e),
        },
{
    let mut decoder = match Decoder::new(Source::new(vstd::slice::slice_to_vec(buf))) {
        Ok(d) => d,
        Err(e) => {
            return Err(e);
        },
    };
    let mut out: Vec<u8> = Vec::new();
    let mut chunk: Vec<u8> = vec![0u8; 4096];
    let ghost rest = buf@.skip(2);
    let ghost step = run(rest).0;
    let ghost data = run(rest).1;
    assert(out@ =~= Seq::<u8>::empty());
    loop
        invariant
            !decoder.at_end(),
            parse(buf@).0 is Ok,
            rest == buf@.skip(2),
            step == run(rest).0,
            data == run(rest).1,
            chunk@.len() == 4096,
            decoder.checksum() == adler32(out@),
            decoder.reader().opened() ==> fault(step) is None && out@ + decoder.reader().pending()
                == data && decoder.source() == rest.skip(step.consumed as int),
            !decoder.reader().opened() ==> out@.len() == 0 && decoder.source() == rest,
        decreases usize::MAX - out@.len(),
    {
        let ghost ahead = decoder.reader().data_ahead();
        let ghost was_open = decoder.reader().opened();
        let ghost old_out = out@;
        assert(!was_open ==> ahead == data);
        assert(was_open ==> old_out + ahead == data);
        let n = match decoder.read(chunk.as_mut_slice()) {
            Ok(n) => n,
            Err(e) => {
                proof {
                    if ahead.len() == 0 && fault(step) is None {
                        assert(old_out =~= data);
                    }
                }
                return Err(e);
            },
        };
        if n == 0 {
            assert(old_out =~= data);
            return Ok(out);
        }
        out.extend_from_slice(&chunk.as_slice()[0..n]);
        proof {
            assert(chunk@.take(n as int) =~= ahead.take(n as int));
            assert(out@ =~= old_out + ahead.take(n as int));
            lemma_fold_concat(1, old_out, ahead.take(n as int));
            assert(out@ + ahead.skip(n as int) =~= old_out + ahead);
        }
        assert(out.len() == old_out.len() + n);
    }
}

} // verus!
