//! Writing a ZLIB stream: the header first, the compressed data, and the
//! checksum of what was written as the trailer.

use crate::bytes::{be_bytes, Sink};
use crate::checksum::{adler32, fold, Adler32};
use crate::deflate::{deflated, DeflateOptions, Deflater};
use crate::error::Error;
use crate::finish::Finish;
use crate::header::{level_for_effort, CompressionLevel, Header, Lz77WindowSize};
use crate::lz77::Lz77Settings;
use vstd::prelude::*;

verus! {

/// The options of an encoder: what the engine is told, and the header that
/// tells a reader of the stream the same.
#[derive(Debug, Clone, Copy)]
pub struct EncodeOptions {
    header: Header,
    options: DeflateOptions,
}

impl EncodeOptions {
    /// The header that the stream will begin with.
    pub closed spec fn spec_header(&self) -> Header {
        self.header
    }

    /// What the engine will be told.
    pub closed spec fn spec_options(&self) -> DeflateOptions {
        self.options
    }

    /// The header agrees with what the engine is told: with an LZ77 stage it
    /// is the header of that stage's settings, and without one it reports the
    /// fastest level.
    pub open spec fn in_sync(&self) -> bool {
        match self.spec_options().lz77 {
            Some(lz77) => self.spec_header() == Header::spec_from_lz77(&lz77),
            None => self.spec_header().compression_level == CompressionLevel::Fastest,
        }
    }

    /// The options that an encoder starts with: the usual LZ77 settings and
    /// their header.
    pub fn new() -> (r: Self)
        ensures
            r.spec_options().block_size == crate::deflate::DEFAULT_BLOCK_SIZE,
            r.spec_options().dynamic_huffman,
            r.spec_options().lz77 == Some(
                Lz77Settings { window_size: 0x8000, level: crate::lz77::EffortLevel::Balance },
            ),
            r.spec_header() == (Header {
                window_size: Lz77WindowSize::KB32,
                compression_level: CompressionLevel::Default,
            }),
            r.in_sync(),
    {
        EncodeOptions { header: Header::from_lz77(&Lz77Settings::new()), options: DeflateOptions::new() }
    }

    /// The starting options for an LZ77 stage with the settings `lz77`: the
    /// header gets the class of its window and the level of its effort.
    pub fn with_lz77(lz77: Lz77Settings) -> (r: Self)
        ensures
            r.spec_options().block_size == crate::deflate::DEFAULT_BLOCK_SIZE,
            r.spec_options().dynamic_huffman,
            r.spec_options().lz77 == Some(lz77),
            r.spec_header() == Header::spec_from_lz77(&lz77),
            r.in_sync(),
    {
        EncodeOptions { header: Header::from_lz77(&lz77), options: DeflateOptions::with_lz77(lz77) }
    }

    /// The same options without compression. The header then reports the
    /// fastest level, and keeps its window.
    pub fn no_compression(self) -> (r: Self)
        ensures
            r.spec_options().lz77.is_none(),
            r.spec_options().block_size == self.spec_options().block_size,
            r.spec_options().dynamic_huffman == self.spec_options().dynamic_huffman,
            r.spec_header() == (Header {
                window_size: self.spec_header().window_size,
                compression_level: CompressionLevel::Fastest,
            }),
            r.in_sync(),
    {
        EncodeOptions {
            header: Header {
                window_size: self.header.window_size,
                compression_level: CompressionLevel::Fastest,
            },
            options: self.options.no_compression(),
        }
    }

    /// The same options with the block size hint `size`.
    pub fn block_size(self, size: usize) -> (r: Self)
        ensures
            r.spec_options().block_size == size,
            r.spec_options().dynamic_huffman == self.spec_options().dynamic_huffman,
            r.spec_options().lz77 == self.spec_options().lz77,
            r.spec_header() == self.spec_header(),
            self.in_sync() ==> r.in_sync(),
    {
        EncodeOptions { header: self.header, options: self.options.block_size(size) }
    }

    /// The same options with code tables computed from the data.
    pub fn dynamic_huffman_codes(self) -> (r: Self)
        ensures
            r.spec_options().dynamic_huffman,
            r.spec_options().block_size == self.spec_options().block_size,
            r.spec_options().lz77 == self.spec_options().lz77,
            r.spec_header() == self.spec_header(),
            self.in_sync() ==> r.in_sync(),
    {
        EncodeOptions { header: self.header, options: self.options.dynamic_huffman_codes() }
    }

    /// The same options with the fixed code tables of the format.
    pub fn fixed_huffman_codes(self) -> (r: Self)
        ensures
            !r.spec_options().dynamic_huffman,
            r.spec_options().block_size == self.spec_options().block_size,
            r.spec_options().lz77 == self.spec_options().lz77,
            r.spec_header() == self.spec_header(),
            self.in_sync() ==> r.in_sync(),
    {
        EncodeOptions { header: self.header, options: self.options.fixed_huffman_codes() }
    }
}

impl Default for EncodeOptions {
    /// The options that an encoder starts with.
    fn default() -> (r: Self)
        ensures
            r.spec_options().block_size == crate::deflate::DEFAULT_BLOCK_SIZE,
            r.spec_options().dynamic_huffman,
            r.spec_options().lz77 == Some(
                Lz77Settings { window_size: 0x8000, level: crate::lz77::EffortLevel::Balance },
            ),
            r.spec_header() == (Header {
                window_size: Lz77WindowSize::KB32,
                compression_level: CompressionLevel::Default,
            }),
            r.in_sync(),
    {
        EncodeOptions::new()
    }
}

/// A writer of the data of a ZLIB stream.
pub struct Encoder {
    header: Header,
    writer: Deflater,
    adler32: Adler32,
}

impl Encoder {
    /// The checksum has been fed exactly what the compressing stream took:
    /// no byte of it twice, none left out, in the order taken.
    #[verifier::type_invariant]
    spec fn inv(self) -> bool {
        self.adler32.fed() == self.writer.written()
    }

    /// The header that the stream began with.
    pub closed spec fn spec_header(&self) -> Header {
        self.header
    }

    /// What the sink holds.
    pub closed spec fn sink(&self) -> Seq<u8> {
        self.writer.sink()
    }

    /// The number of bytes that the sink still takes.
    pub open spec fn room(&self) -> int {
        if self.sink().len() <= self.limit() {
            self.limit() - self.sink().len()
        } else {
            0
        }
    }

    /// The number of bytes that the sink holds at most.
    pub closed spec fn limit(&self) -> nat {
        self.writer.limit()
    }

    /// What the engine was told.
    pub closed spec fn options(&self) -> DeflateOptions {
        self.writer.options()
    }

    /// Everything that the encoder took, in order.
    pub closed spec fn written(&self) -> Seq<u8> {
        self.writer.written()
    }

    /// The running checksum.
    pub closed spec fn checksum(&self) -> u32 {
        self.adler32@
    }

    /// Writes the usual header to `inner` and stands ready to take data.
    pub fn new(inner: Sink) -> (r: Result<Encoder, Error>)
        ensures
            inner.room() < 2 ==> (r matches Err(e) && e == Error::WriteZero),
            inner.room() >= 2 ==> (r matches Ok(encoder) && {
                &&& encoder.spec_header() == (Header {
                    window_size: Lz77WindowSize::KB32,
                    compression_level: CompressionLevel::Default,
                })
                &&& encoder.sink() == inner@ + encoder.spec_header().bytes()
                &&& encoder.limit() == inner.limit()
                &&& encoder.options().lz77 == Some(
                    Lz77Settings { window_size: 0x8000, level: crate::lz77::EffortLevel::Balance },
                )
                &&& encoder.options().dynamic_huffman
                &&& encoder.written().len() == 0
                &&& encoder.checksum() == adler32(encoder.written())
            }),
    {
        Self::with_options(inner, EncodeOptions::default())
    }

    /// Writes the header of `options` to `inner`, at once, and stands ready
    /// to take data. It fails where the sink has no room for the header.
    pub fn with_options(inner: Sink, options: EncodeOptions) -> (r: Result<Encoder, Error>)
        ensures
            inner.room() < 2 ==> (r matches Err(e) && e == Error::WriteZero),
            inner.room() >= 2 ==> (r matches Ok(encoder) && {
                &&& encoder.spec_header() == options.spec_header()
                &&& encoder.sink() == inner@ + options.spec_header().bytes()
                &&& encoder.limit() == inner.limit()
                &&& encoder.options() == options.spec_options()
                &&& encoder.written().len() == 0
                &&& encoder.checksum() == adler32(encoder.written())
            }),
    {
        let mut inner = inner;
        match options.header.write_to(&mut inner) {
            Ok(()) => {},
            Err(e) => {
                return Err(e);
            },
        }
        let writer = Deflater::with_options(inner, options.options);
        let adler32 = Adler32::new();
        assert(writer.written() =~= adler32.fed());
        Ok(Encoder { header: options.header, writer, adler32 })
    }

    /// The header that the stream began with.
    pub fn header(&self) -> (h: &Header)
        ensures
            *h == self.spec_header(),
    {
        &self.header
    }

    /// What an encoder makes, for its checksum, of one write to the
    /// compressing stream, which took the first `inner` bytes of `buf` or
    /// failed.
    ///
    /// A failure is handed on and the checksum stays as it is. Otherwise the
    /// front that was taken, and no more of `buf`, goes into the checksum,
    /// and its length is returned.
    pub fn after_inner_write(checksum: &mut Adler32, buf: &[u8], inner: Result<usize, Error>) -> (r:
        Result<usize, Error>)
        requires
            inner matches Ok(n) ==> n <= buf@.len(),
        ensures
            match inner {
                Err(e) => r == Err::<usize, Error>(e) && *final(checksum) == *old(checksum),
                Ok(n) => {
                    &&& r == Ok::<usize, Error>(n)
                    &&& final(checksum)@ == fold(old(checksum)@, buf@.take(n as int))
                    &&& final(checksum).fed() == old(checksum).fed() + buf@.take(n as int)
                    &&& final(checksum)@ == adler32(final(checksum).fed())
                },
            },
    {
        let written_size = match inner {
            Ok(n) => n,
            Err(e) => {
                return Err(e);
            },
        };
        checksum.update(&buf[0..written_size]);
        Ok(written_size)
    }

    /// An encoder that has taken nothing, over a sink that takes nothing.
    fn vacant() -> (r: Encoder) {
        let writer = Deflater::with_options(Sink::with_limit(0), DeflateOptions::new());
        let adler32 = Adler32::new();
        assert(writer.written() =~= adler32.fed());
        Encoder {
            header: Header {
                window_size: Lz77WindowSize::KB32,
                compression_level: CompressionLevel::Default,
            },
            writer,
            adler32,
        }
    }

    /// Hands `buf` to the compressing stream and adds to the checksum the
    /// front of `buf` that the stream took. It returns the length of that
    /// front, which here is all of `buf`.
    ///
    /// The encoder is taken apart for this and put together again, so that
    /// stream and checksum change as one.
    pub fn write(&mut self, buf: &[u8]) -> (r: Result<usize, Error>)
        ensures
            r matches Ok(n) && n == buf@.len(),
            final(self).written() == old(self).written() + buf@,
            final(self).checksum() == fold(old(self).checksum(), buf@),
            final(self).checksum() == adler32(final(self).written()),
            final(self).spec_header() == old(self).spec_header(),
            final(self).sink() == old(self).sink(),
            final(self).limit() == old(self).limit(),
            final(self).options() == old(self).options(),
    {
        let mut taken = Self::vacant();
        core::mem::swap(self, &mut taken);
        proof {
            use_type_invariant(&taken);
        }
        let Encoder { header, writer, adler32 } = taken;
        let mut writer = writer;
        let mut adler32 = adler32;
        let inner = writer.write(buf);
        assert(buf@.take(buf@.len() as int) =~= buf@);
        let r = Self::after_inner_write(&mut adler32, buf, inner);
        *self = Encoder { header, writer, adler32 };
        r
    }

    /// Flushes the compressing stream. The checksum and the data stay as
    /// they are.
    pub fn flush(&mut self) -> (r: Result<(), Error>)
        ensures
            r == Ok::<(), Error>(()),
            *final(self) == *old(self),
    {
        let mut taken = Self::vacant();
        core::mem::swap(self, &mut taken);
        proof {
            use_type_invariant(&taken);
        }
        let Encoder { header, writer, adler32 } = taken;
        let mut writer = writer;
        let r = writer.flush();
        *self = Encoder { header, writer, adler32 };
        r
    }

    /// Closes the stream and gives the sink back, whatever happens.
    ///
    /// The compressed data go to the sink, and behind them, as four bytes,
    /// most significant first, the Adler-32 checksum of all that was
    /// written. Where the engine does not
    /// complete, the sink comes back as it was, with `Error::Deflate`. Where
    /// the sink has no room for all of it, the sink comes back with what it
    /// had room for, with `Error::WriteZero`.
    pub fn finish(self) -> (r: Finish<Sink, Error>)
        ensures
            r.value.limit() == self.limit(),
            ({
                let p = self.options().spec_engine_params();
                match deflated(self.written(), p.level, p.strategy, p.window_bits) {
                    None => r.value@ == self.sink() && r.error == Some(Error::Deflate),
                    Some(data) => {
                        let tail = data + be_bytes(adler32(self.written()));
                        if tail.len() <= self.room() {
                            r.value@ == self.sink() + tail && r.error.is_none()
                        } else {
                            r.value@ == self.sink() + tail.take(self.room()) && r.error == Some(
                                Error::WriteZero,
                            )
                        }
                    },
                }
            }),
    {
        proof {
            use_type_invariant(&self);
        }
        let value = self.adler32.value();
        let ghost p = self.options().spec_engine_params();
        let ghost payload = deflated(self.written(), p.level, p.strategy, p.window_bits);
        let ghost room = self.room();
        let finished = self.writer.finish();
        let mut inner = finished.value;
        match finished.error {
            Some(e) => {
                proof {
                    if payload.is_some() {
                        let data = payload.unwrap();
                        assert((data + be_bytes(value)).take(room) =~= data.take(room));
                    }
                }
                return Finish::new(inner, Some(e));
            },
            None => {},
        }
        let ghost data = payload.unwrap();
        let written = inner.write_u32_be(value);
        proof {
            let tail = data + be_bytes(value);
            assert(self.sink() + data + be_bytes(value) =~= self.sink() + tail);
            if tail.len() > room {
                assert(self.sink() + data + be_bytes(value).take(room - data.len()) =~= self.sink()
                    + tail.take(room));
            }
        }
        let flushed = match written {
            Ok(()) => inner.flush(),
            Err(e) => Err(e),
        };
        match flushed {
            Ok(()) => Finish::new(inner, None),
            Err(e) => Finish::new(inner, Some(e)),
        }
    }
}

} // verus!
