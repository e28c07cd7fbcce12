//! The two-byte header of a ZLIB stream: CMF and FLG.

use crate::bytes::{be_value, Sink, Source};
use crate::error::Error;
use crate::lz77::{EffortLevel, Lz77Settings};
use vstd::prelude::*;

verus! {

/// The only compression method of the format: DEFLATE.
pub const COMPRESSION_METHOD_DEFLATE: u8 = 8;

/// The compression level that a header reports, in two bits.
#[derive(Debug, Clone, Copy, PartialOrd, Ord, PartialEq, Eq, Hash, Structural)]
pub enum CompressionLevel {
    Fastest,
    Fast,
    Default,
    Slowest,
}

impl CompressionLevel {
    /// The level's two-bit code.
    pub open spec fn spec_as_u2(&self) -> u8 {
        match self {
            CompressionLevel::Fastest => 0,
            CompressionLevel::Fast => 1,
            CompressionLevel::Default => 2,
            CompressionLevel::Slowest => 3,
        }
    }

    /// The level with the two-bit code `level`.
    pub fn from_u2(level: u8) -> (r: Self)
        requires
            level <= 3,
        ensures
            r.spec_as_u2() == level,
    {
        if level == 0 {
            CompressionLevel::Fastest
        } else if level == 1 {
            CompressionLevel::Fast
        } else if level == 2 {
            CompressionLevel::Default
        } else {
            CompressionLevel::Slowest
        }
    }

    /// The level's two-bit code.
    #[verifier::when_used_as_spec(spec_as_u2)]
    pub fn as_u2(&self) -> (code: u8)
        ensures
            code == self.spec_as_u2(),
            code <= 3,
    {
        match self {
            CompressionLevel::Fastest => 0,
            CompressionLevel::Fast => 1,
            CompressionLevel::Default => 2,
            CompressionLevel::Slowest => 3,
        }
    }
}

/// The level that a header reports for an effort of the LZ77 stage.
pub open spec fn level_for_effort(f: EffortLevel) -> CompressionLevel {
    match f {
        EffortLevel::Minimal => CompressionLevel::Fastest,
        EffortLevel::Fast => CompressionLevel::Fast,
        EffortLevel::Balance => CompressionLevel::Default,
        EffortLevel::Best => CompressionLevel::Slowest,
    }
}

impl From<EffortLevel> for CompressionLevel {
    /// The level that a header reports for an effort of the LZ77 stage.
    fn from(f: EffortLevel) -> (r: Self) {
        match f {
            EffortLevel::Minimal => CompressionLevel::Fastest,
            EffortLevel::Fast => CompressionLevel::Fast,
            EffortLevel::Balance => CompressionLevel::Default,
            EffortLevel::Best => CompressionLevel::Slowest,
        }
    }
}

impl vstd::std_specs::convert::FromSpecImpl<EffortLevel> for CompressionLevel {
    open spec fn obeys_from_spec() -> bool {
        true
    }

    open spec fn from_spec(f: EffortLevel) -> Self {
        level_for_effort(f)
    }
}

/// The size class of the LZ77 window that a header reports, in four bits.
#[derive(Debug, Clone, Copy, PartialOrd, Ord, PartialEq, Eq, Hash, Structural)]
pub enum Lz77WindowSize {
    B256,
    B512,
    KB1,
    KB2,
    KB4,
    KB8,
    KB16,
    KB32,
}

impl Lz77WindowSize {
    /// The class's four-bit code.
    pub open spec fn spec_as_u4(&self) -> u8 {
        match self {
            Lz77WindowSize::B256 => 0,
            Lz77WindowSize::B512 => 1,
            Lz77WindowSize::KB1 => 2,
            Lz77WindowSize::KB2 => 3,
            Lz77WindowSize::KB4 => 4,
            Lz77WindowSize::KB8 => 5,
            Lz77WindowSize::KB16 => 6,
            Lz77WindowSize::KB32 => 7,
        }
    }

    /// The class's size in bytes: 256 doubled once for each step of the code.
    pub open spec fn spec_to_u16(&self) -> u16 {
        match self {
            Lz77WindowSize::B256 => 256,
            Lz77WindowSize::B512 => 512,
            Lz77WindowSize::KB1 => 1024,
            Lz77WindowSize::KB2 => 2048,
            Lz77WindowSize::KB4 => 4096,
            Lz77WindowSize::KB8 => 8192,
            Lz77WindowSize::KB16 => 16384,
            Lz77WindowSize::KB32 => 32768,
        }
    }

    /// The smallest class that holds `size` bytes, and the largest class
    /// where none does.
    pub open spec fn spec_from_u16(size: u16) -> Self {
        if size <= 256 {
            Lz77WindowSize::B256
        } else if size <= 512 {
            Lz77WindowSize::B512
        } else if size <= 1024 {
            Lz77WindowSize::KB1
        } else if size <= 2048 {
            Lz77WindowSize::KB2
        } else if size <= 4096 {
            Lz77WindowSize::KB4
        } else if size <= 8192 {
            Lz77WindowSize::KB8
        } else if size <= 16384 {
            Lz77WindowSize::KB16
        } else {
            Lz77WindowSize::KB32
        }
    }

    /// The class with the four-bit code `compression_info`, if there is one.
    pub fn from_u4(compression_info: u8) -> (r: Option<Self>)
        ensures
            compression_info <= 7 ==> r.is_some() && r.unwrap().spec_as_u4() == compression_info,
            compression_info > 7 ==> r.is_none(),
    {
        if compression_info == 0 {
            Some(Lz77WindowSize::B256)
        } else if compression_info == 1 {
            Some(Lz77WindowSize::B512)
        } else if compression_info == 2 {
            Some(Lz77WindowSize::KB1)
        } else if compression_info == 3 {
            Some(Lz77WindowSize::KB2)
        } else if compression_info == 4 {
            Some(Lz77WindowSize::KB4)
        } else if compression_info == 5 {
            Some(Lz77WindowSize::KB8)
        } else if compression_info == 6 {
            Some(Lz77WindowSize::KB16)
        } else if compression_info == 7 {
            Some(Lz77WindowSize::KB32)
        } else {
            None
        }
    }

    /// The class's four-bit code.
    #[verifier::when_used_as_spec(spec_as_u4)]
    pub fn as_u4(&self) -> (code: u8)
        ensures
            code == self.spec_as_u4(),
            code <= 7,
    {
        match self {
            Lz77WindowSize::B256 => 0,
            Lz77WindowSize::B512 => 1,
            Lz77WindowSize::KB1 => 2,
            Lz77WindowSize::KB2 => 3,
            Lz77WindowSize::KB4 => 4,
            Lz77WindowSize::KB8 => 5,
            Lz77WindowSize::KB16 => 6,
            Lz77WindowSize::KB32 => 7,
        }
    }

    /// The smallest class that holds `size` bytes; the largest class for a
    /// size beyond every class.
    #[verifier::when_used_as_spec(spec_from_u16)]
    pub fn from_u16(size: u16) -> (r: Self)
        ensures
            r == Self::spec_from_u16(size),
            size <= r.spec_to_u16() || r == Lz77WindowSize::KB32,
            forall|w: Lz77WindowSize| size <= w.spec_to_u16() ==> r.spec_as_u4() <= w.spec_as_u4(),
    {
        if 16384 < size {
            Lz77WindowSize::KB32
        } else if 8192 < size {
            Lz77WindowSize::KB16
        } else if 4096 < size {
            Lz77WindowSize::KB8
        } else if 2048 < size {
            Lz77WindowSize::KB4
        } else if 1024 < size {
            Lz77WindowSize::KB2
        } else if 512 < size {
            Lz77WindowSize::KB1
        } else if 256 < size {
            Lz77WindowSize::B512
        } else {
            Lz77WindowSize::B256
        }
    }

    /// The class's size in bytes.
    #[verifier::when_used_as_spec(spec_to_u16)]
    pub fn to_u16(&self) -> (size: u16)
        ensures
            size == self.spec_to_u16(),
    {
        match self {
            Lz77WindowSize::B256 => 256,
            Lz77WindowSize::B512 => 512,
            Lz77WindowSize::KB1 => 1024,
            Lz77WindowSize::KB2 => 2048,
            Lz77WindowSize::KB4 => 4096,
            Lz77WindowSize::KB8 => 8192,
            Lz77WindowSize::KB16 => 16384,
            Lz77WindowSize::KB32 => 32768,
        }
    }
}

/// A class's size leads back to the class.
pub proof fn lemma_window_size_round_trip(w: Lz77WindowSize)
    ensures
        Lz77WindowSize::spec_from_u16(w.spec_to_u16()) == w,
{
}

/// A larger size never gets a smaller class.
pub proof fn lemma_window_size_monotonic(a: u16, b: u16)
    requires
        a <= b,
    ensures
        Lz77WindowSize::spec_from_u16(a).spec_as_u4() <= Lz77WindowSize::spec_from_u16(
            b,
        ).spec_as_u4(),
{
}

/// What the two header bytes say.
#[derive(Debug, Clone, Copy, PartialEq, Eq, Hash, Structural)]
pub struct Header {
    /// The size class of the window that the compressor kept to.
    pub window_size: Lz77WindowSize,
    /// The compression level that the compressor reports.
    pub compression_level: CompressionLevel,
}

/// What reading a header off the front of `s` gives, and how many bytes of
/// `s` it takes to find that out.
///
/// The checks come in this order: both bytes are there; CMF * 256 + FLG is a
/// multiple of 31; the method (low four bits of CMF) is DEFLATE; the window
/// class (high four bits of CMF) is at most 7; the dictionary bit (bit 5 of
/// FLG) is clear. A set dictionary bit costs the four bytes of the dictionary
/// identifier before it is refused.
pub open spec fn parse(s: Seq<u8>) -> (Result<Header, Error>, nat) {
    if s.len() < 2 {
        (Err(Error::UnexpectedEof), s.len())
    } else {
        let cmf = s[0];
        let flg = s[1];
        if (cmf as int * 256 + flg as int) % 31 != 0 {
            (Err(Error::InconsistentCheckBits { cmf, flg }), 2)
        } else if cmf % 16 != COMPRESSION_METHOD_DEFLATE {
            (Err(Error::UnsupportedMethod { method: cmf % 16 }), 2)
        } else if cmf / 16 > 7 {
            (Err(Error::InvalidWindowSize { cinfo: cmf / 16 }), 2)
        } else if flg / 32 % 2 == 1 {
            if s.len() < 6 {
                (Err(Error::UnexpectedEof), s.len())
            } else {
                (Err(Error::PresetDictionary { dictionary_id: be_value(s.subrange(2, 6)) }), 6)
            }
        } else {
            (
                Ok(
                    Header {
                        window_size: window_with_code(cmf / 16),
                        compression_level: level_with_code(flg / 64),
                    },
                ),
                2,
            )
        }
    }
}

/// The window class with a given four-bit code.
pub open spec fn window_with_code(code: u8) -> Lz77WindowSize
    recommends
        code <= 7,
{
    if code == 0 {
        Lz77WindowSize::B256
    } else if code == 1 {
        Lz77WindowSize::B512
    } else if code == 2 {
        Lz77WindowSize::KB1
    } else if code == 3 {
        Lz77WindowSize::KB2
    } else if code == 4 {
        Lz77WindowSize::KB4
    } else if code == 5 {
        Lz77WindowSize::KB8
    } else if code == 6 {
        Lz77WindowSize::KB16
    } else {
        Lz77WindowSize::KB32
    }
}

/// The compression level with a given two-bit code.
pub open spec fn level_with_code(code: u8) -> CompressionLevel
    recommends
        code <= 3,
{
    if code == 0 {
        CompressionLevel::Fastest
    } else if code == 1 {
        CompressionLevel::Fast
    } else if code == 2 {
        CompressionLevel::Default
    } else {
        CompressionLevel::Slowest
    }
}

impl Header {
    /// The header that a stream gets when its LZ77 stage runs with `lz77`.
    pub open spec fn spec_from_lz77(lz77: &Lz77Settings) -> Header {
        Header {
            window_size: Lz77WindowSize::spec_from_u16(lz77.window_size),
            compression_level: level_for_effort(lz77.level),
        }
    }

    /// The first header byte: the window class above the method.
    pub open spec fn cmf(&self) -> u8 {
        (self.window_size.spec_as_u4() * 16 + COMPRESSION_METHOD_DEFLATE) as u8
    }

    /// The second header byte: the level in the top two bits, the dictionary
    /// bit clear, and in the low five bits the least number that makes
    /// CMF * 256 + FLG a multiple of 31.
    pub open spec fn flg(&self) -> u8 {
        let level_bits = self.compression_level.spec_as_u2() * 64;
        let check = self.cmf() as int * 256 + level_bits;
        if check % 31 == 0 {
            level_bits as u8
        } else {
            (level_bits + 31 - check % 31) as u8
        }
    }

    /// The header as it stands in a stream.
    pub open spec fn bytes(&self) -> Seq<u8> {
        seq![self.cmf(), self.flg()]
    }

    /// The size class of the LZ77 window.
    pub fn window_size(&self) -> (w: Lz77WindowSize)
        ensures
            w == self.window_size,
    {
        self.window_size
    }

    /// The compression level.
    pub fn compression_level(&self) -> (l: CompressionLevel)
        ensures
            l == self.compression_level,
    {
        self.compression_level
    }

    /// The header that a stream gets when its LZ77 stage runs with `lz77`:
    /// the class of its window and the level of its effort.
    #[verifier::when_used_as_spec(spec_from_lz77)]
    pub fn from_lz77(lz77: &Lz77Settings) -> (h: Self)
        ensures
            h == Self::spec_from_lz77(lz77),
    {
        Header {
            compression_level: CompressionLevel::from(lz77.level),
            window_size: Lz77WindowSize::from_u16(lz77.window_size),
        }
    }

    /// Reads a header off the front of `reader`. On failure the reader has
    /// lost the bytes that it took to find the fault, no more.
    pub fn read_from(reader: &mut Source) -> (r: Result<Header, Error>)
        ensures
            r == parse(old(reader)@).0,
            final(reader)@ == old(reader)@.skip(parse(old(reader)@).1 as int),
    {
        let cmf = match reader.read_u8() {
            Ok(byte) => byte,
            Err(e) => {
                assert(reader@ =~= old(reader)@.skip(old(reader)@.len() as int));
                return Err(e);
            },
        };
        let flg = match reader.read_u8() {
            Ok(byte) => byte,
            Err(e) => {
                assert(reader@ =~= old(reader)@.skip(old(reader)@.len() as int));
                return Err(e);
            },
        };
        assert(reader@ =~= old(reader)@.skip(2));
        assert(cmf == old(reader)@[0] && flg == old(reader)@[1]);
        let high: u16 = (cmf as u16) << 8;
        assert(high == cmf as int * 256) by {
            assert(((cmf as u16) << 8) == (cmf as u16) * 256) by (bit_vector);
        }
        let check: u16 = high + flg as u16;
        if check % 31 != 0 {
            return Err(Error::InconsistentCheckBits { cmf, flg });
        }
        let compression_method = cmf & 0b1111;
        let compression_info = cmf >> 4;
        assert(compression_method == cmf % 16 && compression_info == cmf / 16) by {
            assert(cmf & 0b1111 == cmf % 16) by (bit_vector);
            assert(cmf >> 4 == cmf / 16) by (bit_vector);
        }
        if compression_method != COMPRESSION_METHOD_DEFLATE {
            return Err(Error::UnsupportedMethod { method: compression_method });
        }
        let window_size = match Lz77WindowSize::from_u4(compression_info) {
            Some(w) => w,
            None => {
                return Err(Error::InvalidWindowSize { cinfo: compression_info });
            },
        };
        let dict_flag = (flg & 0b100000) != 0;
        assert(dict_flag == (flg / 32 % 2 == 1)) by {
            assert(((flg & 0b100000) != 0) == (flg / 32 % 2 == 1)) by (bit_vector);
        }
        if dict_flag {
            let ghost rest = reader@;
            return match reader.read_u32_be() {
                Ok(dictionary_id) => {
                    assert(rest.len() >= 4);
                    assert(old(reader)@.subrange(2, 6) =~= rest.subrange(0, 4));
                    assert(be_value(rest) == be_value(old(reader)@.subrange(2, 6)));
                    assert(reader@ =~= old(reader)@.skip(6));
                    Err(Error::PresetDictionary { dictionary_id })
                },
                Err(e) => {
                    assert(reader@ =~= old(reader)@.skip(old(reader)@.len() as int));
                    Err(e)
                },
            };
        }
        let level_code = flg >> 6;
        assert(level_code == flg / 64 && level_code <= 3) by {
            assert(flg >> 6 == flg / 64) by (bit_vector);
        }
        let compression_level = CompressionLevel::from_u2(level_code);
        Ok(Header { window_size, compression_level })
    }

    /// Writes the two header bytes to `writer`, one after the other. It fails
    /// where the sink has no room for both, and then leaves in it the byte
    /// that still went in.
    pub fn write_to(&self, writer: &mut Sink) -> (r: Result<(), Error>)
        ensures
            old(writer).room() >= 2 ==> r == Ok::<(), Error>(()) && final(writer)@ == old(writer)@
                + self.bytes(),
            old(writer).room() < 2 ==> r == Err::<(), Error>(Error::WriteZero) && final(writer)@
                == old(writer)@ + self.bytes().take(old(writer).room()),
            final(writer).limit() == old(writer).limit(),
    {
        let code = self.window_size.as_u4();
        let cmf: u8 = (code << 4) | COMPRESSION_METHOD_DEFLATE;
        assert(cmf == self.cmf()) by {
            assert(code <= 7 ==> ((code << 4) | 8u8) == code * 16 + 8) by (bit_vector);
        }
        let level = self.compression_level.as_u2();
        let mut flg: u8 = level << 6;
        assert(flg == level * 64) by {
            assert(level <= 3 ==> (level << 6) == level * 64) by (bit_vector);
        }
        let high: u16 = (cmf as u16) << 8;
        assert(high == cmf as int * 256) by {
            assert(((cmf as u16) << 8) == (cmf as u16) * 256) by (bit_vector);
        }
        let check: u16 = high + flg as u16;
        if check % 31 != 0 {
            flg += (31 - check % 31) as u8;
        }
        assert(flg == self.flg());
        match writer.write_u8(cmf) {
            Ok(()) => {},
            Err(e) => {
                assert(writer@ =~= old(writer)@ + self.bytes().take(0));
                return Err(e);
            },
        }
        match writer.write_u8(flg) {
            Ok(()) => {},
            Err(e) => {
                assert(writer@ =~= old(writer)@ + self.bytes().take(1));
                return Err(e);
            },
        }
        assert(writer@ =~= old(writer)@ + self.bytes());
        Ok(())
    }
}

/// A header that was written reads back as itself, whatever follows it, and
/// its two bytes, read as one big-endian number, are a multiple of 31.
pub proof fn lemma_header_round_trip(h: Header, rest: Seq<u8>)
    ensures
        (h.cmf() as int * 256 + h.flg() as int) % 31 == 0,
        parse(h.bytes() + rest) == (Ok::<Header, Error>(h), 2nat),
{
    lemma_flg_keeps_level(h);
    let s = h.bytes() + rest;
    assert(s[0] == h.cmf() && s[1] == h.flg());
}

/// The padding stays within the low five bits of FLG: it leaves the level
/// bits as they are and the dictionary bit clear.
pub proof fn lemma_flg_keeps_level(h: Header)
    ensures
        h.flg() / 64 == h.compression_level.spec_as_u2(),
        h.flg() / 32 % 2 == 0,
        h.flg() % 32 <= 30,
        h.cmf() % 16 == COMPRESSION_METHOD_DEFLATE,
        h.cmf() / 16 == h.window_size.spec_as_u4(),
        (h.cmf() as int * 256 + h.flg() as int) % 31 == 0,
{
}

} // verus!
