//! The DEFLATE engine behind the container: what is told to it, and the two
//! streams that run it over a sink and over a source in memory.

use crate::bytes::{Sink, Source};
use crate::error::Error;
use crate::finish::Finish;
use crate::header::Lz77WindowSize;
use crate::lz77::{EffortLevel, Lz77Settings};
use vstd::prelude::*;

verus! {

/// The block size that the options start with.
pub const DEFAULT_BLOCK_SIZE: usize = 0x10_0000;

/// What a compressing stream is told.
#[derive(Debug, Clone, Copy)]
pub struct DeflateOptions {
    /// A hint at how much input one block should hold. The engine in use
    /// cuts its blocks itself and does not read it.
    pub block_size: usize,
    /// Whether the code tables are computed from the data. Otherwise the
    /// fixed tables of the format are used.
    pub dynamic_huffman: bool,
    /// The settings of the LZ77 stage. Without them nothing is compressed:
    /// the data goes into stored blocks.
    pub lz77: Option<Lz77Settings>,
}

/// How the engine codes what the LZ77 stage hands it.
#[derive(Debug, Clone, Copy, PartialEq, Eq, Structural)]
pub enum Strategy {
    /// With code tables computed from the data.
    Dynamic,
    /// With computed code tables, and with no back-references at all.
    LiteralsOnly,
    /// With the fixed code tables of the format.
    Fixed,
}

/// The three numbers that the engine is started with.
#[derive(Debug, Clone, Copy, PartialEq, Eq, Structural)]
pub struct EngineParams {
    /// The engine's level, 0 for stored blocks up to 9 for the most effort.
    pub level: u8,
    /// The coding strategy.
    pub strategy: Strategy,
    /// The binary logarithm of the window, from 8 to 15.
    pub window_bits: u8,
}

impl DeflateOptions {
    /// The engine's level, strategy and window for these options.
    ///
    /// Without an LZ77 stage the level is 0, which stores. With one, the
    /// effort picks the level, the fixed tables win over the strategy that
    /// the effort would pick, and the window is that of the class that the
    /// stream's header reports. These are what the engine is handed; for a
    /// window below the largest it lowers level and strategy by itself, so
    /// that no back-reference leaves the window.
    pub open spec fn spec_engine_params(&self) -> EngineParams {
        match self.lz77 {
            None => EngineParams { level: 0, strategy: Strategy::Dynamic, window_bits: 15 },
            Some(lz77) => EngineParams {
                level: match lz77.level {
                    EffortLevel::Minimal => 1,
                    EffortLevel::Fast => 1,
                    EffortLevel::Balance => 6,
                    EffortLevel::Best => 9,
                },
                strategy: if !self.dynamic_huffman {
                    Strategy::Fixed
                } else if lz77.level == EffortLevel::Minimal {
                    Strategy::LiteralsOnly
                } else {
                    Strategy::Dynamic
                },
                window_bits: (8 + Lz77WindowSize::spec_from_u16(lz77.window_size).spec_as_u4()) as u8,
            },
        }
    }

    /// The options that a stream starts with: blocks of `DEFAULT_BLOCK_SIZE`,
    /// computed code tables, and the usual LZ77 settings.
    pub fn new() -> (r: Self)
        ensures
            r.block_size == DEFAULT_BLOCK_SIZE,
            r.dynamic_huffman,
            r.lz77 == Some(Lz77Settings { window_size: 0x8000, level: EffortLevel::Balance }),
    {
        DeflateOptions {
            block_size: DEFAULT_BLOCK_SIZE,
            dynamic_huffman: true,
            lz77: Some(Lz77Settings::new()),
        }
    }

    /// The starting options with the LZ77 settings `lz77`.
    pub fn with_lz77(lz77: Lz77Settings) -> (r: Self)
        ensures
            r.block_size == DEFAULT_BLOCK_SIZE,
            r.dynamic_huffman,
            r.lz77 == Some(lz77),
    {
        DeflateOptions { block_size: DEFAULT_BLOCK_SIZE, dynamic_huffman: true, lz77: Some(lz77) }
    }

    /// The same options without an LZ77 stage.
    pub fn no_compression(self) -> (r: Self)
        ensures
            r.block_size == self.block_size,
            r.dynamic_huffman == self.dynamic_huffman,
            r.lz77.is_none(),
    {
        DeflateOptions { block_size: self.block_size, dynamic_huffman: self.dynamic_huffman, lz77: None }
    }

    /// The same options with the block size hint `size`.
    pub fn block_size(self, size: usize) -> (r: Self)
        ensures
            r.block_size == size,
            r.dynamic_huffman == self.dynamic_huffman,
            r.lz77 == self.lz77,
    {
        DeflateOptions { block_size: size, dynamic_huffman: self.dynamic_huffman, lz77: self.lz77 }
    }

    /// The same options with computed code tables.
    pub fn dynamic_huffman_codes(self) -> (r: Self)
        ensures
            r.block_size == self.block_size,
            r.dynamic_huffman,
            r.lz77 == self.lz77,
    {
        DeflateOptions { block_size: self.block_size, dynamic_huffman: true, lz77: self.lz77 }
    }

    /// The same options with the fixed code tables.
    pub fn fixed_huffman_codes(self) -> (r: Self)
        ensures
            r.block_size == self.block_size,
            !r.dynamic_huffman,
            r.lz77 == self.lz77,
    {
        DeflateOptions { block_size: self.block_size, dynamic_huffman: false, lz77: self.lz77 }
    }

    /// The engine's level, strategy and window for these options.
    #[verifier::when_used_as_spec(spec_engine_params)]
    pub fn engine_params(&self) -> (p: EngineParams)
        ensures
            p == self.spec_engine_params(),
            8 <= p.window_bits <= 15,
            p.level <= 9,
    {
        match self.lz77 {
            None => EngineParams { level: 0, strategy: Strategy::Dynamic, window_bits: 15 },
            Some(lz77) => {
                let level: u8 = match lz77.level {
                    EffortLevel::Minimal => 1,
                    EffortLevel::Fast => 1,
                    EffortLevel::Balance => 6,
                    EffortLevel::Best => 9,
                };
                let strategy = if !self.dynamic_huffman {
                    Strategy::Fixed
                } else {
                    match lz77.level {
                        EffortLevel::Minimal => Strategy::LiteralsOnly,
                        _ => Strategy::Dynamic,
                    }
                };
                let window_bits: u8 = 8 + Lz77WindowSize::from_u16(lz77.window_size).as_u4();
                EngineParams { level, strategy, window_bits }
            },
        }
    }
}

/// The raw DEFLATE stream that the engine makes of `data` when it is started
/// with a level, a strategy and a window, or nothing where the engine does
/// not complete.
pub uninterp spec fn deflated(data: Seq<u8>, level: u8, strategy: Strategy, window_bits: u8) -> Option<Seq<u8>>;

/// Appends a piece of engine output to what was gathered, and asks for more.
fn gather(out: &mut Vec<u8>, chunk: &[u8]) -> (more: bool)
    ensures
        more,
        final(out)@ == old(out)@ + chunk@,
{
    out.extend_from_slice(chunk);
    assert(out@ =~= old(out)@ + chunk@);
    true
}

/// `miniz_oxide::deflate::core::CompressorOxide::with_params` and
/// `compress_to_output`: one engine, started for a raw stream with the given
/// level, strategy and window, compresses all of `input` and ends the
/// stream. What it puts out depends on these four alone. Any status but
/// `Done` is reported as nothing.
#[verifier::external_body]
fn deflate_all(input: &[u8], level: u8, strategy: Strategy, window_bits: u8) -> (out: Option<Vec<u8>>)
    ensures
        match out {
            Some(v) => deflated(input@, level, strategy, window_bits) == Some(v@),
            None => deflated(input@, level, strategy, window_bits).is_none(),
        },
{
    let strategy = match strategy {
        Strategy::Dynamic => miniz_oxide::deflate::core::CompressionStrategy::Default,
        Strategy::LiteralsOnly => miniz_oxide::deflate::core::CompressionStrategy::HuffmanOnly,
        Strategy::Fixed => miniz_oxide::deflate::core::CompressionStrategy::Fixed,
    };
    let mut engine = miniz_oxide::deflate::core::CompressorOxide::with_params(
        miniz_oxide::DataFormat::Raw, level, strategy, window_bits);
    let mut out = Vec::new();
    let finish = miniz_oxide::deflate::core::TDEFLFlush::Finish;
    let gathering = |chunk: &[u8]| gather(&mut out, chunk);
    match miniz_oxide::deflate::core::compress_to_output(&mut engine, input, finish, gathering).0 {
        miniz_oxide::deflate::core::TDEFLStatus::Done => Some(out),
        _ => None,
    }
}

/// A compressing stream over a sink in memory. It gathers what is written
/// and hands it to the engine in one piece when the stream is finished.
#[derive(Debug)]
pub struct Deflater {
    sink: Sink,
    options: DeflateOptions,
    pending: Vec<u8>,
}

impl Deflater {
    /// The sink's contents.
    pub closed spec fn sink(&self) -> Seq<u8> {
        self.sink@
    }

    /// The number of bytes that the sink still takes.
    pub open spec fn room(&self) -> int {
        if self.sink().len() <= self.limit() {
            self.limit() - self.sink().len()
        } else {
            0
        }
    }

    /// The number of bytes that the sink holds at most.
    pub closed spec fn limit(&self) -> nat {
        self.sink.limit()
    }

    /// The options that the stream was opened with.
    pub closed spec fn options(&self) -> DeflateOptions {
        self.options
    }

    /// Everything that was written to the stream, in order.
    pub closed spec fn written(&self) -> Seq<u8> {
        self.pending@
    }

    /// A stream that will compress into `inner` as `options` say.
    pub fn with_options(inner: Sink, options: DeflateOptions) -> (r: Self)
        ensures
            r.sink() == inner@,
            r.limit() == inner.limit(),
            r.options() == options,
            r.written().len() == 0,
    {
        Deflater { sink: inner, options, pending: Vec::new() }
    }

    /// Takes all of `buf` and returns its length.
    pub fn write(&mut self, buf: &[u8]) -> (r: Result<usize, Error>)
        ensures
            r matches Ok(n) && n == buf@.len(),
            final(self).written() == old(self).written() + buf@,
            final(self).sink() == old(self).sink(),
            final(self).limit() == old(self).limit(),
            final(self).options() == old(self).options(),
    {
        self.pending.extend_from_slice(buf);
        assert(self.pending@ =~= old(self).pending@ + buf@);
        Ok(buf.len())
    }

    /// Hands on what the sink holds. Nothing that was written reaches the
    /// sink before the stream is finished.
    pub fn flush(&mut self) -> (r: Result<(), Error>)
        ensures
            r == Ok::<(), Error>(()),
            *final(self) == *old(self),
    {
        self.sink.flush()
    }

    /// Compresses what was written into the sink and gives the sink back.
    ///
    /// Where the engine does not complete, nothing is added and the error is
    /// `Error::Deflate`. Where the sink has no room for all of the compressed
    /// data, it gets what it has room for and the error is
    /// `Error::WriteZero`.
    pub fn finish(self) -> (r: Finish<Sink, Error>)
        ensures
            r.value.limit() == self.limit(),
            ({
                let p = self.options().spec_engine_params();
                match deflated(self.written(), p.level, p.strategy, p.window_bits) {
                    None => r.value@ == self.sink() && r.error == Some(Error::Deflate),
                    Some(data) => if data.len() <= self.room() {
                        r.value@ == self.sink() + data && r.error.is_none()
                    } else {
                        r.value@ == self.sink() + data.take(self.room()) && r.error == Some(
                            Error::WriteZero,
                        )
                    },
                }
            }),
    {
        let p = self.options.engine_params();
        let mut sink = self.sink;
        match deflate_all(self.pending.as_slice(), p.level, p.strategy, p.window_bits) {
            None => Finish::new(sink, Some(Error::Deflate)),
            Some(data) => {
                match sink.write_all(data.as_slice()) {
                    Ok(()) => Finish::new(sink, None),
                    Err(e) => Finish::new(sink, Some(e)),
                }
            },
        }
    }
}

/// What one run of the decompressing engine came to.
#[derive(Debug, Clone, Copy, PartialEq, Eq, Structural)]
pub enum StepStatus {
    /// The stream goes on.
    More,
    /// The stream ended within this run.
    End,
    /// The engine has no input to go on with.
    Starved,
    /// The input is no DEFLATE stream.
    Corrupt,
    /// The engine refused the call.
    Refused,
}

/// One run of the decompressing engine: how much input it took, how much
/// output it gave, and what it came to.
#[derive(Debug, Clone, Copy, PartialEq, Eq, Structural)]
pub struct Step {
    pub consumed: usize,
    pub written: usize,
    pub status: StepStatus,
}

/// The room for output that the first run of the engine is given.
pub const START_ROOM: usize = 0x1000;

/// The most room that a run of the engine is given, and so the most data
/// that a stream can hold.
pub const MAX_ROOM: usize = 0x4000_0000;

/// What a fresh engine makes of the raw DEFLATE stream at the front of
/// `stream` when it has room for `room` bytes of output: how the run went,
/// and the bytes that it put out.
pub uninterp spec fn inflated(stream: Seq<u8>, room: nat) -> (Step, Seq<u8>);

/// `miniz_oxide::inflate::stream::InflateState::new_boxed` and
/// `miniz_oxide::inflate::stream::inflate`, without a request to flush: one
/// run of a fresh engine for raw streams, from the front of `input` into a
/// zeroed buffer of `room` bytes. What comes of it depends on `input` and
/// `room` alone. The engine reads no more than `input` holds and writes no
/// more than the room it has; what is handed back is what it wrote.
#[verifier::external_body]
fn inflate_within(input: &[u8], room: usize) -> (r: (Step, Vec<u8>))
    requires
        room <= MAX_ROOM,
    ensures
        (r.0, r.1@) == inflated(input@, room as nat),
        r.0.consumed <= input@.len(),
        r.0.written <= room,
        r.1@.len() == r.0.written,
{
    let mut out = vec![0u8; room];
    let mut state = miniz_oxide::inflate::stream::InflateState::new_boxed(miniz_oxide::DataFormat::Raw);
    let run = miniz_oxide::inflate::stream::inflate(&mut state, input, &mut out, miniz_oxide::MZFlush::None);
    out.truncate(run.bytes_written);
    let status = match run.status {
        Ok(miniz_oxide::MZStatus::StreamEnd) => StepStatus::End,
        Ok(_) => StepStatus::More,
        Err(miniz_oxide::MZError::Buf) => StepStatus::Starved,
        Err(miniz_oxide::MZError::Data) => StepStatus::Corrupt,
        Err(_) => StepStatus::Refused,
    };
    (Step { consumed: run.bytes_consumed, written: run.bytes_written, status }, out)
}

/// What the engine makes of `stream` with room enough: the run with `room`
/// where that run does not fill its room, else the run with twice the room,
/// and so on up to `MAX_ROOM`.
pub open spec fn settled(stream: Seq<u8>, room: nat) -> (Step, Seq<u8>)
    decreases MAX_ROOM - room,
{
    let r = inflated(stream, room);
    if r.0.status == StepStatus::More && r.0.written == room && 0 < room && room * 2 <= MAX_ROOM {
        settled(stream, room * 2)
    } else {
        r
    }
}

/// What the engine makes of `stream`: the settled run that starts with
/// `START_ROOM`.
pub open spec fn run(stream: Seq<u8>) -> (Step, Seq<u8>) {
    settled(stream, START_ROOM as nat)
}

/// Why a settled run gives no data, if it gives none. Only a run that came
/// to the end of the stream gives data. One that goes on has filled the
/// largest room, or else has come to the end of its input too early.
pub open spec fn fault(step: Step) -> Option<Error> {
    match step.status {
        StepStatus::End => None,
        StepStatus::More => if step.written >= MAX_ROOM {
            Some(Error::TooLarge)
        } else {
            Some(Error::UnexpectedEof)
        },
        StepStatus::Starved => Some(Error::UnexpectedEof),
        StepStatus::Corrupt => Some(Error::InvalidData),
        StepStatus::Refused => Some(Error::Engine),
    }
}

/// Runs the engine on `input` with more and more room until a run does not
/// fill its room.
pub fn settle(input: &[u8]) -> (r: (Step, Vec<u8>))
    ensures
        (r.0, r.1@) == run(input@),
        r.0.consumed <= input@.len(),
        r.1@.len() == r.0.written,
{
    let mut room: usize = START_ROOM;
    loop
        invariant
            0 < room <= MAX_ROOM,
            settled(input@, room as nat) == run(input@),
        decreases MAX_ROOM - room,
    {
        let r = inflate_within(input, room);
        let full = match r.0.status {
            StepStatus::More => r.0.written == room,
            _ => false,
        };
        if full && room <= MAX_ROOM / 2 {
            room = room * 2;
        } else {
            return r;
        }
    }
}

/// A decompressing stream over a source in memory. The first read that has
/// room for data runs the engine over what the source holds and keeps the
/// data; the reads hand them out piece by piece.
#[derive(Debug)]
pub struct Inflater {
    source: Source,
    data: Vec<u8>,
    given: usize,
    opened: bool,
}

impl Inflater {
    /// What the stream has not read from its source.
    pub closed spec fn source(&self) -> Seq<u8> {
        self.source@
    }

    /// Whether the engine has run over the source and come to the end of
    /// the compressed data.
    pub closed spec fn opened(&self) -> bool {
        self.opened
    }

    /// The decompressed data that have not been handed out.
    pub closed spec fn pending(&self) -> Seq<u8> {
        if self.given <= self.data@.len() {
            self.data@.skip(self.given as int)
        } else {
            Seq::<u8>::empty()
        }
    }

    /// Why the stream will give no data, if it will give none: the fault of
    /// the engine's run over the source, for a stream that is not open.
    pub open spec fn fault_ahead(&self) -> Option<Error> {
        if self.opened() {
            None
        } else {
            fault(run(self.source()).0)
        }
    }

    /// The data that the stream has yet to hand out, once it is open.
    pub open spec fn data_ahead(&self) -> Seq<u8> {
        if self.opened() {
            self.pending()
        } else {
            run(self.source()).1
        }
    }

    /// What is left of the source behind the compressed data.
    pub open spec fn source_behind(&self) -> Seq<u8> {
        if self.opened() {
            self.source()
        } else {
            self.source().skip(run(self.source()).0.consumed as int)
        }
    }

    /// A stream that will decompress what `inner` holds from here on.
    pub fn new(inner: Source) -> (r: Self)
        ensures
            r.source() == inner@,
            !r.opened(),
    {
        Inflater { source: inner, data: Vec::new(), given: 0, opened: false }
    }

    /// The source, as far as the stream has not read it.
    pub fn into_inner(self) -> (inner: Source)
        ensures
            inner@ == self.source(),
    {
        self.source
    }

    /// Reads a big-endian 32-bit number from the source, past the engine.
    pub fn read_u32_be(&mut self) -> (r: Result<u32, Error>)
        ensures
            old(self).source().len() >= 4 ==> r == Ok::<u32, Error>(
                crate::bytes::be_value(old(self).source()),
            ) && final(self).source() == old(self).source().skip(4),
            old(self).source().len() < 4 ==> r == Err::<u32, Error>(Error::UnexpectedEof) && final(self).source().len() == 0,
            final(self).opened() == old(self).opened(),
            final(self).pending() == old(self).pending(),
    {
        self.source.read_u32_be()
    }

    /// What the stream makes of a run of the engine over its source that
    /// came to `step` and gave `data`.
    ///
    /// A run that came to the end of the compressed data opens the stream:
    /// the source loses what the run read, and `data` are what the stream
    /// will hand out. Any other run leaves the stream as it is and fails the
    /// read with the run's fault.
    pub fn after_run(&mut self, step: Step, data: Vec<u8>) -> (r: Result<(), Error>)
        requires
            step.consumed <= old(self).source().len(),
        ensures
            match fault(step) {
                Some(e) => r == Err::<(), Error>(e) && *final(self) == *old(self),
                None => {
                    &&& r == Ok::<(), Error>(())
                    &&& final(self).opened()
                    &&& final(self).pending() == data@
                    &&& final(self).source() == old(self).source().skip(step.consumed as int)
                },
            },
    {
        match step.status {
            StepStatus::End => {
                self.source.advance(step.consumed);
                self.data = data;
                self.given = 0;
                self.opened = true;
                assert(self.data@.skip(0) =~= data@);
                Ok(())
            },
            StepStatus::More => {
                if step.written >= MAX_ROOM {
                    Err(Error::TooLarge)
                } else {
                    Err(Error::UnexpectedEof)
                }
            },
            StepStatus::Starved => Err(Error::UnexpectedEof),
            StepStatus::Corrupt => Err(Error::InvalidData),
            StepStatus::Refused => Err(Error::Engine),
        }
    }

    /// Decompresses into the front of `buf` and returns how many bytes it
    /// put there.
    ///
    /// An empty `buf` gets nothing and changes nothing. Otherwise a stream
    /// that is not open runs the engine over its source first, and fails as
    /// `after_run` says where the run gives no data. An open stream hands
    /// out the next data, as many as `buf` has room for; it returns 0 once
    /// all are handed out.
    pub fn read(&mut self, buf: &mut [u8]) -> (r: Result<usize, Error>)
        ensures
            final(buf)@.len() == old(buf)@.len(),
            old(buf)@.len() == 0 ==> r == Ok::<usize, Error>(0) && *final(self) == *old(self)
                && final(buf)@ == old(buf)@,
            old(buf)@.len() > 0 ==> match old(self).fault_ahead() {
                Some(e) => r == Err::<usize, Error>(e) && *final(self) == *old(self) && final(buf)@
                    == old(buf)@,
                None => {
                    let ahead = old(self).data_ahead();
                    let n = if ahead.len() <= old(buf)@.len() {
                        ahead.len()
                    } else {
                        old(buf)@.len()
                    };
                    &&& (r matches Ok(m) && m == n)
                    &&& final(buf)@ == ahead.take(n as int) + old(buf)@.skip(n as int)
                    &&& final(self).opened()
                    &&& final(self).pending() == ahead.skip(n as int)
                    &&& final(self).source() == old(self).source_behind()
                },
            },
    {
        if buf.len() == 0 {
            return Ok(0);
        }
        if !self.opened {
            let (step, data) = settle(self.source.as_slice());
            match self.after_run(step, data) {
                Ok(()) => {},
                Err(e) => {
                    return Err(e);
                },
            }
        }
        let ghost ahead = self.pending();
        let start = if self.given <= self.data.len() {
            self.given
        } else {
            self.data.len()
        };
        let left = self.data.len() - start;
        let n = if left <= buf.len() {
            left
        } else {
            buf.len()
        };
        assert(ahead =~= self.data@.skip(start as int));
        let mut i: usize = 0;
        while i < n
            invariant
                i <= n,
                n <= buf@.len(),
                n <= ahead.len(),
                buf@.len() == old(buf)@.len(),
                start + n <= self.data@.len(),
                self.data@.len() <= usize::MAX,
                ahead == self.data@.skip(start as int),
                buf@ == ahead.take(i as int) + old(buf)@.skip(i as int),
            decreases n - i,
        {
            buf[i] = self.data[start + i];
            assert(buf@ =~= ahead.take(i + 1) + old(buf)@.skip(i + 1));
            i = i + 1;
        }
        self.given = start + n;
        assert(self.pending() =~= ahead.skip(n as int));
        Ok(n)
    }
}

} // verus!
