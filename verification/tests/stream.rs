use zlib_stream::checksum::Adler32;
use zlib_stream::deflate::{
    settle, DeflateOptions, Deflater, EngineParams, Inflater, Step, StepStatus, Strategy, MAX_ROOM,
    START_ROOM,
};
use zlib_stream::lz77::{EffortLevel, Lz77Settings};
use zlib_stream::{
    decode_all, CompressionLevel, Decoder, EncodeOptions, Encoder, Error, ErrorKind, Finish,
    Header, Lz77WindowSize, Sink, Source,
};

const HELLO: [u8; 20] =
    [120, 156, 243, 72, 205, 201, 201, 87, 8, 207, 47, 202, 73, 81, 4, 0, 28, 73, 4, 62];

fn adler(data: &[u8]) -> u32 {
    let mut sum = Adler32::new();
    sum.update(data);
    sum.value()
}

fn drain(decoder: &mut Decoder, chunk_size: usize) -> (Vec<u8>, Result<(), Error>) {
    let mut out = Vec::new();
    let mut chunk = vec![0u8; chunk_size];
    loop {
        match decoder.read(&mut chunk) {
            Ok(0) => return (out, Ok(())),
            Ok(n) => out.extend_from_slice(&chunk[..n]),
            Err(e) => return (out, Err(e)),
        }
    }
}

fn encode(data: &[u8], options: EncodeOptions) -> Vec<u8> {
    let mut encoder = Encoder::with_options(Sink::new(), options).unwrap();
    for piece in data.chunks(1000) {
        assert_eq!(encoder.write(piece), Ok(piece.len()));
    }
    let finished = encoder.finish();
    assert_eq!(finished.error, None);
    finished.value.into_bytes()
}

fn sample(len: usize) -> Vec<u8> {
    let mut state = 0x1234_5678u32;
    let mut out = Vec::with_capacity(len);
    for i in 0..len {
        state = state.wrapping_mul(1_103_515_245).wrapping_add(12345);
        if (i / 97) % 2 == 0 {
            out.push((state >> 16) as u8);
        } else {
            out.push(b'a' + (i % 7) as u8);
        }
    }
    out
}

#[test]
fn adler32_of_known_inputs() {
    assert_eq!(Adler32::new().value(), 1);
    assert_eq!(adler(b""), 1);
    assert_eq!(adler(b"a"), 0x0062_0062);
    assert_eq!(adler(b"Wikipedia"), 0x11E6_0398);
    assert_eq!(adler(b"Hello World!"), 0x1C49_043E);
}

#[test]
fn adler32_does_not_depend_on_the_pieces() {
    let data = sample(20_000);
    let whole = adler(&data);
    for cut in [0usize, 1, 15, 16, 17, 5551, 5552, 5553, 19_999, 20_000] {
        let mut sum = Adler32::new();
        sum.update(&data[..cut]);
        sum.update(&data[cut..]);
        assert_eq!(sum.value(), whole);
    }
    let mut by_byte = Adler32::new();
    for b in data.iter() {
        by_byte.update(&[*b]);
    }
    assert_eq!(by_byte.value(), whole);
}

#[test]
fn adler32_of_many_high_bytes_stays_reduced() {
    let data = vec![0xFFu8; 70_000];
    let value = adler(&data);
    assert!(value & 0xFFFF < 65521);
    assert!(value >> 16 < 65521);
    let mut a: u32 = 1;
    let mut b: u32 = 0;
    for byte in data.iter() {
        a = (a + *byte as u32) % 65521;
        b = (b + a) % 65521;
    }
    assert_eq!(value, (b << 16) | a);
}

#[test]
fn source_reads_in_order() {
    let mut source = Source::new(vec![1, 0x12, 0x34, 0x56, 0x78, 9]);
    assert_eq!(source.read_u8(), Ok(1));
    assert_eq!(source.read_u32_be(), Ok(0x1234_5678));
    assert_eq!(source.as_slice(), &[9]);
    assert_eq!(source.read_u32_be(), Err(Error::UnexpectedEof));
    assert!(source.as_slice().is_empty());
    assert_eq!(source.read_u8(), Err(Error::UnexpectedEof));
}

#[test]
fn source_advances() {
    let mut source = Source::new(vec![1, 2, 3, 4, 5]);
    source.advance(2);
    assert_eq!(source.as_slice(), &[3, 4, 5]);
    source.advance(3);
    assert!(source.as_slice().is_empty());
}

#[test]
fn sink_takes_what_it_has_room_for() {
    let mut sink = Sink::with_limit(5);
    assert_eq!(sink.write(&[1, 2, 3]), 3);
    assert_eq!(sink.write(&[4, 5, 6]), 2);
    assert_eq!(sink.write(&[7]), 0);
    assert_eq!(sink.as_slice(), &[1, 2, 3, 4, 5]);
    assert_eq!(sink.flush(), Ok(()));
    assert_eq!(sink.into_bytes(), vec![1, 2, 3, 4, 5]);
}

#[test]
fn sink_write_all_fails_when_full() {
    let mut sink = Sink::with_limit(3);
    assert_eq!(sink.write_all(&[1, 2]), Ok(()));
    assert_eq!(sink.write_all(&[3, 4]), Err(Error::WriteZero));
    assert_eq!(sink.as_slice(), &[1, 2, 3]);
    assert_eq!(sink.write_u8(9), Err(Error::WriteZero));
    assert_eq!(Error::WriteZero.kind(), ErrorKind::Io);
}

#[test]
fn sink_writes_big_endian() {
    let mut sink = Sink::new();
    assert_eq!(sink.write_u32_be(0x1C49_043E), Ok(()));
    assert_eq!(sink.write_u8(7), Ok(()));
    assert_eq!(sink.as_slice(), &[28, 73, 4, 62, 7]);
    let mut short = Sink::with_limit(3);
    assert_eq!(short.write_u32_be(0x0102_0304), Err(Error::WriteZero));
    assert_eq!(short.as_slice(), &[1, 2, 3]);
}

#[test]
fn finish_keeps_value_and_error() {
    let ok: Finish<u8, Error> = Finish::new(7, None);
    assert_eq!(ok.as_result(), Ok(&7));
    assert_eq!(ok.into_result(), Ok(7));
    let failed: Finish<u8, Error> = Finish::new(7, Some(Error::WriteZero));
    assert_eq!(failed.value, 7);
    assert_eq!(failed.as_result(), Err(&Error::WriteZero));
    assert_eq!(failed.into_result(), Err(Error::WriteZero));
    let again: Finish<u8, Error> = Finish::new(9, None);
    assert_eq!(again.unwrap(), 9);
}

#[test]
fn error_kinds() {
    assert_eq!(Error::UnexpectedEof.kind(), ErrorKind::Io);
    assert_eq!(Error::InconsistentCheckBits { cmf: 1, flg: 2 }.kind(), ErrorKind::FormatViolation);
    assert_eq!(Error::UnsupportedMethod { method: 1 }.kind(), ErrorKind::FormatViolation);
    assert_eq!(Error::InvalidWindowSize { cinfo: 9 }.kind(), ErrorKind::FormatViolation);
    assert_eq!(Error::PresetDictionary { dictionary_id: 1 }.kind(), ErrorKind::UnsupportedFeature);
    assert_eq!(
        Error::ChecksumMismatch { value: 1, expected: 2 }.kind(),
        ErrorKind::ChecksumMismatch
    );
    assert_eq!(Error::InvalidData.kind(), ErrorKind::Engine);
    assert_eq!(Error::Engine.kind(), ErrorKind::Engine);
    assert_eq!(Error::TooLarge.kind(), ErrorKind::Engine);
    assert_eq!(Error::Deflate.kind(), ErrorKind::Engine);
}

#[test]
fn engine_params_follow_the_options() {
    let usual = DeflateOptions::new();
    assert_eq!(usual.block_size, zlib_stream::deflate::DEFAULT_BLOCK_SIZE);
    assert_eq!(
        usual.engine_params(),
        EngineParams { level: 6, strategy: Strategy::Dynamic, window_bits: 15 }
    );
    assert_eq!(
        usual.fixed_huffman_codes().engine_params(),
        EngineParams { level: 6, strategy: Strategy::Fixed, window_bits: 15 }
    );
    assert_eq!(
        usual.fixed_huffman_codes().dynamic_huffman_codes().engine_params(),
        EngineParams { level: 6, strategy: Strategy::Dynamic, window_bits: 15 }
    );
    assert_eq!(
        usual.no_compression().engine_params(),
        EngineParams { level: 0, strategy: Strategy::Dynamic, window_bits: 15 }
    );
    assert_eq!(usual.block_size(512).block_size, 512);
    let small = DeflateOptions::with_lz77(Lz77Settings { window_size: 1024, level: EffortLevel::Best });
    assert_eq!(
        small.engine_params(),
        EngineParams { level: 9, strategy: Strategy::Dynamic, window_bits: 10 }
    );
    let literal =
        DeflateOptions::with_lz77(Lz77Settings { window_size: 32768, level: EffortLevel::Minimal });
    assert_eq!(
        literal.engine_params(),
        EngineParams { level: 1, strategy: Strategy::LiteralsOnly, window_bits: 15 }
    );
    let fast = DeflateOptions::with_lz77(Lz77Settings { window_size: 257, level: EffortLevel::Fast });
    assert_eq!(
        fast.engine_params(),
        EngineParams { level: 1, strategy: Strategy::Dynamic, window_bits: 9 }
    );
}

#[test]
fn deflater_compresses_on_finish() {
    let mut deflater = Deflater::with_options(Sink::new(), DeflateOptions::new().no_compression());
    assert_eq!(deflater.write(b"Hello "), Ok(6));
    assert_eq!(deflater.flush(), Ok(()));
    assert_eq!(deflater.write(b"World!"), Ok(6));
    let finished = deflater.finish();
    assert_eq!(finished.error, None);
    assert_eq!(
        finished.value.into_bytes(),
        [1, 12, 0, 243, 255, 72, 101, 108, 108, 111, 32, 87, 111, 114, 108, 100, 33]
    );
}

#[test]
fn deflater_reports_a_full_sink() {
    let mut deflater =
        Deflater::with_options(Sink::with_limit(8), DeflateOptions::new().no_compression());
    assert_eq!(deflater.write(b"Hello World!"), Ok(12));
    let finished = deflater.finish();
    assert_eq!(finished.error, Some(Error::WriteZero));
    assert_eq!(finished.value.into_bytes(), [1, 12, 0, 243, 255, 72, 101, 108]);
}

#[test]
fn inflater_reads_a_raw_stream_and_leaves_the_rest() {
    let mut stream = HELLO[2..16].to_vec();
    stream.extend_from_slice(&[0xAA, 0xBB]);
    let mut inflater = Inflater::new(Source::new(stream));
    let mut out = Vec::new();
    let mut chunk = [0u8; 5];
    loop {
        let n = inflater.read(&mut chunk).unwrap();
        if n == 0 {
            break;
        }
        out.extend_from_slice(&chunk[..n]);
    }
    assert_eq!(out, b"Hello World!");
    assert_eq!(inflater.read(&mut chunk), Ok(0));
    assert_eq!(inflater.into_inner().as_slice(), &[0xAA, 0xBB]);
}

#[test]
fn inflater_returns_zero_for_an_empty_buffer() {
    let mut inflater = Inflater::new(Source::new(HELLO[2..].to_vec()));
    assert_eq!(inflater.read(&mut []), Ok(0));
    assert_eq!(inflater.into_inner().as_slice(), &HELLO[2..]);
}

#[test]
fn decoder_reads_header_then_data() {
    let mut decoder = Decoder::new(Source::new(HELLO.to_vec())).unwrap();
    assert_eq!(decoder.header().window_size(), Lz77WindowSize::KB32);
    assert_eq!(decoder.header().compression_level(), CompressionLevel::Default);
    let (data, end) = drain(&mut decoder, 3);
    assert_eq!(end, Ok(()));
    assert_eq!(data, b"Hello World!");
}

#[test]
fn decoder_reads_in_any_chunk_size() {
    for size in [1usize, 2, 5, 12, 13, 100, 40_000] {
        let mut decoder = Decoder::new(Source::new(HELLO.to_vec())).unwrap();
        let (data, end) = drain(&mut decoder, size);
        assert_eq!(end, Ok(()));
        assert_eq!(data, b"Hello World!");
    }
}

#[test]
fn decoder_at_end_stays_at_end() {
    let mut stream = HELLO.to_vec();
    stream.extend_from_slice(&[0xAA, 0xBB, 0xCC, 0xDD, 0xEE]);
    let mut decoder = Decoder::new(Source::new(stream)).unwrap();
    let (data, end) = drain(&mut decoder, 64);
    assert_eq!(end, Ok(()));
    assert_eq!(data, b"Hello World!");
    let mut chunk = [7u8; 16];
    for _ in 0..5 {
        assert_eq!(decoder.read(&mut chunk), Ok(0));
        assert_eq!(chunk, [7u8; 16]);
    }
    assert_eq!(decoder.into_inner().as_slice(), &[0xAA, 0xBB, 0xCC, 0xDD, 0xEE]);
}

#[test]
fn decoder_hands_out_all_data_before_a_checksum_mismatch() {
    for bit in 0..32 {
        let mut stream = HELLO.to_vec();
        let at = stream.len() - 4 + bit / 8;
        stream[at] ^= 1 << (bit % 8);
        let trailer = u32::from_be_bytes([
            stream[stream.len() - 4],
            stream[stream.len() - 3],
            stream[stream.len() - 2],
            stream[stream.len() - 1],
        ]);
        let mut decoder = Decoder::new(Source::new(stream)).unwrap();
        let (data, end) = drain(&mut decoder, 4);
        assert_eq!(data, b"Hello World!");
        let e = end.unwrap_err();
        assert_eq!(e, Error::ChecksumMismatch { value: 0x1C49_043E, expected: trailer });
        assert_eq!(e.kind(), ErrorKind::ChecksumMismatch);
        let mut chunk = [0u8; 4];
        assert_eq!(decoder.read(&mut chunk), Ok(0));
    }
}

#[test]
fn decoder_misses_a_short_trailer() {
    let stream = HELLO[..18].to_vec();
    let mut decoder = Decoder::new(Source::new(stream)).unwrap();
    let (data, end) = drain(&mut decoder, 64);
    assert_eq!(data, b"Hello World!");
    assert_eq!(end, Err(Error::UnexpectedEof));
    let mut chunk = [0u8; 4];
    assert_eq!(decoder.read(&mut chunk), Ok(0));
    assert!(decoder.into_inner().as_slice().is_empty());
}

#[test]
fn decoder_reports_truncated_data() {
    let stream = HELLO[..9].to_vec();
    let mut decoder = Decoder::new(Source::new(stream)).unwrap();
    let (_, end) = drain(&mut decoder, 64);
    assert_eq!(end, Err(Error::UnexpectedEof));
}

#[test]
fn decoder_reports_data_that_is_no_deflate_stream() {
    let stream = vec![120, 156, 7, 0, 0, 0, 0, 0, 0];
    let mut decoder = Decoder::new(Source::new(stream)).unwrap();
    let (data, end) = drain(&mut decoder, 64);
    assert!(data.is_empty());
    assert_eq!(end, Err(Error::InvalidData));
    assert_eq!(Error::InvalidData.kind(), ErrorKind::Engine);
}

#[test]
fn decoder_fails_as_the_header_fails() {
    assert_eq!(Decoder::new(Source::new(vec![120, 2])).err(), Some(Error::InconsistentCheckBits { cmf: 120, flg: 2 }));
    assert_eq!(Decoder::new(Source::new(vec![119, 9])).err(), Some(Error::UnsupportedMethod { method: 7 }));
    assert_eq!(Decoder::new(Source::new(vec![136, 28])).err(), Some(Error::InvalidWindowSize { cinfo: 8 }));
    assert_eq!(
        Decoder::new(Source::new(vec![120, 32, 0, 0, 0, 5])).err(),
        Some(Error::PresetDictionary { dictionary_id: 5 })
    );
    assert_eq!(Decoder::new(Source::new(vec![120])).err(), Some(Error::UnexpectedEof));
}

#[test]
fn decoder_takes_an_empty_buffer_for_the_end() {
    let mut decoder = Decoder::new(Source::new(HELLO.to_vec())).unwrap();
    let expected = u32::from_be_bytes([HELLO[2], HELLO[3], HELLO[4], HELLO[5]]);
    assert_eq!(decoder.read(&mut []), Err(Error::ChecksumMismatch { value: 1, expected }));
    let mut chunk = [0u8; 4];
    assert_eq!(decoder.read(&mut chunk), Ok(0));
    assert_eq!(decoder.into_inner().as_slice(), &HELLO[6..]);
}

#[test]
fn after_inner_read_follows_the_inner_result() {
    let mut decoder = Decoder::new(Source::new(vec![120, 156, 0x00, 0x62, 0x00, 0x62, 9])).unwrap();
    assert_eq!(decoder.after_inner_read(b"a", Err(Error::InvalidData)), Err(Error::InvalidData));
    assert_eq!(decoder.after_inner_read(b"a??", Ok(1)), Ok(1));
    assert_eq!(decoder.after_inner_read(b"", Ok(0)), Ok(0));
    assert_eq!(decoder.after_inner_read(b"zz", Ok(2)), Ok(0));
    assert_eq!(decoder.into_inner().as_slice(), &[9]);
}

#[test]
fn options_keep_the_header_in_step() {
    let usual = Encoder::with_options(Sink::new(), EncodeOptions::new()).unwrap();
    assert_eq!(
        *usual.header(),
        Header { window_size: Lz77WindowSize::KB32, compression_level: CompressionLevel::Default }
    );
    let stored = Encoder::with_options(Sink::new(), EncodeOptions::new().no_compression()).unwrap();
    assert_eq!(
        *stored.header(),
        Header { window_size: Lz77WindowSize::KB32, compression_level: CompressionLevel::Fastest }
    );
    let settings = Lz77Settings { window_size: 2000, level: EffortLevel::Best };
    let best = Encoder::with_options(Sink::new(), EncodeOptions::with_lz77(settings)).unwrap();
    assert_eq!(
        *best.header(),
        Header { window_size: Lz77WindowSize::KB2, compression_level: CompressionLevel::Slowest }
    );
    let hinted = EncodeOptions::with_lz77(settings)
        .block_size(64)
        .fixed_huffman_codes()
        .dynamic_huffman_codes();
    let same = Encoder::with_options(Sink::new(), hinted).unwrap();
    assert_eq!(*same.header(), *best.header());
    let off = Encoder::with_options(Sink::new(), hinted.no_compression()).unwrap();
    assert_eq!(
        *off.header(),
        Header { window_size: Lz77WindowSize::KB2, compression_level: CompressionLevel::Fastest }
    );
}

#[test]
fn encoder_writes_the_header_at_once() {
    let encoder = Encoder::new(Sink::new()).unwrap();
    let finished = encoder.finish();
    assert_eq!(finished.error, None);
    let bytes = finished.value.into_bytes();
    assert_eq!(&bytes[..2], &[0x78, 0x9C]);
    assert_eq!(&bytes[bytes.len() - 4..], &[0, 0, 0, 1]);
    assert_eq!(decode_all(&bytes), Ok(Vec::new()));
}

#[test]
fn encoder_needs_room_for_the_header() {
    assert_eq!(Encoder::new(Sink::with_limit(1)).err(), Some(Error::WriteZero));
    assert_eq!(
        Encoder::with_options(Sink::with_limit(0), EncodeOptions::new()).err(),
        Some(Error::WriteZero)
    );
    assert!(Encoder::new(Sink::with_limit(2)).is_ok());
}

#[test]
fn encoder_gives_the_sink_back_with_the_error() {
    let full = [
        120u8, 1, 1, 12, 0, 243, 255, 72, 101, 108, 108, 111, 32, 87, 111, 114, 108, 100, 33, 28,
        73, 4, 62,
    ];
    for limit in 2..full.len() {
        let mut encoder =
            Encoder::with_options(Sink::with_limit(limit), EncodeOptions::new().no_compression())
                .unwrap();
        assert_eq!(encoder.write(b"Hello World!"), Ok(12));
        assert_eq!(encoder.flush(), Ok(()));
        let finished = encoder.finish();
        assert_eq!(finished.error, Some(Error::WriteZero));
        assert_eq!(finished.value.as_slice(), &full[..limit]);
    }
    let mut encoder =
        Encoder::with_options(Sink::with_limit(full.len()), EncodeOptions::new().no_compression())
            .unwrap();
    assert_eq!(encoder.write(b"Hello World!"), Ok(12));
    let finished = encoder.finish();
    assert_eq!(finished.error, None);
    assert_eq!(finished.value.as_slice(), &full[..]);
}

#[test]
fn trailer_is_the_checksum_of_what_was_written() {
    let data = sample(50_000);
    for options in [
        EncodeOptions::new(),
        EncodeOptions::new().no_compression(),
        EncodeOptions::new().fixed_huffman_codes(),
    ] {
        let encoded = encode(&data, options);
        let n = encoded.len();
        let trailer =
            u32::from_be_bytes([encoded[n - 4], encoded[n - 3], encoded[n - 2], encoded[n - 1]]);
        assert_eq!(trailer, adler(&data));
    }
}

#[test]
fn what_is_encoded_decodes_to_itself() {
    let efforts = [EffortLevel::Minimal, EffortLevel::Fast, EffortLevel::Balance, EffortLevel::Best];
    let windows = [1u16, 256, 257, 1024, 4096, 5000, 16384, 32768, 65535];
    for len in [0usize, 1, 2, 100, 4095, 4096, 4097, 70_000, 200_000] {
        let data = sample(len);
        for level in efforts {
            for window_size in windows {
                let settings = Lz77Settings { window_size, level };
                let options = EncodeOptions::with_lz77(settings);
                for options in [options, options.fixed_huffman_codes(), options.no_compression()] {
                    let encoded = encode(&data, options);
                    let mut decoder = Decoder::new(Source::new(encoded.clone())).unwrap();
                    assert_eq!(decoder.header().window_size(), Lz77WindowSize::from_u16(window_size));
                    let (decoded, end) = drain(&mut decoder, 777);
                    assert_eq!(end, Ok(()));
                    assert!(decoded == data);
                    assert!(decoder.into_inner().as_slice().is_empty());
                    assert!(decode_all(&encoded).unwrap() == data);
                }
            }
        }
    }
}

#[test]
fn decoder_hands_back_the_source_with_the_error() {
    let stream = vec![120u8, 187, 0xDE, 0xAD, 0xBE, 0xEF, 9, 9];
    let (e, source) = Decoder::try_new(Source::new(stream)).err().unwrap();
    assert_eq!(e, Error::PresetDictionary { dictionary_id: 0xDEAD_BEEF });
    assert_eq!(source.as_slice(), &[9, 9]);
    let (e, source) = Decoder::try_new(Source::new(vec![120, 2, 5, 6])).err().unwrap();
    assert_eq!(e, Error::InconsistentCheckBits { cmf: 120, flg: 2 });
    assert_eq!(source.as_slice(), &[5, 6]);
    let (e, source) = Decoder::try_new(Source::new(vec![120])).err().unwrap();
    assert_eq!(e, Error::UnexpectedEof);
    assert!(source.as_slice().is_empty());
    let decoder = Decoder::try_new(Source::new(HELLO.to_vec())).ok().unwrap();
    assert_eq!(decoder.into_inner().as_slice(), &HELLO[2..]);
}

#[test]
fn decode_all_returns_the_error_of_the_header() {
    let e = decode_all(&[120u8, 0, 0, 0, 0, 0]).unwrap_err();
    assert_eq!(e, Error::InconsistentCheckBits { cmf: 120, flg: 0 });
    assert_eq!(e.kind(), ErrorKind::FormatViolation);
    assert_eq!(decode_all(&[]), Err(Error::UnexpectedEof));
    assert_eq!(decode_all(&[119, 9]), Err(Error::UnsupportedMethod { method: 7 }));
    assert_eq!(
        decode_all(&[120, 32, 0, 0, 0, 1, 2]),
        Err(Error::PresetDictionary { dictionary_id: 1 })
    );
}

#[test]
fn decode_all_reports_a_damaged_trailer() {
    let mut stream = HELLO.to_vec();
    stream[19] ^= 0x80;
    assert_eq!(
        decode_all(&stream),
        Err(Error::ChecksumMismatch { value: 0x1C49_043E, expected: 0x1C49_04BE })
    );
}

#[test]
fn inflater_opens_on_a_run_that_ended() {
    let step = |consumed, written, status| Step { consumed, written, status };
    let mut inflater = Inflater::new(Source::new(vec![1, 2, 3, 4, 5]));
    assert_eq!(
        inflater.after_run(step(2, 0, StepStatus::More), Vec::new()),
        Err(Error::UnexpectedEof)
    );
    assert_eq!(
        inflater.after_run(step(2, MAX_ROOM, StepStatus::More), Vec::new()),
        Err(Error::TooLarge)
    );
    assert_eq!(
        inflater.after_run(step(0, 0, StepStatus::Starved), Vec::new()),
        Err(Error::UnexpectedEof)
    );
    assert_eq!(
        inflater.after_run(step(1, 0, StepStatus::Corrupt), Vec::new()),
        Err(Error::InvalidData)
    );
    assert_eq!(inflater.after_run(step(1, 0, StepStatus::Refused), Vec::new()), Err(Error::Engine));
    assert_eq!(inflater.after_run(step(3, 4, StepStatus::End), vec![7, 8, 9, 10]), Ok(()));
    let mut chunk = [0u8; 3];
    assert_eq!(inflater.read(&mut chunk), Ok(3));
    assert_eq!(chunk, [7, 8, 9]);
    assert_eq!(inflater.read(&mut []), Ok(0));
    assert_eq!(inflater.read(&mut chunk), Ok(1));
    assert_eq!(chunk, [10, 8, 9]);
    assert_eq!(inflater.read(&mut chunk), Ok(0));
    assert_eq!(inflater.read(&mut chunk), Ok(0));
    assert_eq!(inflater.into_inner().as_slice(), &[4, 5]);
}

#[test]
fn inflater_fails_as_the_run_fails_and_stays_as_it_is() {
    let mut chunk = [0u8; 4];
    let mut cut = Inflater::new(Source::new(HELLO[2..9].to_vec()));
    assert_eq!(cut.read(&mut chunk), Err(Error::UnexpectedEof));
    assert_eq!(cut.read(&mut chunk), Err(Error::UnexpectedEof));
    assert_eq!(cut.into_inner().as_slice(), &HELLO[2..9]);
    let mut empty = Inflater::new(Source::new(Vec::new()));
    assert_eq!(empty.read(&mut chunk), Err(Error::UnexpectedEof));
    let mut corrupt = Inflater::new(Source::new(vec![7, 0, 0, 0]));
    assert_eq!(corrupt.read(&mut chunk), Err(Error::InvalidData));
    assert_eq!(corrupt.into_inner().as_slice(), &[7, 0, 0, 0]);
}

#[test]
fn settle_gives_the_run_more_room_until_it_ends() {
    let data = sample(100_000);
    let stream = encode(&data, EncodeOptions::new());
    let (step, out) = settle(&stream[2..]);
    assert_eq!(step.status, StepStatus::End);
    assert_eq!(step.consumed, stream.len() - 6);
    assert_eq!(step.written, data.len());
    assert!(out == data);
    assert!(START_ROOM < data.len() && data.len() < MAX_ROOM);
}

#[test]
fn encoder_sums_the_front_that_was_taken() {
    let mut sum = Adler32::new();
    assert_eq!(
        Encoder::after_inner_write(&mut sum, b"abcdef", Err(Error::WriteZero)),
        Err(Error::WriteZero)
    );
    assert_eq!(sum.value(), 1);
    assert_eq!(Encoder::after_inner_write(&mut sum, b"abcdef", Ok(3)), Ok(3));
    assert_eq!(sum.value(), adler(b"abc"));
    assert_eq!(Encoder::after_inner_write(&mut sum, b"abcdef", Ok(0)), Ok(0));
    assert_eq!(sum.value(), adler(b"abc"));
    assert_eq!(Encoder::after_inner_write(&mut sum, b"defghi", Ok(1)), Ok(1));
    assert_eq!(sum.value(), adler(b"abcd"));
    assert_eq!(Encoder::after_inner_write(&mut sum, b"efg", Ok(3)), Ok(3));
    assert_eq!(sum.value(), adler(b"abcdefg"));
}

#[test]
fn encoder_is_whole_after_each_write_and_flush() {
    let mut encoder =
        Encoder::with_options(Sink::with_limit(64), EncodeOptions::new().no_compression()).unwrap();
    assert_eq!(encoder.write(b"Hello "), Ok(6));
    assert_eq!(encoder.flush(), Ok(()));
    assert_eq!(
        *encoder.header(),
        Header { window_size: Lz77WindowSize::KB32, compression_level: CompressionLevel::Fastest }
    );
    assert_eq!(encoder.write(b"World!"), Ok(6));
    assert_eq!(encoder.flush(), Ok(()));
    let finished = encoder.finish();
    assert_eq!(finished.error, None);
    assert_eq!(
        finished.value.into_bytes(),
        [
            120, 1, 1, 12, 0, 243, 255, 72, 101, 108, 108, 111, 32, 87, 111, 114, 108, 100, 33,
            28, 73, 4, 62
        ]
    );
}

#[test]
fn trailer_covers_many_writes() {
    let data = sample(10_000);
    let mut encoder = Encoder::new(Sink::new()).unwrap();
    let mut at = 0;
    let mut size = 1;
    while at < data.len() {
        let end = (at + size).min(data.len());
        assert_eq!(encoder.write(&data[at..end]), Ok(end - at));
        assert_eq!(encoder.write(&[]), Ok(0));
        at = end;
        size = size * 2 + 1;
    }
    let bytes = encoder.finish().into_result().unwrap().into_bytes();
    assert_eq!(&bytes[bytes.len() - 4..], &adler(&data).to_be_bytes());
    assert!(decode_all(&bytes).unwrap() == data);
}
