//! The stream as a whole: header, compressed data, trailer.

use crate::bytes::{be_bytes, lemma_be_round_trip};
use crate::checksum::adler32;
use crate::decoder::{check_trailer, decoded};
use crate::deflate::{run, StepStatus};
use crate::error::Error;
use crate::header::{lemma_header_round_trip, parse, Header};
use vstd::prelude::*;

verus! {

/// The stream that carries `data`, compressed to `payload`, under `header`.
pub open spec fn frame(header: Header, payload: Seq<u8>, data: Seq<u8>) -> Seq<u8> {
    header.bytes() + payload + be_bytes(adler32(data))
}

/// A stream reads back as it was framed, whatever follows it: its header
/// reads as the header it was given, the compressed data follow at once, and
/// behind them stands a trailer that passes the check against the checksum
/// of the data.
pub proof fn lemma_frame_reads_back(header: Header, payload: Seq<u8>, data: Seq<u8>, rest: Seq<u8>)
    ensures
        parse(frame(header, payload, data) + rest) == (Ok::<Header, Error>(header), 2nat),
        (frame(header, payload, data) + rest).skip(2) == payload + be_bytes(adler32(data)) + rest,
        (frame(header, payload, data) + rest).skip(2 + payload.len() as int) == be_bytes(adler32(data))
            + rest,
        check_trailer(be_bytes(adler32(data)) + rest, adler32(data)) == Ok::<usize, Error>(0),
{
    let stream = frame(header, payload, data) + rest;
    let trailer = be_bytes(adler32(data));
    lemma_header_round_trip(header, payload + trailer + rest);
    assert(stream =~= header.bytes() + (payload + trailer + rest));
    assert(stream.skip(2) =~= payload + trailer + rest);
    assert(stream.skip(2 + payload.len() as int) =~= trailer + rest);
    lemma_be_round_trip(adler32(data));
    assert((trailer + rest)[0] == trailer[0]);
    assert((trailer + rest)[1] == trailer[1]);
    assert((trailer + rest)[2] == trailer[2]);
    assert((trailer + rest)[3] == trailer[3]);
}

/// Decoding gives back what was framed, as far as the engine gives back
/// what it was given: where the engine, run over `payload` and what follows
/// it, ends behind `payload` with `data`, the stream that frames `payload`
/// and `data` decodes to `data`, whatever stands behind the stream.
pub proof fn lemma_round_trip(header: Header, payload: Seq<u8>, data: Seq<u8>, rest: Seq<u8>)
    ensures
        ({
            let engine = run(payload + be_bytes(adler32(data)) + rest);
            engine.0.status == StepStatus::End && engine.0.consumed == payload.len() && engine.1
                == data
        }) ==> decoded(frame(header, payload, data) + rest) == Ok::<Seq<u8>, Error>(data),
{
    lemma_frame_reads_back(header, payload, data, rest);
    let stream = frame(header, payload, data) + rest;
    let behind = payload + be_bytes(adler32(data)) + rest;
    assert(stream.skip(2) == behind);
    assert(behind.skip(payload.len() as int) =~= be_bytes(adler32(data)) + rest);
}

} // verus!
