//! What can go wrong while a stream is read or written.

use vstd::prelude::*;

verus! {

/// The reason an operation on a stream failed.
#[derive(Debug, Clone, Copy, PartialEq, Eq, Structural)]
pub enum Error {
    /// The source ended before the bytes that the format calls for.
    UnexpectedEof,
    /// The sink took fewer bytes than it was given.
    WriteZero,
    /// `cmf * 256 + flg` is not a multiple of 31.
    InconsistentCheckBits { cmf: u8, flg: u8 },
    /// The compression method is not DEFLATE.
    UnsupportedMethod { method: u8 },
    /// The window-size class is above 7.
    InvalidWindowSize { cinfo: u8 },
    /// The stream asks for a preset dictionary.
    PresetDictionary { dictionary_id: u32 },
    /// The trailer is not the checksum of the data that was read.
    ChecksumMismatch { value: u32, expected: u32 },
    /// The compressed data are no DEFLATE stream.
    InvalidData,
    /// The data of the stream are more than memory is asked to hold.
    TooLarge,
    /// The engine refused to go on.
    Engine,
    /// The engine did not complete the compressed data.
    Deflate,
}

/// The classes into which the errors fall.
#[derive(Debug, Clone, Copy, PartialEq, Eq, Structural)]
pub enum ErrorKind {
    /// The header breaks the format.
    FormatViolation,
    /// The stream uses a feature that is outside this library.
    UnsupportedFeature,
    /// The data were damaged on the way.
    ChecksumMismatch,
    /// The source or the sink failed.
    Io,
    /// The compression engine failed.
    Engine,
}

impl Error {
    /// The class of an error.
    pub open spec fn spec_kind(self) -> ErrorKind {
        match self {
            Error::UnexpectedEof | Error::WriteZero => ErrorKind::Io,
            Error::InconsistentCheckBits { .. }
            | Error::UnsupportedMethod { .. }
            | Error::InvalidWindowSize { .. } => ErrorKind::FormatViolation,
            Error::PresetDictionary { .. } => ErrorKind::UnsupportedFeature,
            Error::ChecksumMismatch { .. } => ErrorKind::ChecksumMismatch,
            Error::InvalidData | Error::TooLarge | Error::Engine | Error::Deflate => ErrorKind::Engine,
        }
    }

    /// The class of this error.
    #[verifier::when_used_as_spec(spec_kind)]
    pub fn kind(self) -> (k: ErrorKind)
        ensures
            k == self.spec_kind(),
    {
        match self {
            Error::UnexpectedEof => ErrorKind::Io,
            Error::WriteZero => ErrorKind::Io,
            Error::InconsistentCheckBits { .. } => ErrorKind::FormatViolation,
            Error::UnsupportedMethod { .. } => ErrorKind::FormatViolation,
            Error::InvalidWindowSize { .. } => ErrorKind::FormatViolation,
            Error::PresetDictionary { .. } => ErrorKind::UnsupportedFeature,
            Error::ChecksumMismatch { .. } => ErrorKind::ChecksumMismatch,
            Error::InvalidData => ErrorKind::Engine,
            Error::TooLarge => ErrorKind::Engine,
            Error::Engine => ErrorKind::Engine,
            Error::Deflate => ErrorKind::Engine,
        }
    }
}

} // verus!
