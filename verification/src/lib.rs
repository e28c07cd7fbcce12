//! The ZLIB container format (RFC 1950) around a DEFLATE engine: the two-byte
//! header, a streaming decoder that checks the Adler-32 trailer, and a
//! streaming encoder that writes it.

pub mod bytes;
pub mod checksum;
pub mod decoder;
pub mod deflate;
pub mod encoder;
pub mod error;
pub mod finish;
pub mod frame;
pub mod header;
pub mod lz77;

pub use crate::bytes::{Sink, Source};
pub use crate::decoder::{decode_all, Decoder};
pub use crate::encoder::{EncodeOptions, Encoder};
pub use crate::error::{Error, ErrorKind};
pub use crate::finish::Finish;
pub use crate::header::{CompressionLevel, Header, Lz77WindowSize};
