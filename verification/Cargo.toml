[package]
name = "zlib_stream"
version = "0.1.0"
edition = "2021"
publish = false

[dependencies]
adler32 = "=1.2.0"
byteorder = "=1.5.0"
miniz_oxide = "=0.9.1"
