//! A safe boundary layer over zlib's one-shot `compress` / `uncompress`
//! routines and its gzip-file reader.
//!
//! The library itself makes no native call. It sizes the destination
//! buffers, reads every status code the native routines return, keeps only
//! the bytes they report as written, and decides each step of reading a
//! gzip file. The caller performs the native calls and hands their results
//! back as plain values.
pub mod codec;
pub mod gz_reader;
