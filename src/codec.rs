//! Buffer sizing and status interpretation for zlib's `compress` and
//! `uncompress`.
use vstd::prelude::*;

verus! {

/// zlib's status code for success.
pub const Z_OK: i32 = 0;

/// zlib's status code for an inconsistent stream or invalid parameter.
pub const Z_STREAM_ERROR: i32 = -2;

/// zlib's status code for corrupted or incomplete input data.
pub const Z_DATA_ERROR: i32 = -3;

/// zlib's status code for a failed allocation.
pub const Z_MEM_ERROR: i32 = -4;

/// zlib's status code for a destination buffer that is too small.
pub const Z_BUF_ERROR: i32 = -5;

/// Why a one-shot compression failed.
#[derive(Clone, Copy, Debug, PartialEq, Eq, Structural)]
pub enum CompressionError {
    BufferTooSmall,
    MemoryError,
    StreamError,
}

/// Why a one-shot decompression failed.
#[derive(Clone, Copy, Debug, PartialEq, Eq, Structural)]
pub enum DecompressionError {
    BufferTooSmall,
    DataFormatError,
    MemoryError,
}

/// The upper bound zlib's `compressBound` gives for compressing `n` bytes.
pub open spec fn compress_bound_spec(n: nat) -> nat {
    n + n / 4096 + n / 16384 + n / 33554432 + 13
}

/// The destination capacity that is always enough for `compress` on
/// `source_len` input bytes, by zlib's `compressBound` formula.
pub fn compress_bound(source_len: usize) -> (r: usize)
    requires
        source_len <= isize::MAX,
    ensures
        r == compress_bound_spec(source_len as nat),
{
    let n = source_len;
    assert(n / 4096 <= 0x8_0000_0000_0000) by (nonlinear_arith)
        requires n <= isize::MAX;
    assert(n / 16384 <= n / 4096) by (nonlinear_arith);
    assert(n / 33554432 <= n / 4096) by (nonlinear_arith);
    n + n / 4096 + n / 16384 + n / 33554432 + 13
}

/// `compressBound` never shrinks as the input grows, and always leaves
/// room for at least the input itself.
pub proof fn lemma_compress_bound_monotonic(a: nat, b: nat)
    requires
        a <= b,
    ensures
        compress_bound_spec(a) <= compress_bound_spec(b),
        a < compress_bound_spec(a),
{
    assert(a / 4096 <= b / 4096) by (nonlinear_arith)
        requires a <= b;
    assert(a / 16384 <= b / 16384) by (nonlinear_arith)
        requires a <= b;
    assert(a / 33554432 <= b / 33554432) by (nonlinear_arith)
        requires a <= b;
}

/// Every status other than `Z_OK` is a failure of `compress`.
pub open spec fn compression_error_of(status: i32) -> CompressionError {
    if status == Z_BUF_ERROR {
        CompressionError::BufferTooSmall
    } else if status == Z_MEM_ERROR {
        CompressionError::MemoryError
    } else {
        CompressionError::StreamError
    }
}

/// Every status other than `Z_OK` is a failure of `uncompress`.
pub open spec fn decompression_error_of(status: i32) -> DecompressionError {
    if status == Z_BUF_ERROR {
        DecompressionError::BufferTooSmall
    } else if status == Z_MEM_ERROR {
        DecompressionError::MemoryError
    } else {
        DecompressionError::DataFormatError
    }
}

/// The bytes `compress` produced: the first `reported` bytes of `dest`,
/// kept only when the status is `Z_OK` and the reported length fits in
/// `dest`, so no byte beyond what the routine wrote is ever handed out.
pub fn finish_compress(status: i32, reported: u64, dest: Vec<u8>) -> (r: Result<
    Vec<u8>,
    CompressionError,
>)
    ensures
        r is Ok <==> status == Z_OK && reported <= dest.len(),
        r is Ok ==> r->Ok_0@ == dest@.take(reported as int),
        r is Ok ==> r->Ok_0.len() <= dest.len(),
        status != Z_OK ==> r == Err::<Vec<u8>, _>(compression_error_of(status)),
        status == Z_OK && reported > dest.len() ==> r == Err::<Vec<u8>, _>(
            CompressionError::StreamError,
        ),
{
    if status != Z_OK {
        if status == Z_BUF_ERROR {
            Err(CompressionError::BufferTooSmall)
        } else if status == Z_MEM_ERROR {
            Err(CompressionError::MemoryError)
        } else {
            Err(CompressionError::StreamError)
        }
    } else if reported > dest.len() as u64 {
        Err(CompressionError::StreamError)
    } else {
        let mut out = dest;
        out.truncate(reported as usize);
        Ok(out)
    }
}

/// The bytes `uncompress` produced: the first `reported` bytes of `dest`,
/// kept only when the status is `Z_OK` and the reported length fits in
/// `dest`. A destination that was too small surfaces as `BufferTooSmall`.
pub fn finish_uncompress(status: i32, reported: u64, dest: Vec<u8>) -> (r: Result<
    Vec<u8>,
    DecompressionError,
>)
    ensures
        r is Ok <==> status == Z_OK && reported <= dest.len(),
        r is Ok ==> r->Ok_0@ == dest@.take(reported as int),
        r is Ok ==> r->Ok_0.len() <= dest.len(),
        status != Z_OK ==> r == Err::<Vec<u8>, _>(decompression_error_of(status)),
        status == Z_OK && reported > dest.len() ==> r == Err::<Vec<u8>, _>(
            DecompressionError::DataFormatError,
        ),
{
    if status != Z_OK {
        if status == Z_BUF_ERROR {
            Err(DecompressionError::BufferTooSmall)
        } else if status == Z_MEM_ERROR {
            Err(DecompressionError::MemoryError)
        } else {
            Err(DecompressionError::DataFormatError)
        }
    } else if reported > dest.len() as u64 {
        Err(DecompressionError::DataFormatError)
    } else {
        let mut out = dest;
        out.truncate(reported as usize);
        Ok(out)
    }
}

} // verus!
