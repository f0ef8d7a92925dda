use zlib_wrapper::codec::{
    compress_bound, finish_compress, finish_uncompress, CompressionError, DecompressionError,
    Z_BUF_ERROR, Z_DATA_ERROR, Z_MEM_ERROR, Z_OK, Z_STREAM_ERROR,
};

#[test]
fn compress_bound_exact_values() {
    assert_eq!(compress_bound(0), 13);
    assert_eq!(compress_bound(32), 45);
    assert_eq!(compress_bound(4096), 4110);
    assert_eq!(compress_bound(16384), 16402);
    assert_eq!(compress_bound(33554432), 33564686);
}

#[test]
fn compress_bound_is_monotonic_and_above_input() {
    let mut previous = compress_bound(0);
    for n in 1..70000usize {
        let b = compress_bound(n);
        assert!(b >= previous);
        assert!(b > n);
        previous = b;
    }
}

#[test]
fn compress_bound_largest_length() {
    let n = isize::MAX as usize;
    let b = compress_bound(n);
    assert!(b > n);
}

#[test]
fn finish_compress_keeps_written_prefix() {
    let dest = vec![7u8, 8, 9, 10, 11];
    let r = finish_compress(Z_OK, 3, dest).unwrap();
    assert_eq!(r, vec![7u8, 8, 9]);
}

#[test]
fn finish_compress_empty_output() {
    let r = finish_compress(Z_OK, 0, vec![1u8, 2]).unwrap();
    assert!(r.is_empty());
}

#[test]
fn finish_compress_whole_buffer() {
    let r = finish_compress(Z_OK, 4, vec![1u8, 2, 3, 4]).unwrap();
    assert_eq!(r, vec![1u8, 2, 3, 4]);
}

#[test]
fn finish_compress_status_errors() {
    assert_eq!(
        finish_compress(Z_BUF_ERROR, 2, vec![0u8; 4]),
        Err(CompressionError::BufferTooSmall)
    );
    assert_eq!(
        finish_compress(Z_MEM_ERROR, 2, vec![0u8; 4]),
        Err(CompressionError::MemoryError)
    );
    assert_eq!(
        finish_compress(Z_STREAM_ERROR, 2, vec![0u8; 4]),
        Err(CompressionError::StreamError)
    );
    assert_eq!(
        finish_compress(Z_DATA_ERROR, 2, vec![0u8; 4]),
        Err(CompressionError::StreamError)
    );
}

#[test]
fn finish_compress_rejects_length_beyond_buffer() {
    assert_eq!(
        finish_compress(Z_OK, 5, vec![0u8; 4]),
        Err(CompressionError::StreamError)
    );
}

#[test]
fn finish_uncompress_keeps_written_prefix() {
    let r = finish_uncompress(Z_OK, 2, vec![4u8, 5, 6]).unwrap();
    assert_eq!(r, vec![4u8, 5]);
}

#[test]
fn finish_uncompress_buffer_too_small() {
    assert_eq!(
        finish_uncompress(Z_BUF_ERROR, 10, vec![0u8; 10]),
        Err(DecompressionError::BufferTooSmall)
    );
}

#[test]
fn finish_uncompress_status_errors() {
    assert_eq!(
        finish_uncompress(Z_DATA_ERROR, 0, vec![0u8; 4]),
        Err(DecompressionError::DataFormatError)
    );
    assert_eq!(
        finish_uncompress(Z_MEM_ERROR, 0, vec![0u8; 4]),
        Err(DecompressionError::MemoryError)
    );
    assert_eq!(
        finish_uncompress(Z_STREAM_ERROR, 0, vec![0u8; 4]),
        Err(DecompressionError::DataFormatError)
    );
}

#[test]
fn finish_uncompress_rejects_length_beyond_buffer() {
    assert_eq!(
        finish_uncompress(Z_OK, 11, vec![0u8; 10]),
        Err(DecompressionError::DataFormatError)
    );
}

#[test]
fn hello_zlib_recovered_from_hundred_byte_buffer() {
    let text = "hello, zlib, no exclamation mark";
    let mut dest = vec![0u8; 100];
    dest[..text.len()].copy_from_slice(text.as_bytes());
    let r = finish_uncompress(Z_OK, text.len() as u64, dest).unwrap();
    assert_eq!(r.len(), 32);
    assert_eq!(r, text.as_bytes().to_vec());
    assert_eq!(String::from_utf8(r).unwrap(), text);
}
