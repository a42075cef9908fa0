use brotli::enc::oneshot::{oneshot, oneshot_compress, oneshot_decompress, BrotliResult};

#[test]
fn test_roundtrip_10x10y() {
    const BUFFER_SIZE: usize = 16384;
    let mut compressed: [u8; 12] = [0x1b, 0x13, 0x00, 0x00, 0xa4, 0xb0, 0xb2, 0xea, 0x81, 0x47, 0x02, 0x8a];
    let mut output = [0u8; BUFFER_SIZE];
    let mut input = [0u8; BUFFER_SIZE];
    let (result, compressed_offset, output_offset) = oneshot(&mut input[..], &mut compressed, &mut output[..]);
    match result {
        BrotliResult::ResultSuccess => {}
        _ => assert!(false),
    }
    let mut i: usize = 0;
    while i < 10 {
        assert_eq!(output[i], 'X' as u8);
        assert_eq!(output[i + 10], 'Y' as u8);
        i += 1;
    }
    assert_eq!(output_offset, 20);
    assert_eq!(compressed_offset, compressed.len());
}

#[test]
fn test_roundtrip_x() {
    const BUFFER_SIZE: usize = 16384;
    let mut compressed: [u8; 5] = [0x0b, 0x00, 0x80, 0x58, 0x03];
    let mut output = [0u8; BUFFER_SIZE];
    let mut input = [0u8; BUFFER_SIZE];
    let (result, compressed_offset, output_offset) = oneshot(&mut input[..], &mut compressed[..], &mut output[..]);
    match result {
        BrotliResult::ResultSuccess => {}
        _ => assert!(false),
    }
    assert_eq!(output[0], 'X' as u8);
    assert_eq!(output_offset, 1);
    assert_eq!(compressed_offset, compressed.len());
}

#[test]
fn test_roundtrip_empty() {
    let mut compressed: [u8; 1] = [0x06];
    let mut output = [0u8; 1];
    let (result, compressed_offset, output_offset) = oneshot(&mut [], &mut compressed[..], &mut output[..]);
    match result {
        BrotliResult::ResultSuccess => {}
        _ => assert!(false),
    }
    assert_eq!(output_offset, 0);
    assert_eq!(compressed_offset, compressed.len());
}

#[test]
fn compress_reports_failure_and_writes_nothing() {
    let mut input = [1u8, 2, 3];
    let mut output = [7u8; 4];
    assert_eq!(oneshot_compress(&mut input, &mut output), (0, 0));
    assert_eq!(input, [1, 2, 3]);
    assert_eq!(output, [7, 7, 7, 7]);
}

#[test]
fn decompress_leaves_the_compressed_bytes_alone() {
    let mut compressed: [u8; 5] = [0x0b, 0x00, 0x80, 0x58, 0x03];
    let mut output = [7u8; 8];
    let (result, consumed, produced) = oneshot_decompress(&mut compressed, &mut output);
    assert_eq!(result, BrotliResult::ResultSuccess);
    assert_eq!((consumed, produced), (5, 1));
    assert_eq!(compressed, [0x0b, 0x00, 0x80, 0x58, 0x03]);
    assert_eq!(output, [b'X', 7, 7, 7, 7, 7, 7, 7]);
}

#[test]
fn decompress_into_short_output_needs_more_output() {
    let mut compressed: [u8; 12] = [0x1b, 0x13, 0x00, 0x00, 0xa4, 0xb0, 0xb2, 0xea, 0x81, 0x47, 0x02, 0x8a];
    let mut output = [0u8; 5];
    let (result, _consumed, produced) = oneshot_decompress(&mut compressed, &mut output);
    assert_eq!(result, BrotliResult::NeedsMoreOutput);
    assert_eq!(produced, 5);
    assert_eq!(output, [b'X'; 5]);
}

#[test]
fn decompress_of_nothing_needs_more_input() {
    let mut compressed: [u8; 0] = [];
    let mut output = [9u8; 4];
    let (result, consumed, produced) = oneshot_decompress(&mut compressed, &mut output);
    assert_eq!(result, BrotliResult::NeedsMoreInput);
    assert_eq!((consumed, produced), (0, 0));
    assert_eq!(output, [9u8; 4]);
}

#[test]
fn decompress_of_a_reserved_bit_fails() {
    // A metadata block header whose reserved bit is set.
    let mut compressed: [u8; 1] = [0x1c];
    let mut output = [0u8; 4];
    let (result, _consumed, produced) = oneshot_decompress(&mut compressed, &mut output);
    assert_eq!(result, BrotliResult::ResultFailure);
    assert_eq!(produced, 0);
}
