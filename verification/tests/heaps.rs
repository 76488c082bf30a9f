//! Tests of the four heap decoders and the shared length prefix.

use aps::cli::blobs::{emit_blob_len, parse_blob, parse_blobs, parse_user_strings};
use aps::cli::guids::parse_guids;
use aps::cli::strings::parse_strings;
use aps::error::ApsError;

#[test]
fn blob_prefix_one_byte() {
    let data: Vec<u8> = vec![0x05, b'h', b'e', b'l', b'l', b'o'];
    let (payload, consumed) = parse_blob(&data).unwrap();
    assert_eq!(payload, b"hello".to_vec());
    assert_eq!(consumed, 6);
}

#[test]
fn blob_prefix_two_bytes() {
    let mut data: Vec<u8> = vec![0x81, 0x00];
    data.extend(std::iter::repeat(0xAB).take(256));
    let (payload, consumed) = parse_blob(&data).unwrap();
    assert_eq!(payload.len(), 256);
    assert_eq!(consumed, 258);
}

#[test]
fn blob_prefix_four_bytes() {
    // ((b0 & 0x1F) << 24) | (b1 << 16) | (b2 << 8) | b3 with
    // b1 = 0x01 gives 65,536.
    let mut data: Vec<u8> = vec![0xC0, 0x01, 0x00, 0x00];
    data.extend(std::iter::repeat(0xCD).take(65_536));
    let (payload, consumed) = parse_blob(&data).unwrap();
    assert_eq!(payload.len(), 65_536);
    assert_eq!(consumed, 65_540);
}

#[test]
fn blob_prefix_four_bytes_small_value() {
    // The same four-byte form can carry a small length: b2 = 0x01 is
    // 256.
    let mut data: Vec<u8> = vec![0xC0, 0x00, 0x01, 0x00];
    data.extend(std::iter::repeat(0xEE).take(256));
    let (payload, consumed) = parse_blob(&data).unwrap();
    assert_eq!(payload.len(), 256);
    assert_eq!(consumed, 260);
}

#[test]
fn blob_prefix_malformed() {
    let data: Vec<u8> = vec![0xF0, 0x00, 0x00, 0x00];
    let e = parse_blob(&data).unwrap_err();
    assert!(matches!(e, ApsError::General(_)));
    assert_eq!(e.message(), "Incorrect blob length.");
}

#[test]
fn blob_prefix_truncated_payload() {
    let data: Vec<u8> = vec![0x05, b'h', b'i'];
    let e = parse_blob(&data).unwrap_err();
    assert!(matches!(e, ApsError::Parse(_)));
}

#[test]
fn blob_len_round_trip() {
    for &len in &[0u32, 1, 0x7F, 0x80, 0x100, 0x3FFF, 0x4000, 0x10000, 0x1FFF_FFFF] {
        let prefix = emit_blob_len(len);
        match len {
            0..=0x7F => assert_eq!(prefix.len(), 1),
            0x80..=0x3FFF => assert_eq!(prefix.len(), 2),
            _ => assert_eq!(prefix.len(), 4),
        }
        // Re-reading the emitted prefix recovers the length and
        // consumes exactly the emitted bytes. (A short payload keeps
        // the buffer small; lengths that large are not materialized.)
        if len <= 0x100 {
            let mut data = prefix.clone();
            data.extend(std::iter::repeat(0x5A).take(len as usize));
            data.push(0xFF);
            let (payload, consumed) = parse_blob(&data).unwrap();
            assert_eq!(payload.len(), len as usize);
            assert_eq!(consumed, prefix.len() + len as usize);
        }
    }
}

#[test]
fn blobs_heap() {
    // Leading empty blob, then "ab", then a final lone byte that is
    // not a record.
    let data: Vec<u8> = vec![0x00, 0x02, b'a', b'b', 0x00];
    let blobs = parse_blobs(&data).unwrap();
    assert_eq!(blobs.len(), 2);
    assert_eq!(blobs[0], Vec::<u8>::new());
    assert_eq!(blobs[1], b"ab".to_vec());
}

#[test]
fn blobs_heap_malformed() {
    let data: Vec<u8> = vec![0x00, 0xFF, 0x00];
    assert!(parse_blobs(&data).is_err());
}

#[test]
fn strings_heap() {
    // The split covers the whole heap: the mandatory leading NUL
    // makes the first part the empty string.
    let data: Vec<u8> = b"\0abc\0de\0".to_vec();
    let strings = parse_strings(&data).unwrap();
    assert_eq!(
        strings,
        vec![String::new(), "abc".to_string(), "de".to_string(), String::new()]
    );
}

#[test]
fn strings_heap_minimal() {
    // One NUL splits into two empty parts.
    let data: Vec<u8> = vec![0x00];
    let strings = parse_strings(&data).unwrap();
    assert_eq!(strings, vec![String::new(), String::new()]);
}

#[test]
fn strings_heap_multibyte_utf8() {
    // A decoder that handed raw bytes back unchanged would not
    // produce the two-character string.
    let data: Vec<u8> = vec![0x00, 0xC3, 0xA9, 0x21, 0x00];
    let strings = parse_strings(&data).unwrap();
    assert_eq!(strings[0], "");
    assert_eq!(strings[1], "\u{e9}!");
}

#[test]
fn strings_heap_missing_lead_nul() {
    let data: Vec<u8> = b"abc\0".to_vec();
    let e = parse_strings(&data).unwrap_err();
    assert_eq!(e.message(), "Strings heap is invalid.");
}

#[test]
fn strings_heap_invalid_utf8() {
    let data: Vec<u8> = vec![0x00, 0xFF, 0xFE, 0x00];
    let e = parse_strings(&data).unwrap_err();
    assert_eq!(e.message(), "Found a string that is not a valid utf-8 string.");
}

#[test]
fn user_strings_heap() {
    // Empty record, then "hi" as UTF-16LE with a zero flag byte.
    let data: Vec<u8> = vec![0x00, 0x05, 0x68, 0x00, 0x69, 0x00, 0x00];
    let strings = parse_user_strings(&data).unwrap();
    assert_eq!(strings, vec![String::new(), "hi".to_string()]);
}

#[test]
fn user_strings_heap_invalid_utf16() {
    // A lone high surrogate cannot decode.
    let data: Vec<u8> = vec![0x00, 0x03, 0x00, 0xD8, 0x01];
    let e = parse_user_strings(&data).unwrap_err();
    assert_eq!(e.message(), "User string is not a valid utf-16 string.");
}

#[test]
fn guid_heap_single() {
    let data: Vec<u8> = vec![
        0x78, 0x56, 0x34, 0x12, 0x34, 0x12, 0x78, 0x56, 0x11, 0x22, 0x33, 0x44, 0x55, 0x66, 0x77,
        0x88,
    ];
    let guids = parse_guids(&data).unwrap();
    assert_eq!(guids.len(), 1);
    assert_eq!(guids[0].data0, 0x12345678);
    assert_eq!(guids[0].data1, 0x1234);
    assert_eq!(guids[0].data2, 0x5678);
    assert_eq!(guids[0].data3, [0x11, 0x22, 0x33, 0x44, 0x55, 0x66, 0x77, 0x88]);
}

#[test]
fn guid_heap_count_is_size_over_16() {
    let data: Vec<u8> = vec![0u8; 48];
    let guids = parse_guids(&data).unwrap();
    assert_eq!(guids.len(), 3);
}

#[test]
fn guid_heap_size_not_multiple_of_16() {
    let data: Vec<u8> = vec![0u8; 17];
    let e = parse_guids(&data).unwrap_err();
    assert_eq!(e.message(), "Invalid #GUID heap size.");
}

#[test]
fn guid_heap_empty() {
    let data: Vec<u8> = Vec::new();
    assert_eq!(parse_guids(&data).unwrap().len(), 0);
}

#[test]
fn blobs_heap_empty() {
    let data: Vec<u8> = Vec::new();
    assert_eq!(parse_blobs(&data).unwrap().len(), 0);
}

#[test]
fn user_strings_heap_minimal() {
    let data: Vec<u8> = vec![0x00];
    assert_eq!(parse_user_strings(&data).unwrap(), vec![String::new()]);
}
