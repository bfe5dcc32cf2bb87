//! Tests for the primitive codecs: byte recombination, boolean bytes, and
//! UTF-16 string encoding.

use mcp2210::{as_bool, as_u16, as_u32, encode_utf16_to_buffer, utf16_code_units};

#[test]
fn test_as_u16() {
    assert_eq!(as_u16(0xaa, 0x55), 0x55aa);
}

#[test]
fn test_as_u32() {
    assert_eq!(as_u32(0x11, 0x22, 0x33, 0x44), 0x44332211);
}

#[test]
fn test_encode_utf16_to_buffer() {
    let mut buf = vec![0u8; 14];
    encode_utf16_to_buffer("보라색 고양이", &mut buf);
    assert_eq!(
        buf,
        [0xf4, 0xbc, 0x7c, 0xb7, 0xc9, 0xc0, 0x20, 0x00, 0xe0, 0xac, 0x91, 0xc5, 0x74, 0xc7]
    );
}

#[test]
fn test_encode_utf16_leaves_tail_untouched() {
    let mut buf = vec![0xeeu8; 6];
    encode_utf16_to_buffer("ab", &mut buf);
    assert_eq!(buf, [0x61, 0x00, 0x62, 0x00, 0xee, 0xee]);
}

#[test]
fn test_utf16_code_units_surrogate_pair() {
    // U+1F600 encodes as the surrogate pair D83D DE00.
    let units = utf16_code_units("\u{1F600}");
    assert_eq!(units, [0xd83d, 0xde00]);
    let units = utf16_code_units("");
    assert!(units.is_empty());
}

#[test]
fn test_as_bool() {
    assert_eq!(as_bool(0x00), Ok(false));
    assert_eq!(as_bool(0x01), Ok(true));
    assert_eq!(as_bool(0x02), Err(0x02));
    assert_eq!(as_bool(0xff), Err(0xff));
}
