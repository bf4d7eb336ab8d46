//! Trace and span ids.

use imbh_c::ids::{hex_decode, hex_lower, SpanId, TraceId};

#[test]
fn trace_ids_are_read_in_either_case_and_written_in_lower_case() {
    let text = "00FFa1B2c3D4e5F60718293a4B5c6D7e";
    let id = TraceId::from_hex(text).unwrap();
    assert_eq!(id.bytes[0], 0x00);
    assert_eq!(id.bytes[1], 0xff);
    assert_eq!(id.bytes[15], 0x7e);
    assert_eq!(id.to_hex(), text.to_lowercase());
}

#[test]
fn anything_but_32_digits_is_no_trace_id() {
    assert!(TraceId::from_hex("").is_none());
    assert!(TraceId::from_hex("0000000000000000000000000000000").is_none());
    assert!(TraceId::from_hex("000000000000000000000000000000000").is_none());
    assert!(TraceId::from_hex("0000000000000000000000000000000g").is_none());
    assert!(TraceId::from_hex("000000000000000000000000000000é").is_none());
    assert!(TraceId::from_hex("00000000000000000000000000000000").is_some());
}

#[test]
fn bytes_survive_their_hexadecimal_form() {
    let bytes: Vec<u8> = (0..=255).collect();
    let text = hex_lower(&bytes);
    assert_eq!(text.len(), 512);
    assert_eq!(&text[..8], "00010203");
    assert_eq!(&text[504..], "fcfdfeff");
    assert_eq!(hex_decode(&text, 256).unwrap(), bytes);
    let span = SpanId { bytes: [0xde, 0xad, 0xbe, 0xef, 0, 1, 2, 3] };
    assert_eq!(span.to_hex(), "deadbeef00010203");
}
