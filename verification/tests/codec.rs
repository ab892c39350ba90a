//! Wire-primitive tests: varints, compact strings and arrays, the empty-
//! array convention, and tagged-field pass-through.
use kafka_codec::primitives::{
    decode_compact_bytes, decode_compact_count, encode_compact_bytes, parse_compact_string,
    parse_vec_u8_with_signed_varint_length, try_read_nullable_string,
    write_vec_u8_with_signed_varint_length,
};
use kafka_codec::tagged_field::{parse_tagged_fields, write_tagged_fields, TaggedField};
use kafka_codec::varint::{decode_svarint, decode_uvarint, encode_svarint, encode_uvarint};

#[test]
fn test_uvarint_known_encodings() {
    let mut out = Vec::new();
    encode_uvarint(&mut out, 0);
    assert_eq!(out, vec![0x00]);

    let mut out = Vec::new();
    encode_uvarint(&mut out, 300);
    assert_eq!(out, vec![0xac, 0x02]);

    assert_eq!(decode_uvarint(&[0xac, 0x02], 0), Some((300, 2)));
    assert_eq!(decode_uvarint(&[0x00], 0), Some((0, 1)));
}

#[test]
fn test_uvarint_roundtrip_values() {
    for &x in &[0u64, 1, 127, 128, 16383, 16384, u64::MAX - 1, u64::MAX] {
        let mut out = Vec::new();
        encode_uvarint(&mut out, x);
        assert_eq!(decode_uvarint(&out, 0), Some((x, out.len())));
    }
}

#[test]
fn test_uvarint_rejects_truncated_and_noncanonical() {
    // A dangling continuation bit is an error.
    assert_eq!(decode_uvarint(&[0x80], 0), None);
    // A trailing zero group is a non-canonical encoding of 0.
    assert_eq!(decode_uvarint(&[0x80, 0x00], 0), None);
}

#[test]
fn test_svarint_zigzag() {
    let mut out = Vec::new();
    encode_svarint(&mut out, -1);
    assert_eq!(out, vec![0x01]);

    let mut out = Vec::new();
    encode_svarint(&mut out, 1);
    assert_eq!(out, vec![0x02]);

    for &x in &[0i64, 1, -1, 63, -64, 64, i64::MAX, i64::MIN] {
        let mut out = Vec::new();
        encode_svarint(&mut out, x);
        assert_eq!(decode_svarint(&out, 0), Some((x, out.len())));
    }
}

#[test]
fn test_compact_array_empty_convention() {
    // Encoding an empty array emits exactly one byte, 0x00.
    let mut out = Vec::new();
    assert!(encode_compact_bytes(&mut out, &[]));
    assert_eq!(out, vec![0x00]);

    // The null marker 0x00 and the explicit empty count 0x01 decode alike.
    assert_eq!(decode_compact_count(&[0x00], 0), Some((0, 1)));
    assert_eq!(decode_compact_count(&[0x01], 0), Some((0, 1)));
    let (a, _) = decode_compact_bytes(&[0x00], 0).unwrap();
    let (b, _) = decode_compact_bytes(&[0x01], 0).unwrap();
    assert_eq!(a, Vec::<u8>::new());
    assert_eq!(b, Vec::<u8>::new());
}

#[test]
fn test_compact_bytes_roundtrip() {
    let payload = b"abc".to_vec();
    let mut out = Vec::new();
    assert!(encode_compact_bytes(&mut out, &payload));
    assert_eq!(out, vec![0x04, b'a', b'b', b'c']);
    assert_eq!(decode_compact_bytes(&out, 0), Some((payload, 4)));
}

#[test]
fn test_compact_string_rejects_invalid_utf8() {
    // Length 2 (varint 3), then an invalid UTF-8 byte pair.
    let bytes = [0x03, 0xc3, 0x28];
    assert!(parse_compact_string(&bytes, 0).is_none());

    let ok = [0x03, 0x68, 0x69];
    let (s, end) = parse_compact_string(&ok, 0).unwrap();
    assert_eq!(s, "hi");
    assert_eq!(end, 3);
}

#[test]
fn test_signed_length_bytes() {
    let mut out = Vec::new();
    assert!(write_vec_u8_with_signed_varint_length(&mut out, b"xy"));
    assert_eq!(out, vec![0x04, b'x', b'y']);
    assert_eq!(
        parse_vec_u8_with_signed_varint_length(&out, 0),
        Some((b"xy".to_vec(), 3))
    );

    // A negative length decodes as an empty field.
    let neg = [0x01]; // zig-zag for -1
    assert_eq!(
        parse_vec_u8_with_signed_varint_length(&neg, 0),
        Some((Vec::new(), 1))
    );
}

#[test]
fn test_nullable_string() {
    // -1 means absent, decoded as the empty string.
    let absent = [0xff, 0xff];
    let (s, end) = try_read_nullable_string(&absent, 0).unwrap();
    assert_eq!(s, "");
    assert_eq!(end, 2);

    // Any other negative length is a format error.
    let bad = [0xff, 0xfe];
    assert!(try_read_nullable_string(&bad, 0).is_none());

    let named = [0x00, 0x02, b'o', b'k'];
    let (s, end) = try_read_nullable_string(&named, 0).unwrap();
    assert_eq!(s, "ok");
    assert_eq!(end, 4);
}

#[test]
fn test_tagged_field_pass_through() {
    // An unrecognized tag decodes without error and re-encodes to the very
    // bytes it came from.
    let wire = vec![0x01, 0x63, 0x03, 0xde, 0xad, 0xbe];
    let (fields, end) = parse_tagged_fields(&wire, 0).unwrap();
    assert_eq!(end, wire.len());
    assert_eq!(fields.len(), 1);
    assert_eq!(fields[0].field_tag, 0x63);
    assert_eq!(fields[0].data, vec![0xde, 0xad, 0xbe]);

    let mut rewritten = Vec::new();
    write_tagged_fields(&mut rewritten, &fields);
    assert_eq!(rewritten, wire);
}

#[test]
fn test_tagged_fields_constructed_roundtrip() {
    let fields = vec![
        TaggedField {
            field_tag: 0,
            data: Vec::new(),
        },
        TaggedField {
            field_tag: 1_000_000,
            data: vec![9, 8, 7, 6],
        },
    ];
    let mut out = Vec::new();
    write_tagged_fields(&mut out, &fields);
    let (parsed, end) = parse_tagged_fields(&out, 0).unwrap();
    assert_eq!(end, out.len());
    assert_eq!(parsed, fields);
}

#[test]
fn test_emtpy_vector() {
    let vec = Vec::new();
    let mut result = Vec::new();
    kafka_codec::response::utils::write_kafka_tagged_fields_stream(&mut result, &vec);
    assert_eq!(result, vec![0u8])
}
