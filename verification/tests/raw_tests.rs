use clustered_shading::raw::RawArrayHeader;
use clustered_shading::raw::RawEncodingKind;
use clustered_shading::raw::RawFileHeader;
use clustered_shading::raw::RawNodeHeader;
use clustered_shading::raw::RawPropertyKind;

#[test]
fn property_kind_tags_are_the_format_characters() {
    assert_eq!(RawPropertyKind::BOOL, b'C');
    assert_eq!(RawPropertyKind::I16, b'Y');
    assert_eq!(RawPropertyKind::I32, b'I');
    assert_eq!(RawPropertyKind::I64, b'L');
    assert_eq!(RawPropertyKind::F32, b'F');
    assert_eq!(RawPropertyKind::F64, b'D');
    assert_eq!(RawPropertyKind::BOOL_ARRAY, b'b');
    assert_eq!(RawPropertyKind::I32_ARRAY, b'i');
    assert_eq!(RawPropertyKind::I64_ARRAY, b'l');
    assert_eq!(RawPropertyKind::F32_ARRAY, b'f');
    assert_eq!(RawPropertyKind::F64_ARRAY, b'd');
    assert_eq!(RawPropertyKind::STRING, b'S');
    assert_eq!(RawPropertyKind::BYTES, b'R');
}

#[test]
fn property_kind_parses_one_byte() {
    let kind = RawPropertyKind::parse(&[b'S', 9, 9]).unwrap();
    assert_eq!(kind, RawPropertyKind(RawPropertyKind::STRING));
    assert!(RawPropertyKind::parse(&[]).is_none());
}

#[test]
fn encoding_kinds() {
    assert_eq!(RawEncodingKind::PLAIN, 0);
    assert_eq!(RawEncodingKind::DEFLATE, 1);
}

#[test]
fn file_header_parses_27_bytes() {
    let mut bytes = Vec::new();
    bytes.extend_from_slice(b"Kaydara FBX Binary  \0");
    bytes.extend_from_slice(&[0x1A, 0x00]);
    bytes.extend_from_slice(&[0x84, 0x1C, 0x00, 0x00]); // version 7300
    let h = RawFileHeader::parse(&bytes).unwrap();
    assert_eq!(&h.magic, b"Kaydara FBX Binary  \0");
    assert_eq!(h.unknown, [0x1A, 0x00]);
    assert_eq!(h.version, 7300);
}

#[test]
fn file_header_rejects_short_input() {
    let bytes = [0u8; 26];
    assert!(RawFileHeader::parse(&bytes).is_none());
}

#[test]
fn array_header_parses_12_bytes() {
    let bytes = [
        3, 0, 0, 0, // element_count
        1, 0, 0, 0, // encoding: deflate
        24, 0, 0, 0, // byte_count
    ];
    let h = RawArrayHeader::parse(&bytes).unwrap();
    assert_eq!(h.element_count, 3);
    assert_eq!(h.encoding, RawEncodingKind(RawEncodingKind::DEFLATE));
    assert_eq!(h.byte_count, 24);
    assert!(RawArrayHeader::parse(&bytes[..11]).is_none());
}

#[test]
fn node_header_parses_13_bytes() {
    let bytes = [
        0x10, 0x02, 0, 0, // end_offset 0x210
        2, 0, 0, 0, // property_count
        40, 0, 0, 0, // properties_byte_count
        8, // name_len
    ];
    let h = RawNodeHeader::parse(&bytes).unwrap();
    assert_eq!(h.end_offset, 0x210);
    assert_eq!(h.property_count, 2);
    assert_eq!(h.properties_byte_count, 40);
    assert_eq!(h.name_len, 8);
    assert!(RawNodeHeader::parse(&bytes[..12]).is_none());
}
