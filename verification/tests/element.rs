use js_sys_futures::element::{decode, DecodeError, Element};

#[test]
fn decode_takes_a_byte_array_as_it_is() {
    assert_eq!(decode(Element::Bytes(vec![0, 255, 7, 7])), Ok(vec![0, 255, 7, 7]));
    assert_eq!(decode(Element::Bytes(Vec::new())), Ok(Vec::new()));
}

#[test]
fn decode_encodes_text_as_utf8() {
    assert_eq!(decode(Element::Text("foo".to_string())), Ok(vec![0x66, 0x6f, 0x6f]));
    assert_eq!(decode(Element::Text(String::new())), Ok(Vec::new()));
    // Two, three and four bytes to the character.
    assert_eq!(decode(Element::Text("\u{e9}".to_string())), Ok(vec![0xc3, 0xa9]));
    assert_eq!(decode(Element::Text("\u{20ac}".to_string())), Ok(vec![0xe2, 0x82, 0xac]));
    assert_eq!(decode(Element::Text("\u{1f600}".to_string())), Ok(vec![0xf0, 0x9f, 0x98, 0x80]));
    assert_eq!(
        decode(Element::Text("a\u{e9}b".to_string())),
        Ok(vec![0x61, 0xc3, 0xa9, 0x62])
    );
}

#[test]
fn decode_rejects_other_kinds() {
    assert_eq!(decode(Element::Other), Err(DecodeError::UnsupportedElementKind));
}

#[test]
fn decode_rejects_malformed_text() {
    assert_eq!(decode(Element::MalformedText), Err(DecodeError::MalformedText));
}
