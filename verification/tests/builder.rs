use string_builder::Builder;

#[test]
fn test_all_supported_types() {
    let mut b = Builder::default();
    b.append(String::from("hello")).unwrap();
    b.append(',').unwrap();
    b.append(b' ').unwrap();
    b.append("world").unwrap();
    b.append(" it works".as_bytes()).unwrap();

    assert_eq!(b.string().unwrap(), "hello, world it works");
}

#[test]
fn test_individual_unicode_characters() {
    let mut b = Builder::default();
    b.append('\u{2018}').unwrap();
    b.append("starts with and ends with").unwrap();
    b.append('\u{2017}').unwrap();

    assert_eq!(
        b.string().unwrap(),
        "\u{2018}starts with and ends with\u{2017}"
    );
}

#[test]
fn test_tool_album() {
    let mut b = Builder::default();
    b.append('\u{00C6}').unwrap();
    b.append("nima").unwrap();

    assert_eq!(b.string().unwrap(), "\u{00C6}nima");
}

#[test]
fn test_length_counts_bytes() {
    let mut b = Builder::default();
    assert_eq!(b.len(), 0);
    b.append("four").unwrap();
    assert_eq!(b.len(), 4);
    b.append('\u{00C6}').unwrap(); // 2-byte encoding
    assert_eq!(b.len(), 6);
    b.append('\u{2018}').unwrap(); // 3-byte encoding
    assert_eq!(b.len(), 9);
    b.append('\u{1F600}').unwrap(); // 4-byte encoding
    assert_eq!(b.len(), 13);
    b.append(0x21u8).unwrap(); // a single byte
    assert_eq!(b.len(), 14);
    b.append(&[1u8, 2, 3][..]).unwrap(); // a raw slice
    assert_eq!(b.len(), 17);
}

#[test]
fn test_code_point_widths_round_trip() {
    let mut b = Builder::new(16);
    b.append('a').unwrap();
    b.append('\u{00C6}').unwrap();
    b.append('\u{2018}').unwrap();
    b.append('\u{1F600}').unwrap();
    assert_eq!(b.string().unwrap(), "a\u{00C6}\u{2018}\u{1F600}");
}

#[test]
fn test_raw_bytes_decode_as_text() {
    // The two bytes of the UTF-8 encoding of U+00C6, appended raw.
    let mut b = Builder::new(2);
    b.append(0xC3u8).unwrap();
    b.append(0x86u8).unwrap();
    assert_eq!(b.string().unwrap(), "\u{00C6}");
}

#[test]
fn test_empty_builder() {
    let b = Builder::new(0);
    assert_eq!(b.len(), 0);
    let t = b.string().unwrap();
    assert_eq!(t, "");
    assert_eq!(t.len(), 0);
}

#[test]
fn test_capacity_hint_independence() {
    let mut results = Vec::new();
    for cap in [0usize, 1, 5, 1024, 4096] {
        let mut b = Builder::new(cap);
        assert_eq!(b.len(), 0);
        b.append("hint").unwrap();
        b.append('\u{00C6}').unwrap();
        b.append(0x2Eu8).unwrap();
        assert_eq!(b.len(), 7);
        results.push(b.string().unwrap());
    }
    for t in &results {
        assert_eq!(t, "hint\u{00C6}.");
    }
}

#[test]
fn test_invalid_encoding_lone_continuation_byte() {
    let mut b = Builder::default();
    b.append(&[0x80u8][..]).unwrap();
    let e = b.string().unwrap_err();
    assert_eq!(e.valid_up_to, 0);
    assert_eq!(e.bytes, vec![0x80]);
}

#[test]
fn test_invalid_encoding_after_valid_prefix() {
    let mut b = Builder::default();
    b.append("ab").unwrap();
    b.append(0xC3u8).unwrap(); // truncated 2-byte encoding
    let e = b.string().unwrap_err();
    assert_eq!(e.valid_up_to, 2);
    assert_eq!(e.bytes, vec![0x61, 0x62, 0xC3]);
}

#[test]
fn test_invalid_encoding_overlong() {
    // 0xC0 0xAF is an overlong encoding of '/', which UTF-8 rejects.
    let mut b = Builder::new(2);
    b.append(&[0xC0u8, 0xAFu8][..]).unwrap();
    let e = b.string().unwrap_err();
    assert_eq!(e.valid_up_to, 0);
    assert_eq!(e.bytes, vec![0xC0, 0xAF]);
}

#[test]
fn test_append_reports_success() {
    let mut b = Builder::new(0);
    assert!(b.append("ok").is_ok());
    assert!(b.append(0xFFu8).is_ok());
    assert!(b.append('\u{10FFFF}').is_ok());
    assert!(b.append(String::new()).is_ok());
    assert!(b.append(&[][..] as &[u8]).is_ok());
}

#[test]
fn test_string_and_str_append_alike() {
    let mut owned = Builder::new(0);
    owned.append(String::from("same")).unwrap();
    let mut borrowed = Builder::new(64);
    borrowed.append("same").unwrap();
    assert_eq!(owned.len(), borrowed.len());
    assert_eq!(owned.string().unwrap(), borrowed.string().unwrap());
}
