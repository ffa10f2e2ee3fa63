use langtag::{contains_nul, decode_tag, encode_tag, pick_text, resolve_code, BStr, TagError};

#[test]
fn contains_nul_finds_a_zero_byte_anywhere() {
    assert!(!contains_nul(b""));
    assert!(!contains_nul(b"eng"));
    assert!(contains_nul(b"\0"));
    assert!(contains_nul(b"\0ab"));
    assert!(contains_nul(b"a\0b"));
    assert!(contains_nul(b"ab\0"));
    assert!(!contains_nul(&[1, 255, 128]));
}

#[test]
fn decode_tag_gives_the_text() {
    assert_eq!(decode_tag(b"en"), Ok("en"));
    assert_eq!(decode_tag(b""), Ok(""));
    assert_eq!(decode_tag(&[0xc3, 0xa9]), Ok("\u{e9}"));
    assert_eq!(decode_tag(b"a\0b"), Ok("a\0b"));
}

#[test]
fn decode_tag_refuses_malformed_bytes() {
    assert_eq!(decode_tag(&[0x80]), Err(TagError::InvalidEncoding));
    assert_eq!(decode_tag(&[0xf4, 0x90, 0x80, 0x80]), Err(TagError::InvalidEncoding));
    assert_eq!(decode_tag(&[b'a', 0xc3]), Err(TagError::InvalidEncoding));
}

#[test]
fn encode_tag_gives_the_bytes() {
    assert_eq!(encode_tag("eng"), Ok(b"eng".to_vec()));
    assert_eq!(encode_tag(""), Ok(Vec::new()));
    assert_eq!(encode_tag("\u{e9}"), Ok(vec![0xc3, 0xa9]));
}

#[test]
fn encode_tag_refuses_a_zero_byte() {
    assert_eq!(encode_tag("a\0b"), Err(TagError::EmbeddedNul));
    assert_eq!(encode_tag("\0"), Err(TagError::EmbeddedNul));
}

#[test]
fn pick_text_prefers_the_code() {
    assert_eq!(pick_text("en", Some("eng")), "eng");
    assert_eq!(pick_text("xx-unknown", None), "xx-unknown");
    assert_eq!(pick_text("", None), "");
    assert_eq!(pick_text("", Some("und")), "und");
}

#[test]
fn resolve_code_tries_two_letters_then_three() {
    assert_eq!(resolve_code("en"), Some("eng"));
    assert_eq!(resolve_code("eng"), Some("eng"));
    assert_eq!(resolve_code("es"), Some("spa"));
    assert_eq!(resolve_code("spa"), Some("spa"));
    assert_eq!(resolve_code("zh"), Some("zho"));
    assert_eq!(resolve_code("und"), Some("und"));
}

#[test]
fn resolve_code_knows_no_other_text() {
    assert_eq!(resolve_code(""), None);
    assert_eq!(resolve_code("xx"), None);
    assert_eq!(resolve_code("fre"), None);
    assert_eq!(resolve_code("english"), None);
    assert_eq!(resolve_code("EN"), None);
    assert_eq!(resolve_code("\u{e9}"), None);
}

#[test]
fn null_string_has_no_buffer() {
    let s = BStr::null();
    assert!(s.is_null());
    assert_eq!(s.len(), 0);
    assert_eq!(s.as_bytes(), None);
}

#[test]
fn string_holds_its_bytes() {
    let s = BStr::new(b"eng".to_vec());
    assert!(!s.is_null());
    assert_eq!(s.len(), 3);
    assert_eq!(s.as_bytes(), Some(&b"eng"[..]));
    let e = BStr::new(Vec::new());
    assert!(!e.is_null());
    assert_eq!(e.len(), 0);
    assert_eq!(e.as_bytes(), Some(&b""[..]));
}
