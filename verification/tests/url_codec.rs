use esp32_s3_box3::url::{url_decode, url_encode, UrlError};

#[test]
fn test_encode() {
    let encoded = url_encode("hello world!").unwrap();
    assert_eq!(encoded, "hello%20world%21");
}

#[test]
fn test_decode() {
    let decoded = url_decode("hello%20world%21").unwrap();
    assert_eq!(decoded, "hello world!");
}

#[test]
fn test_roundtrip() {
    let input = "https://example.com/path?name=value&foo=bar#anchor";
    let encoded = url_encode(input).unwrap();
    let decoded = url_decode(&encoded).unwrap();
    assert_eq!(input, decoded);
}

#[test]
fn encode_keeps_safe_characters() {
    let s = "AZaz09-_.@#$&*()=:/,;?+'~";
    assert_eq!(url_encode(s).unwrap(), s);
}

#[test]
fn encode_escapes_with_uppercase_hex() {
    assert_eq!(url_encode("a b\"c%").unwrap(), "a%20b%22c%25");
    assert_eq!(url_encode("\u{e9}").unwrap(), "%C3%A9");
    assert_eq!(url_encode("").unwrap(), "");
    assert_eq!(url_encode("!").unwrap(), "%21");
}

#[test]
fn decode_accepts_lowercase_hex() {
    assert_eq!(url_decode("%2f%2F").unwrap(), "//");
    assert_eq!(url_decode("%c3%a9").unwrap(), "\u{e9}");
}

#[test]
fn decode_rejects_bad_escapes() {
    assert_eq!(url_decode("%4"), Err(UrlError::InvalidEncoding));
    assert_eq!(url_decode("%"), Err(UrlError::InvalidEncoding));
    assert_eq!(url_decode("%zz"), Err(UrlError::InvalidEncoding));
}

#[test]
fn decode_rejects_invalid_utf8() {
    assert_eq!(url_decode("%FF"), Err(UrlError::InvalidEncoding));
}

#[test]
fn decode_inverts_encode_on_unicode() {
    let input = "Grüße aus Köln, 100% sicher?";
    let encoded = url_encode(input).unwrap();
    assert!(encoded.bytes().all(|b| b < 128));
    assert_eq!(url_decode(&encoded).unwrap(), input);
}
