use infiltrator::subscription::{
    decode_subscription_bytes, encoding_from_userinfo, looks_like_gzip, mask_subscription_url,
    after_status, strip_utf8_bom, subscription_text, FetchStep, SubscriptionError,
};
use std::io::Write;

fn gzip(data: &[u8]) -> Vec<u8> {
    let mut encoder = flate2::write::GzEncoder::new(Vec::new(), flate2::Compression::default());
    encoder.write_all(data).unwrap();
    encoder.finish().unwrap()
}

fn zlib(data: &[u8]) -> Vec<u8> {
    let mut encoder = flate2::write::ZlibEncoder::new(Vec::new(), flate2::Compression::default());
    encoder.write_all(data).unwrap();
    encoder.finish().unwrap()
}

#[test]
fn test_looks_like_gzip() {
    assert!(!looks_like_gzip(&[0, 1, 2]));
    let mut gzip_header = vec![0u8; 10];
    gzip_header[0] = 0x1f;
    gzip_header[1] = 0x8b;
    assert!(looks_like_gzip(&gzip_header));
}

#[test]
fn test_decode_utf8_text() {
    let text = "plain text";
    let decoded = decode_subscription_bytes(text.as_bytes().to_vec(), None).ok().unwrap();
    assert_eq!(String::from_utf8(decoded).unwrap(), text);
}

#[test]
fn test_decode_gzip() {
    let compressed = gzip(b"compressed");
    let decoded = decode_subscription_bytes(compressed, Some("gzip")).ok().unwrap();
    assert_eq!(String::from_utf8(decoded).unwrap(), "compressed");
}

#[test]
fn test_decode_deflate() {
    let compressed = zlib(b"deflated");
    let decoded = decode_subscription_bytes(compressed, Some("deflate")).ok().unwrap();
    assert_eq!(String::from_utf8(decoded).unwrap(), "deflated");
}

#[test]
fn test_mask_subscription_url() {
    let url = "https://example.com/link/abcdefg123456?mu=0";
    let masked = mask_subscription_url(url);
    assert!(masked.contains("***"));
    assert!(!masked.contains("abcdefg123456"));
}

#[test]
fn test_strip_utf8_bom() {
    let text = "\u{feff}config content";
    assert_eq!(strip_utf8_bom(text), "config content");
    assert_eq!(strip_utf8_bom("no bom"), "no bom");
}

#[test]
fn test_decode_subscription_bytes_auto_gzip() {
    let compressed = gzip(b"hello world");
    let decoded = decode_subscription_bytes(compressed, None).ok().unwrap();
    assert_eq!(decoded, b"hello world");
}

#[test]
fn test_strip_utf8_bom_exhaustive() {
    let with_bom = vec![0xEF, 0xBB, 0xBF, b'a', b'b'];
    assert_eq!(strip_utf8_bom(std::str::from_utf8(&with_bom).unwrap()), "ab");
    assert_eq!(strip_utf8_bom("no bom"), "no bom");
    assert_eq!(strip_utf8_bom(""), "");
}

#[test]
fn test_looks_like_gzip_minimum_size() {
    assert!(!looks_like_gzip(&[0x1f, 0x8b]));
    assert!(looks_like_gzip(&[0x1f, 0x8b, 0x08, 0x00, 0x00, 0x00, 0x00, 0x00, 0x00, 0x00]));
}

#[test]
fn test_decode_unsupported_encoding() {
    let data = b"data";
    let result = decode_subscription_bytes(data.to_vec(), Some("lzma"));
    assert!(result.is_ok());
}

#[test]
fn strip_removes_only_one_bom() {
    assert_eq!(strip_utf8_bom("\u{feff}\u{feff}x"), "\u{feff}x");
    assert_eq!(strip_utf8_bom("a\u{feff}"), "a\u{feff}");
}

#[test]
fn empty_body_decodes_to_empty_whatever_the_encoding() {
    assert!(decode_subscription_bytes(Vec::new(), Some("gzip")).ok().unwrap().is_empty());
    assert!(decode_subscription_bytes(Vec::new(), None).ok().unwrap().is_empty());
}

#[test]
fn named_gzip_that_is_not_gzip_fails_to_decompress() {
    let result = decode_subscription_bytes(b"not gzip at all".to_vec(), Some("gzip"));
    assert!(matches!(result, Err(SubscriptionError::Decompress(_))));
    let result = decode_subscription_bytes(b"not zlib at all".to_vec(), Some("deflate"));
    assert!(matches!(result, Err(SubscriptionError::Decompress(_))));
}

#[test]
fn unnamed_body_with_gzip_magic_but_broken_is_kept() {
    let mut data = vec![0x1f, 0x8b];
    data.extend_from_slice(b"garbage garbage");
    let decoded = decode_subscription_bytes(data.clone(), None).ok().unwrap();
    assert_eq!(decoded, data);
}

#[test]
fn userinfo_header_names_the_encoding() {
    assert_eq!(encoding_from_userinfo(Some("upload=1; gzip")), Some("gzip"));
    assert_eq!(encoding_from_userinfo(Some("deflate; total=2")), Some("deflate"));
    assert_eq!(encoding_from_userinfo(Some("gzip deflate")), Some("gzip"));
    assert_eq!(encoding_from_userinfo(Some("upload=1")), Some("plain"));
    assert_eq!(encoding_from_userinfo(None), None);
}

#[test]
fn subscription_text_unpacks_and_reads_utf8() {
    let text = subscription_text(gzip("代理: yes".as_bytes()), Some("gzip")).ok().unwrap();
    assert_eq!(text, "代理: yes");
    let text = subscription_text(b"plain".to_vec(), None).ok().unwrap();
    assert_eq!(text, "plain");
}

#[test]
fn subscription_text_rejects_invalid_utf8() {
    let result = subscription_text(vec![0xff, 0xfe, 0x00], None);
    assert!(matches!(result, Err(SubscriptionError::InvalidUtf8(_))));
}

#[test]
fn mask_keeps_short_tokens_and_bad_urls() {
    assert_eq!(mask_subscription_url("https://example.com/link/short"), "https://example.com/link/short");
    assert_eq!(mask_subscription_url("not a url"), "not a url");
    assert_eq!(
        mask_subscription_url("https://example.com/abcdefghijk"),
        "https://example.com/abcdefghijk"
    );
}

#[test]
fn mask_replaces_the_token_exactly() {
    assert_eq!(
        mask_subscription_url("https://example.com/link/abcdefg123456?mu=0"),
        "https://example.com/link/***?mu=0"
    );
}

#[test]
fn failed_requests_are_retried_once() {
    assert!(matches!(after_status(true, 200), FetchStep::ReadBody));
    assert!(matches!(after_status(false, 299), FetchStep::ReadBody));
    assert!(matches!(after_status(true, 403), FetchStep::RetryDirect));
    assert!(matches!(after_status(false, 403), FetchStep::Fail(SubscriptionError::HttpStatus(403))));
    assert!(matches!(after_status(false, 300), FetchStep::Fail(SubscriptionError::HttpStatus(300))));
}
