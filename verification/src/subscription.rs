use crate::text::{
    after_last, after_last_chars, count_char, count_char_in, has_infix, owned, replace_all,
    replace_all_chars, str_chars, utf8_len_exceeds, str_equal, string_from_chars, string_from_utf8,
};
use flate2::read::{GzDecoder, ZlibDecoder};
use std::io::Read;
use vstd::prelude::*;
use vstd::utf8::*;
use vstd::string::StringSliceAdditionalSpecFns;

verus! {

/// The byte order mark that some subscription servers put in front of the text.
pub open spec fn bom() -> char {
    '\u{feff}'
}

/// `text` without a leading byte order mark.
pub open spec fn without_bom(text: Seq<char>) -> Seq<char> {
    if text.len() > 0 && text[0] == bom() {
        text.drop_first()
    } else {
        text
    }
}

/// Removes one leading UTF-8 byte order mark, if the text starts with one.
pub fn strip_utf8_bom(text: &str) -> (r: &str)
    ensures
        r@ == without_bom(text@),
{
    let chars = str_chars(text);
    if chars.len() > 0 && chars[0] == '\u{feff}' {
        proof {
            broadcast use encode_utf8_valid_utf8, encode_utf8_decode_utf8;

            let bytes = encode_utf8(text@);
            encode_utf8_first_scalar(text@);
            assert(text@[0] as u32 == 0xfeffu32);
            assert(encode_scalar(0xfeffu32).len() == 3);
            assert(bytes =~= encode_scalar(0xfeffu32) + encode_utf8(text@.drop_first()));
            assert(valid_utf8(bytes));
            assert(valid_utf8(pop_first_scalar(bytes)));
            assert(length_of_first_scalar(bytes) == 3);
            assert(bytes.len() >= 3);
            reveal_with_fuel(is_char_boundary, 2);
            assert(is_char_boundary(bytes, 3));
        }
        let (_, rest) = text.split_at(3);
        proof {
            broadcast use encode_utf8_valid_utf8, encode_utf8_decode_utf8;

            let bytes = encode_utf8(text@);
            assert(bytes =~= encode_scalar(0xfeffu32) + encode_utf8(text@.drop_first()));
            assert(rest.spec_bytes() =~= encode_utf8(text@.drop_first()));
            assert(decode_utf8(encode_utf8(rest@)) == rest@);
        }
        rest
    } else {
        text
    }
}

/// Whether the bytes start like a gzip stream and are long enough to hold its header.
pub open spec fn gzip_magic(bytes: Seq<u8>) -> bool {
    bytes.len() >= 10 && bytes[0] == 0x1f && bytes[1] == 0x8b
}

/// Whether the bytes look like a gzip stream: at least ten bytes, starting 0x1f 0x8b.
pub fn looks_like_gzip(bytes: &[u8]) -> (r: bool)
    ensures
        r == gzip_magic(bytes@),
{
    bytes.len() >= 10 && bytes[0] == 0x1f && bytes[1] == 0x8b
}


/// What goes wrong while turning a subscription download into text.
pub enum SubscriptionError {
    /// The server answered with a status outside 200..=299 (both tries).
    HttpStatus(u16),
    /// The body could not be decompressed; the decoder's message.
    Decompress(String),
    /// The decoded body is not valid UTF-8; the decoder's message.
    InvalidUtf8(String),
}

/// The bytes that `flate2::read::GzDecoder` reads out of a gzip stream, or `None`
/// where it fails with an error.
pub uninterp spec fn gunzip(data: Seq<u8>) -> Option<Seq<u8>>;

/// The bytes that `flate2::read::ZlibDecoder` reads out of a zlib stream, or `None`
/// where it fails with an error.
pub uninterp spec fn inflate_zlib(data: Seq<u8>) -> Option<Seq<u8>>;

/// `GzDecoder::new(data).read_to_end(..)`: succeeds exactly when `gunzip` gives a
/// value, and then returns it; the error's message is not described.
#[verifier::external_body]
fn gzip_decode(data: &[u8]) -> (r: Result<Vec<u8>, String>)
    ensures
        r is Ok <==> gunzip(data@) is Some,
        r matches Ok(v) ==> gunzip(data@) == Some(v@),
{
    let mut decoder = GzDecoder::new(data);
    let mut decoded = Vec::new();
    match decoder.read_to_end(&mut decoded) {
        Ok(_) => Ok(decoded),
        Err(e) => Err(e.to_string()),
    }
}

/// `ZlibDecoder::new(data).read_to_end(..)`: succeeds exactly when `inflate_zlib`
/// gives a value, and then returns it; the error's message is not described.
#[verifier::external_body]
fn zlib_decode(data: &[u8]) -> (r: Result<Vec<u8>, String>)
    ensures
        r is Ok <==> inflate_zlib(data@) is Some,
        r matches Ok(v) ==> inflate_zlib(data@) == Some(v@),
{
    let mut decoder = ZlibDecoder::new(data);
    let mut decoded = Vec::new();
    match decoder.read_to_end(&mut decoded) {
        Ok(_) => Ok(decoded),
        Err(e) => Err(e.to_string()),
    }
}

/// The body of a subscription download after decompression, or `None` where the
/// named encoding fails to decode.  An empty body stays empty; "gzip" and
/// "deflate" name gzip and zlib streams; any other name leaves the bytes as they
/// are; with no name, a body that looks like gzip is unpacked when that works
/// and left as it is when it does not.
pub open spec fn decoded_body(bytes: Seq<u8>, encoding: Option<Seq<char>>) -> Option<Seq<u8>> {
    if bytes.len() == 0 {
        Some(Seq::empty())
    } else {
        match encoding {
            Some(e) => if e == "gzip"@ {
                gunzip(bytes)
            } else if e == "deflate"@ {
                inflate_zlib(bytes)
            } else {
                Some(bytes)
            },
            None => if gzip_magic(bytes) && gunzip(bytes) is Some {
                gunzip(bytes)
            } else {
                Some(bytes)
            },
        }
    }
}

/// The view of an optional string slice.
pub open spec fn opt_view(o: Option<&str>) -> Option<Seq<char>> {
    match o {
        Some(s) => Some(s@),
        None => None,
    }
}

/// Decompresses a subscription body as the encoding says.
pub fn decode_subscription_bytes(bytes: Vec<u8>, encoding: Option<&str>) -> (r: Result<
    Vec<u8>,
    SubscriptionError,
>)
    ensures
        match r {
            Ok(v) => decoded_body(bytes@, opt_view(encoding)) == Some(v@),
            Err(e) => decoded_body(bytes@, opt_view(encoding)) is None && e is Decompress,
        },
{
    if bytes.len() == 0 {
        return Ok(Vec::new());
    }
    match encoding {
        Some(enc) => {
            if str_equal(enc, "gzip") {
                match gzip_decode(bytes.as_slice()) {
                    Ok(v) => Ok(v),
                    Err(msg) => Err(SubscriptionError::Decompress(msg)),
                }
            } else if str_equal(enc, "deflate") {
                match zlib_decode(bytes.as_slice()) {
                    Ok(v) => Ok(v),
                    Err(msg) => Err(SubscriptionError::Decompress(msg)),
                }
            } else {
                Ok(bytes)
            }
        },
        None => {
            if looks_like_gzip(bytes.as_slice()) {
                match gzip_decode(bytes.as_slice()) {
                    Ok(v) => Ok(v),
                    Err(_) => Ok(bytes),
                }
            } else {
                Ok(bytes)
            }
        },
    }
}

/// The content encoding that a `subscription-userinfo` header value names:
/// "gzip" where the value mentions gzip, else "deflate" where it mentions
/// deflate, else "plain"; no header, no encoding.
pub open spec fn userinfo_encoding(header: Option<Seq<char>>) -> Option<Seq<char>> {
    match header {
        Some(v) => Some(
            if has_infix(v, "gzip"@) {
                "gzip"@
            } else if has_infix(v, "deflate"@) {
                "deflate"@
            } else {
                "plain"@
            },
        ),
        None => None,
    }
}

/// The content encoding named by a `subscription-userinfo` header value.
pub fn encoding_from_userinfo(header: Option<&str>) -> (r: Option<&'static str>)
    ensures
        opt_view(r) == userinfo_encoding(opt_view(header)),
{
    match header {
        Some(v) => {
            let chars = str_chars(v);
            let gzip = str_chars("gzip");
            let deflate = str_chars("deflate");
            if crate::text::chars_contain(chars.as_slice(), gzip.as_slice()) {
                Some("gzip")
            } else if crate::text::chars_contain(chars.as_slice(), deflate.as_slice()) {
                Some("deflate")
            } else {
                Some("plain")
            }
        },
        None => None,
    }
}

/// The text of a subscription download, given its body and its
/// `subscription-userinfo` header: decompressed as `decoded_body` says for the
/// header's encoding, then read as UTF-8.
pub open spec fn subscription_text_of(bytes: Seq<u8>, header: Option<Seq<char>>) -> Option<
    Seq<char>,
> {
    match decoded_body(bytes, userinfo_encoding(header)) {
        Some(b) => if valid_utf8(b) {
            Some(decode_utf8(b))
        } else {
            None
        },
        None => None,
    }
}

/// Turns a downloaded subscription body into text.
pub fn subscription_text(bytes: Vec<u8>, userinfo: Option<&str>) -> (r: Result<
    String,
    SubscriptionError,
>)
    ensures
        match r {
            Ok(t) => subscription_text_of(bytes@, opt_view(userinfo)) == Some(t@),
            Err(e) => subscription_text_of(bytes@, opt_view(userinfo)) is None && (e is Decompress
                || e is InvalidUtf8),
        },
{
    let encoding = encoding_from_userinfo(userinfo);
    let decoded = match decode_subscription_bytes(bytes, encoding) {
        Ok(d) => d,
        Err(e) => return Err(e),
    };
    match string_from_utf8(decoded) {
        Ok(t) => Ok(t),
        Err(msg) => Err(SubscriptionError::InvalidUtf8(msg)),
    }
}


/// The path of a URL as `url::Url::parse` reads it (what `Url::path` returns), or
/// `None` where the text does not parse as a URL.
pub uninterp spec fn url_path(url: Seq<char>) -> Option<Seq<char>>;

/// The serialization of a URL after `Url::set_path` gave it a new path.
pub uninterp spec fn url_with_path(url: Seq<char>, path: Seq<char>) -> Seq<char>;

/// `Url::parse(url)` then `Url::path`: the path, named `url_path`.
#[verifier::external_body]
fn parsed_url_path(url: &str) -> (r: Option<String>)
    ensures
        match r {
            Some(p) => url_path(url@) == Some(p@),
            None => url_path(url@) is None,
        },
{
    match reqwest::Url::parse(url) {
        Ok(u) => Some(u.path().to_string()),
        Err(_) => None,
    }
}

/// `Url::parse(url)`, `Url::set_path(path)`, then the URL's text: named
/// `url_with_path`.  It parses the same text as `parsed_url_path`, so it succeeds
/// exactly when that does.
#[verifier::external_body]
fn url_replacing_path(url: &str, path: &str) -> (r: Option<String>)
    ensures
        r is Some <==> url_path(url@) is Some,
        r matches Some(s) ==> s@ == url_with_path(url@, path@),
{
    match reqwest::Url::parse(url) {
        Ok(mut u) => {
            u.set_path(path);
            Some(u.to_string())
        },
        Err(_) => None,
    }
}

/// The masked form of a subscription URL's path: where the path has more than
/// two `/`-separated pieces and its last piece is longer than eight bytes in
/// UTF-8, the path with every occurrence of that piece turned into `***`;
/// `None` where nothing is to be hidden.
pub open spec fn path_mask(path: Seq<char>) -> Option<Seq<char>> {
    let last = after_last(path, '/');
    if count_char(path, '/') >= 2 && encode_utf8(last).len() > 8 {
        Some(replace_all(path, last, "***"@))
    } else {
        None
    }
}

/// A subscription URL as it may be shown or logged: the URL with its path
/// masked as `path_mask` says; any other URL is kept as it is.
pub open spec fn masked_url(url: Seq<char>) -> Seq<char> {
    match url_path(url) {
        Some(path) => match path_mask(path) {
            Some(masked) => url_with_path(url, masked),
            None => url,
        },
        None => url,
    }
}

/// The masked form of a URL path (see `path_mask`).
pub fn mask_url_path(path: &str) -> (r: Option<String>)
    ensures
        match r {
            Some(m) => path_mask(path@) == Some(m@),
            None => path_mask(path@) is None,
        },
{
    let chars = str_chars(path);
    let slashes = count_char_in(chars.as_slice(), '/');
    let last = after_last_chars(chars.as_slice(), '/');
    if slashes >= 2 && utf8_len_exceeds(last.as_slice(), 8) {
        let stars = str_chars("***");
        let masked = replace_all_chars(chars.as_slice(), last.as_slice(), stars.as_slice());
        Some(string_from_chars(masked.as_slice()))
    } else {
        None
    }
}

/// Hides the secret token at the end of a subscription URL.
pub fn mask_subscription_url(url: &str) -> (r: String)
    ensures
        r@ == masked_url(url@),
{
    match parsed_url_path(url) {
        Some(path) => match mask_url_path(path.as_str()) {
            Some(masked_path) => match url_replacing_path(url, masked_path.as_str()) {
                Some(u) => u,
                None => owned(url),
            },
            None => owned(url),
        },
        None => owned(url),
    }
}

/// Whether an HTTP status reports success (200 to 299).
pub open spec fn status_is_success(status: u16) -> bool {
    200 <= status <= 299
}

/// What a subscription download does after a request came back.
pub enum FetchStep {
    /// Ask again through the direct client.
    RetryDirect,
    /// Read and decode the body.
    ReadBody,
    /// Give up with this error.
    Fail(SubscriptionError),
}

/// The next step of a subscription download after a request answered with
/// `status`: a successful answer is read; the first failure is retried once
/// through the direct client; a second failure is reported with its status.
pub fn after_status(first_try: bool, status: u16) -> (r: FetchStep)
    ensures
        status_is_success(status) ==> r is ReadBody,
        !status_is_success(status) && first_try ==> r is RetryDirect,
        !status_is_success(status) && !first_try ==> (r matches FetchStep::Fail(
            SubscriptionError::HttpStatus(s),
        ) && s == status),
{
    if 200 <= status && status <= 299 {
        FetchStep::ReadBody
    } else if first_try {
        FetchStep::RetryDirect
    } else {
        FetchStep::Fail(SubscriptionError::HttpStatus(status))
    }
}

} // verus!
