//! The encodings that Service Bus signatures, query strings and dates are written in.
use vstd::prelude::*;
use vstd::string::*;
use vstd::utf8::*;

use base64::Engine;
use hmac::{KeyInit, Mac};

use crate::text::decimal;

verus! {

/// The upper-case hexadecimal digit for `d`.
pub open spec fn hex_digit(d: int) -> char
    recommends
        0 <= d < 16,
{
    if d < 10 {
        (48 + d) as u8 as char
    } else {
        (55 + d) as u8 as char
    }
}

/// A byte as a percent sign and two hexadecimal digits.
pub open spec fn percent_encoded(b: u8) -> Seq<char> {
    seq!['%', hex_digit(b as int / 16), hex_digit(b as int % 16)]
}

/// The bytes that form encoding leaves as they are.
pub open spec fn form_unchanged(b: u8) -> bool {
    ||| b == 0x2a
    ||| b == 0x2d
    ||| b == 0x2e
    ||| 0x30 <= b <= 0x39
    ||| 0x41 <= b <= 0x5a
    ||| b == 0x5f
    ||| 0x61 <= b <= 0x7a
}

/// One byte in the encoding `application/x-www-form-urlencoded`.
pub open spec fn form_byte(b: u8) -> Seq<char> {
    if form_unchanged(b) {
        seq![b as char]
    } else if b == 0x20 {
        seq!['+']
    } else {
        percent_encoded(b)
    }
}

/// Bytes in the encoding `application/x-www-form-urlencoded`.
pub open spec fn form_encoded(bytes: Seq<u8>) -> Seq<char>
    decreases bytes.len(),
{
    if bytes.len() == 0 {
        seq![]
    } else {
        form_encoded(bytes.drop_last()) + form_byte(bytes.last())
    }
}

/// A query string with one more pair behind the pairs that it holds.
pub open spec fn query_with_pair(
    query: Seq<char>,
    name: Seq<char>,
    value: Seq<char>,
) -> Seq<char> {
    let start = if query.len() > 0 {
        query + "&"@
    } else {
        query
    };
    start + form_encoded(encode_utf8(name)) + "="@ + form_encoded(encode_utf8(value))
}

/// The character that stands for six bits in the standard base64 alphabet.
pub open spec fn base64_char(d: int) -> char
    recommends
        0 <= d < 64,
{
    if d < 26 {
        (65 + d) as u8 as char
    } else if d < 52 {
        (71 + d) as u8 as char
    } else if d < 62 {
        (d - 4) as u8 as char
    } else if d == 62 {
        '+'
    } else {
        '/'
    }
}

/// Bytes in standard base64, with padding.
pub open spec fn base64_encoded(bytes: Seq<u8>) -> Seq<char>
    decreases bytes.len(),
{
    let a = bytes[0] as int;
    let b = bytes[1] as int;
    let c = bytes[2] as int;
    if bytes.len() == 0 {
        seq![]
    } else if bytes.len() == 1 {
        seq![base64_char(a / 4), base64_char(a % 4 * 16), '=', '=']
    } else if bytes.len() == 2 {
        seq![
            base64_char(a / 4),
            base64_char(a % 4 * 16 + b / 16),
            base64_char(b % 16 * 4),
            '=',
        ]
    } else {
        seq![
            base64_char(a / 4),
            base64_char(a % 4 * 16 + b / 16),
            base64_char(b % 16 * 4 + c / 64),
            base64_char(c % 64),
        ] + base64_encoded(bytes.skip(3))
    }
}

/// The HMAC-SHA256 of a message under a key.
pub uninterp spec fn hmac_sha256_of(key: Seq<u8>, message: Seq<u8>) -> Seq<u8>;

/// The instant, in seconds since the UNIX epoch, that a date in HTTP form denotes.
pub uninterp spec fn http_date(text: Seq<char>) -> Option<u64>;

/// The HTTP form of the instant so many seconds after the UNIX epoch.
pub uninterp spec fn http_date_text(secs: u64) -> Seq<char>;

/// The first second that has no HTTP form: the start of the year 10000.
pub const HTTP_DATE_END: u64 = 253_402_300_800;

/// The reason phrase that is shown behind an HTTP status code.
pub uninterp spec fn status_reason(status: u16) -> Seq<char>;

/// The lower-case hexadecimal digit for `d`.
pub open spec fn lower_hex_digit(d: int) -> char
    recommends
        0 <= d < 16,
{
    if d < 10 {
        (48 + d) as u8 as char
    } else {
        (87 + d) as u8 as char
    }
}

/// A character inside a JSON string: quotes, backslashes and control characters are escaped.
pub open spec fn json_char(c: char) -> Seq<char> {
    let n = c as u32;
    if c == '"' || c == '\\' {
        seq!['\\', c]
    } else if n == 0x08 {
        seq!['\\', 'b']
    } else if n == 0x09 {
        seq!['\\', 't']
    } else if n == 0x0a {
        seq!['\\', 'n']
    } else if n == 0x0c {
        seq!['\\', 'f']
    } else if n == 0x0d {
        seq!['\\', 'r']
    } else if n < 0x20 {
        seq![
            '\\',
            'u',
            '0',
            '0',
            lower_hex_digit(n as int / 16),
            lower_hex_digit(n as int % 16),
        ]
    } else {
        seq![c]
    }
}

/// Characters inside a JSON string.
pub open spec fn json_escaped(text: Seq<char>) -> Seq<char>
    decreases text.len(),
{
    if text.len() == 0 {
        seq![]
    } else {
        json_escaped(text.drop_last()) + json_char(text.last())
    }
}

/// A text as a JSON string.
pub open spec fn json_string_text(text: Seq<char>) -> Seq<char> {
    seq!['"'] + json_escaped(text) + seq!['"']
}

/// Whether every character is a printable ASCII character.
pub open spec fn printable(s: Seq<char>) -> bool {
    forall|i: int| 0 <= i < s.len() ==> 0x20 <= (#[trigger] s[i]) as u32 <= 0x7e
}

/// Whether every character is a visible ASCII character.
pub open spec fn visible(s: Seq<char>) -> bool {
    forall|i: int| 0 <= i < s.len() ==> 0x21 <= (#[trigger] s[i]) as u32 <= 0x7e
}

/// A length of time in seconds, as a JSON number.
pub uninterp spec fn json_seconds_text(secs: u64, nanos: u32) -> Seq<char>;

/// `url::form_urlencoded::byte_serialize`, collected into one text: letters, digits and `*-._`
/// stay, a space becomes `+`, and every other byte becomes `%` and two upper-case hexadecimal
/// digits.
#[verifier::external_body]
pub(crate) fn form_encode(text: &str) -> (r: String)
    ensures
        r@ == form_encoded(text.spec_bytes()),
{
    url::form_urlencoded::byte_serialize(text.as_bytes()).collect()
}

/// `url::form_urlencoded::Serializer::append_pair` on an existing query string: the pair goes
/// behind an `&` where the query is not empty, name and value form-encoded with `=` between them.
#[verifier::external_body]
pub(crate) fn append_pair(query: String, name: &str, value: &str) -> (r: String)
    ensures
        r@ == query_with_pair(query@, name@, value@),
{
    url::form_urlencoded::Serializer::new(query).append_pair(name, value).finish()
}

/// `base64::engine::general_purpose::STANDARD.encode`: RFC 4648 base64 with padding.
#[verifier::external_body]
pub(crate) fn base64_encode(bytes: &Vec<u8>) -> (r: String)
    ensures
        r@ == base64_encoded(bytes@),
{
    base64::engine::general_purpose::STANDARD.encode(bytes)
}

/// `hmac::Hmac<sha2::Sha256>`, fed one message: the result is a function of key and message, 32
/// bytes long. Keys of any length are accepted.
#[verifier::external_body]
pub(crate) fn hmac_sha256(key: &[u8], message: &[u8]) -> (r: Vec<u8>)
    ensures
        r@ == hmac_sha256_of(key@, message@),
        r@.len() == 32,
{
    let mut mac = hmac::Hmac::<sha2::Sha256>::new_from_slice(key).unwrap();
    mac.update(message);
    mac.finalize().into_bytes().to_vec()
}

/// `httpdate::parse_http_date`: the instant that a date denotes, as whole seconds since the UNIX
/// epoch, which lies before the year 10000. A text that is no date is refused with one fixed
/// message.
#[verifier::external_body]
pub(crate) fn read_http_date(text: &str) -> (r: std::result::Result<u64, String>)
    ensures
        r is Ok <==> http_date(text@) is Some,
        r matches Ok(secs) ==> http_date(text@) == Some(secs) && secs < HTTP_DATE_END,
        r matches Err(e) ==> e@ == "string contains no or an invalid date"@,
{
    match httpdate::parse_http_date(text) {
        Ok(time) => Ok(time.duration_since(std::time::UNIX_EPOCH).unwrap().as_secs()),
        Err(e) => Err(e.to_string()),
    }
}

/// `httpdate::fmt_http_date`, which panics from the year 10000 on: the date in the form
/// `Fri, 15 May 2015 15:34:21 GMT`, in printable ASCII characters, from which
/// `httpdate::parse_http_date` reads the same instant.
#[verifier::external_body]
pub(crate) fn write_http_date(secs: u64) -> (r: String)
    requires
        secs < HTTP_DATE_END,
    ensures
        r@ == http_date_text(secs),
        http_date(r@) == Some(secs),
        printable(r@),
{
    httpdate::fmt_http_date(std::time::UNIX_EPOCH + std::time::Duration::from_secs(secs))
}

/// `serde_json::to_string` on a text, which cannot fail: the text in quotes, in which quotes and
/// backslashes stand behind a backslash and control characters below the space are written as `\b`,
/// `\t`, `\n`, `\f`, `\r` or `\u00` and two lower-case hexadecimal digits.
#[verifier::external_body]
pub(crate) fn json_string(text: &str) -> (r: String)
    ensures
        r@ == json_string_text(text@),
{
    serde_json::to_string(text).unwrap()
}

/// `serde_json::to_string` on a length of time in seconds, taken as a double-precision number by
/// `std::time::Duration`: a JSON number, a function of the length, in visible ASCII characters. It
/// cannot fail, since that number is finite.
#[verifier::external_body]
pub(crate) fn json_seconds(secs: u64, nanos: u32) -> (r: String)
    requires
        nanos < 1_000_000_000,
    ensures
        r@ == json_seconds_text(secs, nanos),
        visible(r@),
{
    serde_json::to_string(&std::time::Duration::new(secs, nanos).as_secs_f64()).unwrap()
}

/// How `reqwest::StatusCode` is shown: the code, a space and the reason phrase. The codes from 100
/// to 999 are those it can hold.
#[verifier::external_body]
pub(crate) fn status_text(status: u16) -> (r: String)
    requires
        100 <= status <= 999,
    ensures
        r@ == decimal(status as nat) + " "@ + status_reason(status),
{
    reqwest::StatusCode::from_u16(status).unwrap().to_string()
}

/// Form encoding writes visible ASCII characters only.
pub proof fn lemma_form_encoded_visible(bytes: Seq<u8>)
    ensures
        visible(form_encoded(bytes)),
    decreases bytes.len(),
{
    if bytes.len() > 0 {
        lemma_form_encoded_visible(bytes.drop_last());
        let b = bytes.last();
        assert(visible(form_byte(b)));
    }
}

} // verus!
