//! HTTP headers: the header map of `reqwest`, and what its names and values may hold.
use vstd::prelude::*;
use vstd::string::*;
use vstd::utf8::*;

use reqwest::header::{HeaderMap, HeaderName, HeaderValue};

use crate::text::lowercase;

verus! {

/// The header map of `reqwest`, with values of any type.
#[verifier::external_type_specification]
#[verifier::external_body]
#[verifier::reject_recursive_types(T)]
pub struct ExHeaderMap<T>(reqwest::header::HeaderMap<T>);

/// The header value of `reqwest`.
#[verifier::external_type_specification]
#[verifier::external_body]
pub struct ExHeaderValue(reqwest::header::HeaderValue);

/// The values that a header map holds for each name, names in lower case, values in order.
pub uninterp spec fn header_contents(
    headers: HeaderMap<HeaderValue>,
) -> Map<Seq<char>, Seq<Seq<u8>>>;

/// The names of which a header map keeps a value out of its debug output.
pub uninterp spec fn header_sensitive(headers: HeaderMap<HeaderValue>) -> Set<Seq<char>>;

/// The text that bytes are read as when what is not UTF-8 is replaced.
pub uninterp spec fn utf8_lossy(bytes: Seq<u8>) -> Seq<char>;

/// A number of header names that every header map has room for.
pub const HEADER_ROOM: usize = 6_553;

/// Whether a character may stand in a header name: it is a token character of HTTP.
pub open spec fn token_char(c: char) -> bool {
    ||| '0' <= c <= '9'
    ||| 'A' <= c <= 'Z'
    ||| 'a' <= c <= 'z'
    ||| c == '!' || c == '#' || c == '$' || c == '%' || c == '&' || c == '\'' || c == '*'
    ||| c == '+' || c == '-' || c == '.' || c == '^' || c == '_' || c == '`' || c == '|' || c == '~'
}

/// Whether a text is a header name.
pub open spec fn valid_name(name: Seq<char>) -> bool {
    1 <= name.len() <= 65535 && forall|i: int|
        0 <= i < name.len() ==> token_char(#[trigger] name[i])
}

/// Whether a text is a header value: it holds no control character but the tab.
pub open spec fn valid_value(value: Seq<char>) -> bool {
    forall|i: int| 0 <= i < value.len() ==> value_char(#[trigger] value[i])
}

/// Whether a character may stand in a header value.
pub open spec fn value_char(c: char) -> bool {
    c as u32 >= 0x20 && c as u32 != 0x7f || c == '\t'
}

/// Whether a byte is a visible ASCII character, a space or a tab.
pub open spec fn text_byte(b: u8) -> bool {
    0x20 <= b < 0x7f || b == 0x09
}

/// The text of a header value, where it holds text bytes only.
pub open spec fn value_text(bytes: Seq<u8>) -> Option<Seq<char>> {
    if forall|i: int| 0 <= i < bytes.len() ==> text_byte(#[trigger] bytes[i]) {
        Some(Seq::new(bytes.len(), |i: int| bytes[i] as char))
    } else {
        None
    }
}

/// The values of `name` among pairs of name and value, in order.
pub open spec fn values_of(pairs: Seq<(Seq<char>, Seq<u8>)>, name: Seq<char>) -> Seq<Seq<u8>>
    decreases pairs.len(),
{
    if pairs.len() == 0 {
        seq![]
    } else {
        let start = values_of(pairs.drop_last(), name);
        if pairs.last().0 == name {
            start.push(pairs.last().1)
        } else {
            start
        }
    }
}

/// Pairs of header name and value, as characters and bytes.
pub open spec fn pair_views(pairs: Seq<(String, Vec<u8>)>) -> Seq<(Seq<char>, Seq<u8>)> {
    pairs.map_values(|p: (String, Vec<u8>)| (p.0@, p.1@))
}

/// All that a header map holds for `name`.
pub open spec fn all_values(headers: HeaderMap<HeaderValue>, name: Seq<char>) -> Seq<Seq<u8>> {
    if header_contents(headers).contains_key(name) {
        header_contents(headers)[name]
    } else {
        seq![]
    }
}

/// Whether a header map has less than [`HEADER_ROOM`] names.
pub open spec fn has_header_room(headers: HeaderMap<HeaderValue>) -> bool {
    header_contents(headers).dom().finite() && header_contents(headers).dom().len() < HEADER_ROOM
}

/// `reqwest::header::HeaderMap::new`: a map without headers.
#[verifier::external_body]
pub(crate) fn new_headers() -> (r: HeaderMap<HeaderValue>)
    ensures
        (header_contents(r) == Map::<Seq<char>, Seq<Seq<u8>>>::empty()),
        header_sensitive(r) == Set::<Seq<char>>::empty(),
{
    HeaderMap::new()
}

/// `reqwest::header::HeaderName::from_bytes`: a name of 1 to 65535 token characters is accepted
/// and put in lower case, any other text is refused.
#[verifier::external_body]
pub(crate) fn header_name(name: &str) -> (r: Option<String>)
    ensures
        r is Some <==> valid_name(name@),
        r matches Some(lower) ==> lower@ == lowercase(name@),
{
    HeaderName::from_bytes(name.as_bytes()).ok().map(|n| n.as_str().to_string())
}

/// `reqwest::header::HeaderValue::from_str`, of which only the verdict is kept: a text without
/// control characters other than the tab is accepted, any other text is refused.
#[verifier::external_body]
pub(crate) fn is_header_value(value: &str) -> (r: bool)
    ensures
        r == valid_value(value@),
{
    HeaderValue::from_str(value).is_ok()
}

/// `reqwest::header::HeaderMap::try_insert`, of a value marked by `set_sensitive`: the name, in
/// lower case, has that value alone from then on, and every other header stays. It fails only on a
/// map that is full, which a map with less than [`HEADER_ROOM`] names is not; whether a map with
/// more names is full depends on how their hashes collide, and is not said here.
#[verifier::external_body]
pub(crate) fn insert_header(
    headers: &mut HeaderMap<HeaderValue>,
    name: &str,
    value: &str,
    sensitive: bool,
) -> (r: bool)
    requires
        valid_name(name@),
        valid_value(value@),
    ensures
        has_header_room(*old(headers)) ==> r,
        r ==> header_contents(*final(headers)) == header_contents(*old(headers)).insert(
            lowercase(name@),
            seq![encode_utf8(value@)],
        ),
        r ==> header_sensitive(*final(headers)) == (if sensitive {
            header_sensitive(*old(headers)).insert(lowercase(name@))
        } else {
            header_sensitive(*old(headers)).remove(lowercase(name@))
        }),
{
    let mut marked = HeaderValue::from_str(value).unwrap();
    marked.set_sensitive(sensitive);
    headers.try_insert(HeaderName::from_bytes(name.as_bytes()).unwrap(), marked).is_ok()
}

/// `reqwest::header::HeaderMap::try_append`, of a value that is not sensitive: the value goes behind
/// those that the name has, and every other header stays. It fails only on a map that is full, which
/// a map with less than [`HEADER_ROOM`] names is not.
#[verifier::external_body]
pub(crate) fn append_header(headers: &mut HeaderMap<HeaderValue>, name: &str, value: &str) -> (r:
    bool)
    requires
        valid_name(name@),
        valid_value(value@),
    ensures
        has_header_room(*old(headers)) ==> r,
        r ==> header_contents(*final(headers)) == header_contents(*old(headers)).insert(
            lowercase(name@),
            all_values(*old(headers), lowercase(name@)).push(encode_utf8(value@)),
        ),
        r ==> header_sensitive(*final(headers)) == header_sensitive(*old(headers)),
{
    let name = HeaderName::from_bytes(name.as_bytes()).unwrap();
    headers.try_append(name, HeaderValue::from_str(value).unwrap()).is_ok()
}

/// `reqwest::header::HeaderMap::get`: the first value of a name.
#[verifier::external_body]
pub(crate) fn first_value(headers: &HeaderMap<HeaderValue>, name: &str) -> (r: Option<Vec<u8>>)
    requires
        valid_name(name@),
    ensures
        r is Some <==> all_values(*headers, lowercase(name@)).len() > 0,
        r matches Some(value) ==> value@ == all_values(*headers, lowercase(name@))[0],
{
    headers.get(name).map(|value| value.as_bytes().to_vec())
}

/// `reqwest::header::HeaderMap::iter`, collected: each name once for each of its values, the
/// values of one name in their order, and every name in lower case. Which name comes first is left
/// open.
#[verifier::external_body]
pub(crate) fn header_pairs(headers: &HeaderMap<HeaderValue>) -> (r: Vec<(String, Vec<u8>)>)
    ensures
        forall|i: int|
            0 <= i < r@.len() ==> lowercase((#[trigger] r@[i]).0@) == r@[i].0@,
        forall|name: Seq<char>| #[trigger]
            values_of(pair_views(r@), name) == all_values(*headers, name),
{
    headers.iter().map(|(name, value)| (name.as_str().to_string(), value.as_bytes().to_vec()))
        .collect()
}

/// `String::from_utf8_lossy`: UTF-8 is read as it is, and what is not UTF-8 is replaced.
#[verifier::external_body]
pub(crate) fn lossy_text(bytes: &Vec<u8>) -> (r: String)
    ensures
        r@ == utf8_lossy(bytes@),
        valid_utf8(bytes@) ==> r@ == decode_utf8(bytes@),
{
    String::from_utf8_lossy(bytes).into_owned()
}

/// The text of a header value, where it holds visible ASCII characters, spaces and tabs only.
pub fn header_text(bytes: &Vec<u8>) -> (r: Option<String>)
    ensures
        r is Some <==> value_text(bytes@) is Some,
        r matches Some(text) ==> value_text(bytes@) == Some(text@),
{
    let mut i: usize = 0;
    while i < bytes.len()
        invariant
            i <= bytes.len(),
            forall|j: int| 0 <= j < i ==> text_byte(#[trigger] bytes@[j]),
        decreases bytes.len() - i,
    {
        let b = bytes[i];
        if !(0x20 <= b && b < 0x7f || b == 0x09) {
            assert(!text_byte(bytes@[i as int]));
            return None;
        }
        i += 1;
    }
    proof {
        let chars = Seq::new(bytes@.len(), |j: int| bytes@[j] as char);
        assert forall|j: int| 0 <= j < chars.len() implies (chars[j] as nat) < 128 by {
            assert(text_byte(bytes@[j]));
        }
        assert(is_ascii_chars(chars));
        is_ascii_chars_encode_utf8(chars);
        assert forall|j: int| 0 <= j < bytes@.len() implies encode_utf8(chars)[j] == bytes@[j] by {
            assert(text_byte(bytes@[j]));
            assert(chars[j] as u8 == encode_utf8(chars)[j]);
        }
        assert(encode_utf8(chars) =~= bytes@);
        encode_utf8_valid_utf8(chars);
        encode_utf8_decode_utf8(chars);
    }
    Some(lossy_text(bytes))
}

} // verus!
