//! URLs as the values that the Service Bus rules read, and the operations on them that the `url`
//! crate computes.
use vstd::prelude::*;
use vstd::string::*;
use vstd::utf8::*;

use url::{Host, Position, Url};

use crate::encoding::{append_pair, percent_encoded, query_with_pair};
use crate::text::{clone_text, has_prefix, is_word, lowercase, optional, string_views};

verus! {

/// What the host of a URL is.
#[derive(Clone, Copy, Debug, PartialEq, Eq, Structural)]
pub enum UrlHost {
    /// There is no host.
    Missing,
    /// A domain name; its text is the text of the host.
    Domain,
    /// An IPv4 address, most significant byte first.
    Ipv4(u32),
    /// An IPv6 address, most significant byte first.
    Ipv6(u128),
}

/// The components of a parsed URL.
#[derive(Debug)]
pub struct UrlParts {
    /// The scheme, in lower case.
    pub scheme: String,
    /// What the host is.
    pub host: UrlHost,
    /// The text of the host.
    pub host_text: Option<String>,
    /// The port, or the one that belongs to the scheme.
    pub port: Option<u16>,
    /// All that stands before the path, from the scheme to the port.
    pub before_path: String,
    /// The path.
    pub path: String,
    /// The query, without its question mark.
    pub query: Option<String>,
    /// The fragment, without its number sign.
    pub fragment: Option<String>,
    /// Whether the path cannot be split into segments, as in `mailto:me@example.com`.
    pub cannot_be_a_base: bool,
}

/// The components of a parsed URL, as characters.
pub struct UrlView {
    pub scheme: Seq<char>,
    pub host: UrlHost,
    pub host_text: Option<Seq<char>>,
    pub port: Option<u16>,
    pub before_path: Seq<char>,
    pub path: Seq<char>,
    pub query: Option<Seq<char>>,
    pub fragment: Option<Seq<char>>,
    pub cannot_be_a_base: bool,
}

impl View for UrlParts {
    type V = UrlView;

    open spec fn view(&self) -> UrlView {
        UrlView {
            scheme: self.scheme@,
            host: self.host,
            host_text: optional(self.host_text),
            port: self.port,
            before_path: self.before_path@,
            path: self.path@,
            query: optional(self.query),
            fragment: optional(self.fragment),
            cannot_be_a_base: self.cannot_be_a_base,
        }
    }
}

impl UrlView {
    /// The URL as text.
    pub open spec fn text(self) -> Seq<char> {
        let query = match self.query {
            Some(query) => "?"@ + query,
            None => seq![],
        };
        let fragment = match self.fragment {
            Some(fragment) => "#"@ + fragment,
            None => seq![],
        };
        self.before_path + self.path + query + fragment
    }

    /// Whether two URLs have the same origin: scheme, host and port.
    pub open spec fn same_origin(self, other: UrlView) -> bool {
        self.scheme == other.scheme && self.host_text == other.host_text && self.port == other.port
    }

    /// Whether the host is this machine: `localhost`, `127.0.0.0/8` or `::1`.
    pub open spec fn loopback(self) -> bool {
        match self.host {
            UrlHost::Missing => false,
            UrlHost::Domain => self.host_text matches Some(domain) && lowercase(domain)
                == "localhost"@,
            UrlHost::Ipv4(bits) => bits / 0x100_0000 == 127,
            UrlHost::Ipv6(bits) => bits == 1,
        }
    }
}

/// What the `url` crate reads a text as: the components, or the text of the error.
pub uninterp spec fn url_parse(text: Seq<char>) -> std::result::Result<UrlView, Seq<char>>;

/// The path that the `url` crate gives the URL `text` when segments are put behind its path, or
/// `None` where `text` is no URL whose path has segments.
pub uninterp spec fn url_extended_path(
    text: Seq<char>,
    segments: Seq<Seq<char>>,
) -> Option<Seq<char>>;

/// The bytes that are percent-encoded in a path segment of an `http` or `https` URL.
pub open spec fn segment_escaped(b: u8) -> bool {
    ||| b <= 0x20
    ||| b == 0x22
    ||| b == 0x23
    ||| b == 0x25
    ||| b == 0x2f
    ||| b == 0x3c
    ||| b == 0x3e
    ||| b == 0x3f
    ||| b == 0x5c
    ||| b == 0x60
    ||| b == 0x7b
    ||| b == 0x7d
    ||| b >= 0x7f
}

/// The bytes of a path segment, percent-encoded.
pub open spec fn segment_encoded(bytes: Seq<u8>) -> Seq<char>
    decreases bytes.len(),
{
    if bytes.len() == 0 {
        seq![]
    } else {
        let b = bytes.last();
        segment_encoded(bytes.drop_last()) + (if segment_escaped(b) {
            percent_encoded(b)
        } else {
            seq![b as char]
        })
    }
}

/// Whether the URL syntax drops a character: tab, line feed and carriage return.
pub open spec fn dropped(c: char) -> bool {
    c == '\t' || c == '\n' || c == '\r'
}

/// What the URL syntax keeps of a segment.
pub open spec fn kept(segment: Seq<char>) -> Seq<char> {
    segment.filter(|c: char| !dropped(c))
}

/// Whether a segment is one that stands for no segment.
pub open spec fn dots(segment: Seq<char>) -> bool {
    segment == "."@ || segment == ".."@
}

/// What stands in a path for a segment that is not [`dots`]: what is kept of it, or nothing where
/// that is a dot.
pub open spec fn segment_text(segment: Seq<char>) -> Seq<char> {
    if kept(segment) == "."@ {
        seq![]
    } else {
        kept(segment)
    }
}

/// Whether a segment leaves the path before it alone: it does not spell `..` with dropped
/// characters in it.
pub open spec fn descends(segment: Seq<char>) -> bool {
    kept(segment) == ".."@ ==> segment == ".."@
}

/// A path without a slash at its end, unless that is all it is.
pub open spec fn without_last_slash(path: Seq<char>) -> Seq<char> {
    if path.len() > 1 && path.last() == '/' {
        path.drop_last()
    } else {
        path
    }
}

/// A path with segments put behind it; `.` and `..` are left out.
pub open spec fn path_with(path: Seq<char>, segments: Seq<Seq<char>>) -> Seq<char>
    decreases segments.len(),
{
    if segments.len() == 0 {
        without_last_slash(path)
    } else {
        let start = path_with(path, segments.drop_last());
        if dots(segments.last()) {
            start
        } else {
            let slash = if start.len() == 1 {
                start
            } else {
                start + "/"@
            };
            slash + segment_encoded(encode_utf8(segment_text(segments.last())))
        }
    }
}

/// The number of bytes that a segment adds to a path, at most: a slash and its percent-encoded text.
pub open spec fn segment_size(segment: Seq<char>) -> int {
    if dots(segment) {
        0
    } else {
        1 + segment_encoded(encode_utf8(segment)).len() as int
    }
}

/// The number of bytes that segments add to a path, at most.
pub open spec fn segments_size(segments: Seq<Seq<char>>) -> int
    decreases segments.len(),
{
    if segments.len() == 0 {
        0
    } else {
        segments_size(segments.drop_last()) + segment_size(segments.last())
    }
}

/// The outcome of parsing a URL, as characters.
pub open spec fn parse_view(
    r: std::result::Result<UrlParts, String>,
) -> std::result::Result<UrlView, Seq<char>> {
    match r {
        Ok(parts) => Ok(parts@),
        Err(e) => Err(e@),
    }
}

/// Whether the segments of a path can be put behind the path of the URL that `text` is read as.
pub open spec fn extensible(text: Seq<char>) -> bool {
    url_parse(text) matches Ok(url) && !url.cannot_be_a_base
}

/// Whether a URL with these segments behind its path stays within 4 GiB.
pub open spec fn has_room(url: UrlView, segments: Seq<Seq<char>>) -> bool {
    encode_utf8(url.text()).len() + segments_size(segments) <= u32::MAX
}

/// Whether a scheme is that of the web.
pub open spec fn web_scheme(scheme: Seq<char>) -> bool {
    scheme == "http"@ || scheme == "https"@
}

/// Whether a URL has the scheme `https`, a host and a path with segments.
pub open spec fn https_url(url: UrlView) -> bool {
    url.scheme == "https"@ && url.host != UrlHost::Missing && !url.cannot_be_a_base
}

/// Whether every segment leaves the path before it alone.
pub open spec fn all_descend(segments: Seq<Seq<char>>) -> bool {
    forall|i: int| 0 <= i < segments.len() ==> descends(#[trigger] segments[i])
}

/// `url::Url::parse`, and the accessors of `url::Url` on what it returns: scheme, host, port (or
/// the one known for the scheme), the text before the path, path, query, fragment and whether the
/// URL cannot be a base. The result depends on the text alone. A text that starts with `https://`
/// and is a URL has the scheme `https`, a host and a path with segments.
#[verifier::external_body]
pub(crate) fn parse_url(text: &str) -> (r: std::result::Result<UrlParts, String>)
    ensures
        parse_view(r) == url_parse(text@),
        r matches Ok(url) ==> (has_prefix(text@, "https://"@) ==> https_url(url@)),
{
    let url = Url::parse(text).map_err(|e| e.to_string())?;
    Ok(UrlParts { scheme: url.scheme().into(), host: match url.host() {
            None => UrlHost::Missing,
            Some(Host::Domain(_)) => UrlHost::Domain,
            Some(Host::Ipv4(ip)) => UrlHost::Ipv4(ip.into()),
            Some(Host::Ipv6(ip)) => UrlHost::Ipv6(ip.into())
        }, host_text: url.host_str().map(String::from), port: url.port_or_known_default(),
        before_path: url[..Position::BeforePath].into(), path: url.path().into(),
        query: url.query().map(String::from), fragment: url.fragment().map(String::from),
        cannot_be_a_base: url.cannot_be_a_base() })
}

/// What a Cosmos DB account endpoint is read as: every URL is one, and all else is refused with one
/// fixed message.
pub open spec fn account_endpoint(text: Seq<char>) -> std::result::Result<(), Seq<char>> {
    match url_parse(text) {
        Ok(_) => Ok(()),
        Err(_) => Err(
            "400/20108 (ClientInvalidAccountEndpointUrl): invalid account endpoint URL"@,
        ),
    }
}

/// Whether a text was accepted, and the text of the error where it was not, as characters.
pub open spec fn verdict_view(r: std::result::Result<(), String>) -> std::result::Result<
    (),
    Seq<char>,
> {
    match r {
        Ok(_) => Ok(()),
        Err(e) => Err(e@),
    }
}

/// `azure_data_cosmos::AccountEndpoint::from_str`, of which only the verdict is kept: a text is an
/// account endpoint exactly when `url::Url::parse` accepts it, and the error is shown as one fixed
/// text.
#[verifier::external_body]
pub(crate) fn read_account_endpoint(text: &str) -> (r: std::result::Result<(), String>)
    ensures
        verdict_view(r) == account_endpoint(text@),
{
    match text.parse::<azure_data_cosmos::AccountEndpoint>() {
        Ok(_) => Ok(()),
        Err(e) => Err(e.to_string()),
    }
}

/// `url::Url::path_segments_mut` on the URL `text`, then `pop_if_empty` and `extend` with the
/// segments, and the path of what results. It fails on a text that is no URL and on a URL that
/// cannot be a base, and on no other. Where the scheme is `http` or `https`, the path is the old
/// one, without a slash at its end, followed by a slash and the percent-encoded text of each segment
/// but `.` and `..`, from which tabs, line feeds and carriage returns are left out; a dot that is
/// left by itself is left out too. What a `..` left in this way does to the path is not said. The
/// `url` crate panics on URLs longer than `u32::MAX` bytes.
#[verifier::external_body]
pub(crate) fn extend_path(text: &str, segments: &Vec<String>) -> (r: Option<String>)
    requires
        url_parse(text@) matches Ok(url) ==> has_room(url, string_views(segments@)),
    ensures
        optional(r) == url_extended_path(text@, string_views(segments@)),
        r is Some <==> extensible(text@),
        r matches Some(path) ==> (url_parse(text@) matches Ok(url) && (web_scheme(url.scheme)
            && all_descend(string_views(segments@)) ==> path@ == path_with(
            url.path,
            string_views(segments@),
        ))),
{
    let mut url = Url::parse(text).ok()?;
    url.path_segments_mut().ok()?.pop_if_empty().extend(segments);
    Some(url.path().to_string())
}

impl Clone for UrlParts {
    fn clone(&self) -> (r: Self)
        ensures
            r@ == self@,
    {
        UrlParts {
            scheme: self.scheme.clone(),
            host: self.host,
            host_text: clone_text(&self.host_text),
            port: self.port,
            before_path: self.before_path.clone(),
            path: self.path.clone(),
            query: clone_text(&self.query),
            fragment: clone_text(&self.fragment),
            cannot_be_a_base: self.cannot_be_a_base,
        }
    }
}

impl UrlParts {
    /// The URL as text.
    pub fn as_text(&self) -> (r: String)
        ensures
            r@ == self@.text(),
    {
        let mut text = self.before_path.clone();
        text.append(self.path.as_str());
        if let Some(query) = &self.query {
            text.append("?");
            text.append(query.as_str());
        }
        if let Some(fragment) = &self.fragment {
            text.append("#");
            text.append(fragment.as_str());
        }
        assert(text@ =~= self@.text());
        text
    }

    /// The URL with another path.
    pub fn with_path(self, path: String) -> (r: Self)
        ensures
            r@ == (UrlView { path: path@, ..self@ }),
    {
        UrlParts { path, ..self }
    }

    /// The URL with one more pair in its query.
    pub fn with_query_pair(self, name: &str, value: &str) -> (r: Self)
        ensures
            r@ == (UrlView {
                query: Some(
                    query_with_pair(
                        match self@.query {
                            Some(query) => query,
                            None => seq![],
                        },
                        name@,
                        value@,
                    ),
                ),
                ..self@
            }),
    {
        let query = match self.query {
            Some(query) => query,
            None => String::new(),
        };
        UrlParts { query: Some(append_pair(query, name, value)), ..self }
    }
}

/// Whether a byte is percent-encoded in a path segment.
pub(crate) fn is_escaped(b: u8) -> (r: bool)
    ensures
        r == segment_escaped(b),
{
    b <= 0x20 || b == 0x22 || b == 0x23 || b == 0x25 || b == 0x2f || b == 0x3c || b == 0x3e || b
        == 0x3f || b == 0x5c || b == 0x60 || b == 0x7b || b == 0x7d || b >= 0x7f
}

/// Whether the host of a URL is this machine.
pub fn is_loopback(url: &UrlParts) -> (r: bool)
    ensures
        r == url@.loopback(),
{
    match url.host {
        UrlHost::Missing => false,
        UrlHost::Domain => match &url.host_text {
            Some(domain) => is_word(domain.as_str(), "localhost"),
            None => false,
        },
        UrlHost::Ipv4(bits) => bits / 0x100_0000 == 127,
        UrlHost::Ipv6(bits) => bits == 1,
    }
}

} // verus!
