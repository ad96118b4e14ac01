//! Requests: what is sent to the service, and when it counts as lost.
use vstd::prelude::*;
use vstd::string::*;
use vstd::utf8::*;

use reqwest::header::{HeaderMap, HeaderValue};

use crate::encoding::query_with_pair;
use crate::error::{agrees, ErrorView, Result};
use crate::headers::{
    append_header, header_contents, header_sensitive, insert_header, new_headers, valid_value,
    HEADER_ROOM,
};
use crate::servicebus::client::{authorization_for, safe_scheme, ClientView, ServiceBusClient};
use crate::servicebus::entity::{Entity, EntityView};
use crate::servicebus::message::{
    message_headers, no_options, Contents, OptionsView, SendMessageOptions, Span, CUSTOM_ROOM,
};
use crate::text::{decimal, decimal_text, lowercase, optional};
use crate::uri::{UrlParts, UrlView};

verus! {

/// Time allowed for each request, in seconds, so that a hung or unreachable namespace cannot block
/// callers indefinitely. Peek-lock requests add their server-side wait on top.
pub const REQUEST_TIMEOUT: u64 = 30;

/// The HTTP methods of the Service Bus API.
#[derive(Clone, Copy, Debug, PartialEq, Eq, Structural)]
pub enum Method {
    Post,
    Put,
    Delete,
}

impl Method {
    /// The method as it stands in a request.
    pub open spec fn text(self) -> Seq<char> {
        match self {
            Method::Post => "POST"@,
            Method::Put => "PUT"@,
            Method::Delete => "DELETE"@,
        }
    }

    /// The method as it stands in a request.
    pub fn as_str(self) -> (r: &'static str)
        ensures
            r@ == self.text(),
    {
        match self {
            Method::Post => "POST",
            Method::Put => "PUT",
            Method::Delete => "DELETE",
        }
    }
}

/// A request that is ready to be sent.
pub struct Request {
    /// The method.
    pub method: Method,
    /// Where it goes.
    pub url: UrlParts,
    /// Its headers.
    pub headers: HeaderMap<HeaderValue>,
    /// Its body.
    pub body: Option<String>,
    /// How long it may take.
    pub timeout: Span,
}

/// A request, with its texts as characters.
pub struct RequestView {
    pub method: Method,
    pub url: UrlView,
    /// The values of each header, names in lower case.
    pub headers: Contents,
    /// The headers that are kept out of debug output.
    pub sensitive: Set<Seq<char>>,
    pub body: Option<Seq<char>>,
    pub timeout: Span,
}

impl View for Request {
    type V = RequestView;

    open spec fn view(&self) -> RequestView {
        RequestView {
            method: self.method,
            url: self.url@,
            headers: header_contents(self.headers),
            sensitive: header_sensitive(self.headers),
            body: optional(self.body),
            timeout: self.timeout,
        }
    }
}

/// The values of a header.
pub open spec fn values_in(headers: Contents, name: Seq<char>) -> Seq<Seq<u8>> {
    if headers.contains_key(name) {
        headers[name]
    } else {
        seq![]
    }
}

/// Headers signed with a token; a request without a body says so.
pub open spec fn signed_headers(headers: Contents, token: Seq<char>, has_body: bool) -> Contents {
    let signed = headers.insert("authorization"@, seq![encode_utf8(token)]);
    if has_body {
        signed
    } else {
        signed.insert(
            "content-length"@,
            values_in(signed, "content-length"@).push(encode_utf8("0"@)),
        )
    }
}

/// A request signed with a token, which is kept out of debug output.
pub open spec fn signed_with(request: RequestView, token: Seq<char>) -> RequestView {
    RequestView {
        headers: signed_headers(request.headers, token, request.body is Some),
        sensitive: request.sensitive.insert("authorization"@),
        ..request
    }
}

/// The outcome of preparing a request, signed for `scope` at the time `now`.
pub open spec fn prepared(
    client: ClientView,
    scope: Seq<char>,
    request: RequestView,
    now: i64,
) -> std::result::Result<RequestView, ErrorView> {
    match authorization_for(client, scope, now) {
        Err(e) => Err(e),
        Ok(token) => Ok(signed_with(request, token)),
    }
}

/// A length of whole seconds.
pub open spec fn seconds(secs: u64) -> Span {
    Span { secs, nanos: 0 }
}

/// A request before it is signed, with the usual time allowed.
pub open spec fn unsigned(
    method: Method,
    url: UrlView,
    headers: Contents,
    body: Option<Seq<char>>,
) -> RequestView {
    RequestView {
        method,
        url,
        headers,
        sensitive: Set::empty(),
        body,
        timeout: seconds(REQUEST_TIMEOUT),
    }
}

/// The outcome of preparing a request to an entity.
pub open spec fn entity_request(entity: EntityView, request: RequestView, now: i64) ->
    std::result::Result<RequestView, ErrorView> {
    prepared(entity.client, entity.scope(), request, now)
}

/// Options that may be missing, as characters.
pub open spec fn options_view(options: Option<SendMessageOptions>) -> Option<OptionsView> {
    match options {
        Some(options) => Some(options@),
        None => None,
    }
}

/// The outcome of preparing to send a message.
pub open spec fn send_request(
    entity: EntityView,
    body: Seq<char>,
    options: Option<OptionsView>,
    now: i64,
) -> std::result::Result<RequestView, ErrorView> {
    let chosen = match options {
        Some(options) => options,
        None => no_options(),
    };
    match message_headers(chosen) {
        Err(e) => Err(e),
        Ok(headers) => entity_request(
            entity,
            unsigned(Method::Post, entity.messages(), headers, Some(body)),
            now,
        ),
    }
}

/// The outcome of preparing to receive and delete a message.
pub open spec fn receive_request(entity: EntityView, now: i64) -> std::result::Result<
    RequestView,
    ErrorView,
> {
    entity_request(entity, unsigned(Method::Delete, entity.head(), Map::empty(), None), now)
}

/// A length of time in whole seconds, rounded up, or the most seconds there are where rounding up
/// would go beyond them.
pub open spec fn whole_seconds(wait: Span) -> int {
    if wait.nanos > 0 && wait.secs < u64::MAX {
        wait.secs + 1
    } else {
        wait.secs as int
    }
}

/// The time allowed for a request that the service may answer after `secs` seconds: a length of
/// time stops at the longest there is.
pub open spec fn waiting_timeout(secs: int) -> Span {
    if REQUEST_TIMEOUT + secs <= u64::MAX {
        seconds((REQUEST_TIMEOUT + secs) as u64)
    } else {
        Span { secs: u64::MAX, nanos: 999_999_999 }
    }
}

/// The peek-lock request before it is signed. The service takes whole seconds; rounding up keeps a
/// wait of less than a second from turning into none.
pub open spec fn unsigned_peek(entity: EntityView, wait: Option<Span>) -> RequestView {
    let request = unsigned(Method::Post, entity.head(), Map::empty(), None);
    match wait {
        None => request,
        Some(wait) => RequestView {
            url: UrlView {
                query: Some(
                    query_with_pair(
                        match entity.head().query {
                            Some(query) => query,
                            None => seq![],
                        },
                        "timeout"@,
                        decimal(whole_seconds(wait) as nat),
                    ),
                ),
                ..entity.head()
            },
            timeout: waiting_timeout(whole_seconds(wait)),
            ..request
        },
    }
}

/// The outcome of preparing to lock a message.
pub open spec fn peek_request(entity: EntityView, wait: Option<Span>, now: i64) ->
    std::result::Result<RequestView, ErrorView> {
    entity_request(entity, unsigned_peek(entity, wait), now)
}

/// Whether a request, if there is one, goes out over `https`, or over `http` to this machine.
pub open spec fn sent_safely(r: Result<Request>) -> bool {
    r matches Ok(request) ==> safe_scheme(request@.url)
}

/// Whether the header map of a request has room for the headers that are put in to sign it.
pub open spec fn signable(request: RequestView) -> bool {
    request.headers.dom().finite() && request.headers.dom().len() + 2 <= HEADER_ROOM
}

/// Sign a request with a token that was made for it. There is none where the header map has no room
/// for the headers that are put in.
pub fn sign_request(request: Request, token: &str) -> (r: Option<Request>)
    requires
        valid_value(token@),
    ensures
        signable(request@) ==> r is Some,
        r matches Some(signed) ==> signed@ == signed_with(request@, token@),
{
    let Request { method, url, headers, body, timeout } = request;
    let mut headers = headers;
    proof {
        reveal_strlit("authorization");
        reveal_strlit("content-length");
        reveal_strlit("0");
        assert(lowercase("authorization"@) =~= "authorization"@);
        assert(lowercase("content-length"@) =~= "content-length"@);
    }
    if !insert_header(&mut headers, "authorization", token, true) {
        return None;
    }
    if body.is_none() && !append_header(&mut headers, "content-length", "0") {
        return None;
    }
    Some(Request { method, url, headers, body, timeout })
}

/// Prepare a request, signed for `scope` at the time `now`. There is none where the header map has
/// no room for the headers that are put in.
fn prepare(client: &ServiceBusClient, scope: &str, request: Request, now: i64) -> (r: Option<
    Result<Request>,
>)
    ensures
        signable(request@) ==> r is Some,
        r matches Some(made) ==> agrees(made, prepared(client@, scope@, request@, now)),
{
    match client.authorization(scope, now) {
        Ok(token) => match sign_request(request, token.as_str()) {
            Some(signed) => Some(Ok(signed)),
            None => None,
        },
        Err(e) => Some(Err(e)),
    }
}

/// A length of time in whole seconds, rounded up as far as that goes.
pub fn round_up(wait: Span) -> (r: u64)
    ensures
        r == whole_seconds(wait),
{
    if wait.nanos > 0 && wait.secs < u64::MAX {
        wait.secs + 1
    } else {
        wait.secs
    }
}

/// The time allowed for a request that the service may answer after `secs` seconds.
pub fn timeout_for(secs: u64) -> (r: Span)
    ensures
        r == waiting_timeout(secs as int),
{
    match secs.checked_add(REQUEST_TIMEOUT) {
        Some(secs) => Span { secs, nanos: 0 },
        None => Span { secs: u64::MAX, nanos: 999_999_999 },
    }
}

impl Entity {
    /// Prepare a request without options to this entity.
    pub(crate) fn bare_request(&self, method: Method, url: UrlParts, timeout: Span, now: i64) -> (r:
        Result<Request>)
        ensures
            agrees(
                r,
                entity_request(
                    self@,
                    (RequestView {
                        timeout,
                        ..unsigned(method, url@, Map::empty(), None)
                    }),
                    now,
                ),
            ),
    {
        let request = Request { method, url, headers: new_headers(), body: None, timeout };
        prepare(self.client(), self.scope().as_str(), request, now).unwrap()
    }

    /// Prepare to send a message at the time `now`.
    pub fn send_message(&self, body: &str, options: Option<SendMessageOptions>, now: i64) -> (r:
        Result<Request>)
        requires
            options matches Some(options) ==> options@.sendable(),
        ensures
            agrees(r, send_request(self@, body@, options_view(options), now)),
            sent_safely(r),
    {
        self.send_message_if_room(body, options, now).unwrap()
    }

    /// Prepare to send a message at the time `now`, or `None` where a header map has no room for its
    /// options, which happens only with more than [`CUSTOM_ROOM`] custom properties.
    pub fn send_message_if_room(
        &self,
        body: &str,
        options: Option<SendMessageOptions>,
        now: i64,
    ) -> (r: Option<Result<Request>>)
        requires
            options matches Some(options) ==> options@.written(),
        ensures
            (options matches Some(options) ==> options@.custom().len() <= CUSTOM_ROOM) ==> r is Some,
            r matches Some(made) ==> agrees(
                made,
                send_request(self@, body@, options_view(options), now),
            ) && sent_safely(made),
    {
        let options = match options {
            Some(options) => options,
            None => SendMessageOptions::new(),
        };
        let headers = match options.headers_if_room() {
            Some(Ok(headers)) => headers,
            Some(Err(e)) => return Some(Err(e)),
            None => return None,
        };
        let request = Request {
            method: Method::Post,
            url: self.messages_url(),
            headers,
            body: Some(body.to_string()),
            timeout: Span { secs: REQUEST_TIMEOUT, nanos: 0 },
        };
        prepare(self.client(), self.scope().as_str(), request, now)
    }

    /// Prepare to receive and delete the message at the head, at the time `now`.
    pub fn receive_and_delete_message(&self, now: i64) -> (r: Result<Request>)
        ensures
            agrees(r, receive_request(self@, now)),
            sent_safely(r),
    {
        self.bare_request(
            Method::Delete,
            self.head_url(),
            Span { secs: REQUEST_TIMEOUT, nanos: 0 },
            now,
        )
    }

    /// Prepare to lock the message at the head, at the time `now`.
    pub fn peek_lock_request(&self, timeout: Option<Span>, now: i64) -> (r: Result<Request>)
        ensures
            agrees(r, peek_request(self@, timeout, now)),
            sent_safely(r),
    {
        let mut url = self.head_url();
        let mut request_timeout = Span { secs: REQUEST_TIMEOUT, nanos: 0 };
        if let Some(wait) = timeout {
            // The service takes whole seconds; round up so a sub-second wait is not silently turned
            // into "return immediately".
            let secs = round_up(wait);
            url = url.with_query_pair("timeout", decimal_text(secs).as_str());
            request_timeout = timeout_for(secs);
        }
        self.bare_request(Method::Post, url, request_timeout, now)
    }
}

} // verus!
