//! Responses: which of them are errors, what a lock gives, and how it is settled.
use vstd::prelude::*;
use vstd::string::*;

use reqwest::header::{HeaderMap, HeaderValue};

use crate::encoding::{status_reason, status_text};
use crate::error::{agrees, AzureError, ErrorView, Result};
use crate::headers::{
    all_values, first_value, header_pairs, header_text, lossy_text, pair_views, utf8_lossy,
    value_text, values_of,
};
use crate::names::NameMap;
use crate::servicebus::client::safe_scheme;
use crate::servicebus::entity::{addresses_message, lock_verdict, Entity, EntityView};
use crate::servicebus::message::{BrokerProperties, Span};
use crate::servicebus::request::{
    entity_request, unsigned, Method, Request, RequestView, REQUEST_TIMEOUT,
};
use crate::text::{
    decimal, lowercase, optional, trim, trimmed, truncate_at_char_boundary, truncated,
};
use crate::uri::{url_parse, UrlParts, UrlView};

verus! {

/// Longest error-body excerpt copied into an [`AzureError`], in bytes.
pub const ERROR_BODY_LIMIT: usize = 512;

/// Whether an HTTP status means success.
pub open spec fn successful(status: u16) -> bool {
    200 <= status < 300
}

/// Whether an HTTP status means that the credentials were not accepted.
pub open spec fn unauthorized(status: u16) -> bool {
    status == 401 || status == 403
}

/// What is reported of the body of a response.
pub open spec fn excerpt(body: std::result::Result<Seq<char>, Seq<char>>) -> Seq<char> {
    let text = match body {
        Ok(text) => text,
        Err(e) => "<response body unreadable: "@ + e + ">"@,
    };
    trimmed(truncated(text, ERROR_BODY_LIMIT as nat))
}

/// How a status is shown: its code and its reason phrase.
pub open spec fn shown_status(status: u16) -> Seq<char> {
    decimal(status as nat) + " "@ + status_reason(status)
}

/// The text of the error for an unsuccessful status, given how the status is shown.
pub open spec fn shown_message(
    method: Method,
    path: Seq<char>,
    shown: Seq<char>,
    body: std::result::Result<Seq<char>, Seq<char>>,
) -> Seq<char> {
    "Service Bus "@ + method.text() + " "@ + path + " returned "@ + shown + ": "@ + excerpt(body)
}

/// The text of the error for an unsuccessful status.
pub open spec fn status_message(
    method: Method,
    path: Seq<char>,
    status: u16,
    body: std::result::Result<Seq<char>, Seq<char>>,
) -> Seq<char> {
    shown_message(method, path, shown_status(status), body)
}

/// The error for an unsuccessful status, given its text: one of authentication where the
/// credentials were not accepted.
pub open spec fn error_for(status: u16, message: Seq<char>) -> ErrorView {
    if unauthorized(status) {
        ErrorView::Auth(message)
    } else {
        ErrorView::Http { status, message }
    }
}

/// Whether a response is accepted, and the error where it is not.
pub open spec fn status_verdict(
    method: Method,
    path: Seq<char>,
    status: u16,
    body: std::result::Result<Seq<char>, Seq<char>>,
) -> std::result::Result<(), ErrorView> {
    if successful(status) {
        Ok(())
    } else {
        Err(error_for(status, status_message(method, path, status, body)))
    }
}

/// The outcome of reading a text, as characters.
pub open spec fn text_view(r: std::result::Result<String, String>) -> std::result::Result<
    Seq<char>,
    Seq<char>,
> {
    match r {
        Ok(text) => Ok(text@),
        Err(e) => Err(e@),
    }
}

/// The outcome of reading the body of a response.
pub open spec fn body_verdict(body: std::result::Result<Seq<char>, Seq<char>>) ->
    std::result::Result<Seq<char>, ErrorView> {
    match body {
        Ok(text) => Ok(text),
        Err(e) => Err(ErrorView::Network("failed to read Service Bus response: "@ + e)),
    }
}

/// The error for a request that got no response.
pub fn transport_error(method: Method, path: &str, e: &str) -> (r: AzureError)
    ensures
        r@ == ErrorView::Network(
            "Service Bus "@ + method.text() + " "@ + path@ + " failed: "@ + e@,
        ),
{
    AzureError::Network(
        "Service Bus ".to_string().concat(method.as_str()).concat(" ").concat(path).concat(
            " failed: ",
        ).concat(e),
    )
}

/// Whether an HTTP status means success.
pub fn is_success(status: u16) -> (r: bool)
    ensures
        r == successful(status),
{
    200 <= status && status < 300
}

/// The error for an unsuccessful status, given how the status is shown. The body is that of the
/// response, or the text of the error that came up when it was read.
pub fn status_error(
    method: Method,
    path: &str,
    status: u16,
    shown: &str,
    body: std::result::Result<String, String>,
) -> (r: AzureError)
    ensures
        r@ == error_for(status, shown_message(method, path@, shown@, text_view(body))),
{
    let mut text = match body {
        Ok(text) => text,
        Err(e) => "<response body unreadable: ".to_string().concat(e.as_str()).concat(">"),
    };
    truncate_at_char_boundary(&mut text, ERROR_BODY_LIMIT);
    let message = "Service Bus ".to_string().concat(method.as_str()).concat(" ").concat(
        path,
    ).concat(" returned ").concat(shown).concat(": ").concat(trim(text.as_str()));
    if status == 401 || status == 403 {
        AzureError::Auth(message)
    } else {
        AzureError::Http { status, message }
    }
}

/// Accept a response by its status. The body is that of the response, or the text of the error that
/// came up when it was read; it matters for an unsuccessful status only.
pub fn check_status(
    method: Method,
    path: &str,
    status: u16,
    body: std::result::Result<String, String>,
) -> (r: Result<()>)
    requires
        100 <= status <= 999,
    ensures
        agrees(r, status_verdict(method, path@, status, text_view(body))),
{
    if is_success(status) {
        return Ok(());
    }
    Err(status_error(method, path, status, status_text(status).as_str(), body))
}

/// The body of a response, or the error for one that could not be read.
pub fn read_body(body: std::result::Result<String, String>) -> (r: Result<String>)
    ensures
        agrees(r, body_verdict(text_view(body))),
{
    match body {
        Ok(text) => Ok(text),
        Err(e) => Err(
            AzureError::Network(
                "failed to read Service Bus response: ".to_string().concat(e.as_str()),
            ),
        ),
    }
}

/// Response headers as texts: the last value of each name, what is not UTF-8 replaced.
pub open spec fn header_texts(headers: HeaderMap<HeaderValue>) -> Map<Seq<char>, Seq<char>> {
    Map::new(
        |name: Seq<char>| all_values(headers, name).len() > 0,
        |name: Seq<char>| utf8_lossy(all_values(headers, name).last()),
    )
}

/// The texts in a map, as characters.
pub open spec fn texts_in(map: Map<Seq<char>, String>) -> Map<Seq<char>, Seq<char>> {
    map.map_values(|text: String| text@)
}

/// Whether every name is in lower case.
pub open spec fn lower_case_keys(map: Map<Seq<char>, String>) -> bool {
    forall|name: Seq<char>| #[trigger] map.contains_key(name) ==> lowercase(name) == name
}

/// The texts of the last value of each name among pairs.
spec fn pair_texts(pairs: Seq<(Seq<char>, Seq<u8>)>) -> Map<Seq<char>, Seq<char>> {
    Map::new(
        |name: Seq<char>| values_of(pairs, name).len() > 0,
        |name: Seq<char>| utf8_lossy(values_of(pairs, name).last()),
    )
}

/// Response headers as texts, by lower-case name.
pub fn collect_headers(headers: &HeaderMap<HeaderValue>) -> (r: NameMap<String>)
    ensures
        texts_in(r@) == header_texts(*headers),
        lower_case_keys(r@),
{
    let pairs = header_pairs(headers);
    let ghost all = pair_views(pairs@);
    let mut texts: NameMap<String> = NameMap::new();
    let mut i: usize = 0;
    assert(texts_in(texts@) =~= pair_texts(all.take(0)));
    while i < pairs.len()
        invariant
            i <= pairs.len(),
            all == pair_views(pairs@),
            texts_in(texts@) == pair_texts(all.take(i as int)),
            lower_case_keys(texts@),
            forall|j: int|
                0 <= j < pairs@.len() ==> lowercase((#[trigger] pairs@[j]).0@) == pairs@[j].0@,
        decreases pairs.len() - i,
    {
        let pair = &pairs[i];
        let text = lossy_text(&pair.1);
        let ghost before = texts_in(texts@);
        texts = texts.with(pair.0.as_str(), text);
        proof {
            assert(all[i as int] == (pair.0@, pair.1@));
            assert(all.take(i + 1).drop_last() =~= all.take(i as int));
            assert(all.take(i + 1).last() == (pair.0@, pair.1@));
            assert(texts_in(texts@) =~= before.insert(pair.0@, utf8_lossy(pair.1@)));
            assert(texts_in(texts@) =~= pair_texts(all.take(i + 1)));
        }
        i += 1;
    }
    assert(all.take(i as int) =~= all);
    assert(texts_in(texts@) =~= header_texts(*headers));
    texts
}

/// What the head of a peek-lock response says, before its broker properties and body are read.
pub struct LockHead {
    status: u16,
    lock_location: Option<UrlParts>,
    broker_text: Option<String>,
    headers: NameMap<String>,
    entity: Entity,
}

/// A [`LockHead`], with its texts as characters.
pub struct LockHeadView {
    pub status: u16,
    pub lock_location: Option<UrlView>,
    pub broker_text: Option<Seq<char>>,
    pub headers: Map<Seq<char>, Seq<char>>,
    pub entity: EntityView,
}

/// The components of a URL that may be missing, as characters.
pub open spec fn optional_url(url: Option<UrlParts>) -> Option<UrlView> {
    match url {
        Some(url) => Some(url@),
        None => None,
    }
}

impl View for LockHead {
    type V = LockHeadView;

    closed spec fn view(&self) -> LockHeadView {
        LockHeadView {
            status: self.status,
            lock_location: optional_url(self.lock_location),
            broker_text: optional(self.broker_text),
            headers: texts_in(self.headers@),
            entity: self.entity@,
        }
    }
}

/// The lock location that the first value of the `Location` header gives, if there is one.
pub open spec fn location_in(root: UrlView, values: Seq<Seq<u8>>) -> std::result::Result<
    Option<UrlView>,
    ErrorView,
> {
    if values.len() == 0 {
        Ok(None)
    } else {
        match value_text(values[0]) {
            None => Err(ErrorView::Service("Service Bus lock location is not valid UTF-8"@)),
            Some(location) => match lock_verdict(root, url_parse(location)) {
                Ok(url) => Ok(Some(url)),
                Err(e) => Err(e),
            },
        }
    }
}

/// The text of the first value of the `BrokerProperties` header, if there is one.
pub open spec fn broker_text_in(values: Seq<Seq<u8>>) -> std::result::Result<
    Option<Seq<char>>,
    ErrorView,
> {
    if values.len() == 0 {
        Ok(None)
    } else {
        match value_text(values[0]) {
            None => Err(ErrorView::Service("BrokerProperties header is not valid UTF-8"@)),
            Some(text) => Ok(Some(text)),
        }
    }
}

/// The outcome of reading the head of a peek-lock response.
pub open spec fn lock_head(
    entity: EntityView,
    status: u16,
    headers: HeaderMap<HeaderValue>,
) -> std::result::Result<LockHeadView, ErrorView> {
    match location_in(entity.root(), all_values(headers, "location"@)) {
        Err(e) => Err(e),
        Ok(lock_location) => match broker_text_in(all_values(headers, "brokerproperties"@)) {
            Err(e) => Err(e),
            Ok(broker_text) => Ok(
                LockHeadView {
                    status,
                    lock_location,
                    broker_text,
                    headers: header_texts(headers),
                    entity,
                },
            ),
        },
    }
}

/// A message locked by a peek-lock request, with the operations that settle it.
pub struct PeekLockResponse {
    body: String,
    headers: NameMap<String>,
    broker_properties: Option<BrokerProperties>,
    lock_location: Option<UrlParts>,
    status: u16,
    entity: Entity,
}

/// A [`PeekLockResponse`], with its texts as characters.
pub struct PeekLockView {
    pub body: Seq<char>,
    pub headers: Map<Seq<char>, Seq<char>>,
    pub broker_properties: Option<BrokerProperties>,
    pub lock_location: Option<UrlView>,
    pub status: u16,
    pub entity: EntityView,
}

impl View for PeekLockResponse {
    type V = PeekLockView;

    closed spec fn view(&self) -> PeekLockView {
        PeekLockView {
            body: self.body@,
            headers: texts_in(self.headers@),
            broker_properties: self.broker_properties,
            lock_location: optional_url(self.lock_location),
            status: self.status,
            entity: self.entity@,
        }
    }
}

/// The outcome of a peek-lock, given its head, what its broker properties were read as, and its
/// body.
pub open spec fn lock_outcome(
    head: LockHeadView,
    broker_properties: Option<std::result::Result<BrokerProperties, String>>,
    body: std::result::Result<Seq<char>, Seq<char>>,
) -> std::result::Result<PeekLockView, ErrorView> {
    match broker_properties {
        Some(Err(e)) => Err(ErrorView::Serialization("invalid BrokerProperties header: "@ + e@)),
        _ => match body_verdict(body) {
            Err(e) => Err(e),
            Ok(body) => Ok(
                PeekLockView {
                    body,
                    headers: head.headers,
                    broker_properties: match broker_properties {
                        Some(Ok(properties)) => Some(properties),
                        _ => None,
                    },
                    lock_location: head.lock_location,
                    status: head.status,
                    entity: head.entity,
                },
            ),
        },
    }
}

/// Where the request that settles a message goes.
pub open spec fn lock_url_of(locked: PeekLockView) -> std::result::Result<UrlView, ErrorView> {
    match locked.lock_location {
        Some(url) => Ok(url),
        None => Err(ErrorView::Service("no Service Bus message is locked"@)),
    }
}

/// The outcome of preparing to settle a locked message.
pub open spec fn settle_request(locked: PeekLockView, method: Method, now: i64) ->
    std::result::Result<RequestView, ErrorView> {
    match lock_url_of(locked) {
        Err(e) => Err(e),
        Ok(url) => entity_request(locked.entity, unsigned(method, url, Map::empty(), None), now),
    }
}

/// Whether a settle request, if there is one, goes to a message of the entity that the message was
/// received from, at the entity's own origin, and that origin is safe.
pub open spec fn settles(locked: PeekLockView, r: Result<Request>) -> bool {
    r matches Ok(request) ==> addresses_message(locked.entity.root(), request@.url) && safe_scheme(
        locked.entity.root(),
    )
}

impl Entity {
    /// The lock location in the `Location` header, if there is one.
    fn location(&self, headers: &HeaderMap<HeaderValue>) -> (r: Result<Option<UrlParts>>)
        ensures
            match location_in(self@.root(), all_values(*headers, "location"@)) {
                Ok(url) => r matches Ok(found) && optional_url(found) == url,
                Err(e) => r matches Err(f) && f@ == e,
            },
            r matches Ok(Some(_)) ==> safe_scheme(self@.root()),
    {
        proof {
            reveal_strlit("location");
            assert(lowercase("location"@) =~= "location"@);
        }
        match first_value(headers, "location") {
            None => Ok(None),
            Some(value) => match header_text(&value) {
                None => Err(
                    AzureError::Service("Service Bus lock location is not valid UTF-8".to_string()),
                ),
                Some(location) => match self.lock_location(location.as_str()) {
                    Ok(url) => Ok(Some(url)),
                    Err(e) => Err(e),
                },
            },
        }
    }

    /// Read the head of the response to a peek-lock request.
    pub fn peek_lock_response(&self, status: u16, headers: &HeaderMap<HeaderValue>) -> (r: Result<
        LockHead,
    >)
        ensures
            agrees(r, lock_head(self@, status, *headers)),
    {
        let lock_location = match self.location(headers) {
            Ok(location) => location,
            Err(e) => return Err(e),
        };
        proof {
            reveal_strlit("brokerproperties");
            assert(lowercase("brokerproperties"@) =~= "brokerproperties"@);
        }
        let broker_text = match first_value(headers, "brokerproperties") {
            None => None,
            Some(value) => match header_text(&value) {
                None => return Err(
                    AzureError::Service("BrokerProperties header is not valid UTF-8".to_string()),
                ),
                Some(text) => Some(text),
            },
        };
        Ok(
            LockHead {
                status,
                lock_location,
                broker_text,
                headers: collect_headers(headers),
                entity: self.clone(),
            },
        )
    }
}

impl LockHead {
    #[verifier::type_invariant]
    spec fn guarded(self) -> bool {
        &&& self@.lock_location matches Some(url) ==> addresses_message(self@.entity.root(), url)
            && safe_scheme(self@.entity.root())
        &&& lower_case_keys(self.headers@)
    }

    /// The text of the `BrokerProperties` header, if there is one.
    pub fn broker_text(&self) -> (r: Option<&str>)
        ensures
            r is Some <==> self@.broker_text is Some,
            r matches Some(text) ==> self@.broker_text == Some(text@),
    {
        match &self.broker_text {
            Some(text) => Some(text.as_str()),
            None => None,
        }
    }

    /// The outcome of the peek-lock, once the broker properties have been read from
    /// [`LockHead::broker_text`] and the body has been read.
    pub fn finish(
        self,
        broker_properties: Option<std::result::Result<BrokerProperties, String>>,
        body: std::result::Result<String, String>,
    ) -> (r: Result<PeekLockResponse>)
        requires
            broker_properties is Some <==> self@.broker_text is Some,
        ensures
            agrees(r, lock_outcome(self@, broker_properties, text_view(body))),
    {
        proof {
            use_type_invariant(&self);
        }
        let broker_properties = match broker_properties {
            Some(Ok(properties)) => Some(properties),
            Some(Err(e)) => return Err(
                AzureError::Serialization(
                    "invalid BrokerProperties header: ".to_string().concat(e.as_str()),
                ),
            ),
            None => None,
        };
        let body = match read_body(body) {
            Ok(body) => body,
            Err(e) => return Err(e),
        };
        Ok(
            PeekLockResponse {
                body,
                headers: self.headers,
                broker_properties,
                lock_location: self.lock_location,
                status: self.status,
                entity: self.entity,
            },
        )
    }
}

impl PeekLockResponse {
    #[verifier::type_invariant]
    spec fn guarded(self) -> bool {
        &&& self@.lock_location matches Some(url) ==> addresses_message(self@.entity.root(), url)
            && safe_scheme(self@.entity.root())
        &&& lower_case_keys(self.headers@)
    }

    /// The message body (empty when no message arrived before the timeout).
    pub fn body(&self) -> (r: &str)
        ensures
            r@ == self@.body,
    {
        self.body.as_str()
    }

    /// The broker properties of the locked message, if a message was locked.
    pub fn broker_properties(&self) -> (r: Option<&BrokerProperties>)
        ensures
            r == (match self@.broker_properties {
                Some(properties) => Some(&properties),
                None => None,
            }),
    {
        match &self.broker_properties {
            Some(properties) => Some(properties),
            None => None,
        }
    }

    /// Response headers, keyed by lower-case name. Custom message properties arrive as headers;
    /// values that are not valid UTF-8 are converted lossily.
    pub fn headers(&self) -> (r: &NameMap<String>)
        ensures
            texts_in(r@) == self@.headers,
            lower_case_keys(r@),
    {
        proof {
            use_type_invariant(self);
        }
        &self.headers
    }

    /// The HTTP status of the receive (`201` with a message, `204` without).
    pub fn status(&self) -> (r: u16)
        ensures
            r == self@.status,
    {
        self.status
    }

    /// Whether a message was locked.
    pub fn has_message(&self) -> (r: bool)
        ensures
            r == self@.lock_location is Some,
    {
        self.lock_location.is_some()
    }

    /// Where the request that settles the message goes: below the messages of the entity that it
    /// was received from.
    pub fn lock_url(&self) -> (r: Result<UrlParts>)
        ensures
            agrees(r, lock_url_of(self@)),
            r matches Ok(url) ==> addresses_message(self@.entity.root(), url@) && safe_scheme(
                self@.entity.root(),
            ),
    {
        proof {
            use_type_invariant(self);
        }
        match &self.lock_location {
            Some(url) => Ok(url.clone()),
            None => Err(AzureError::Service("no Service Bus message is locked".to_string())),
        }
    }

    /// Prepare to settle the message at the time `now`.
    fn settle(&self, method: Method, now: i64) -> (r: Result<Request>)
        ensures
            agrees(r, settle_request(self@, method, now)),
            settles(self@, r),
    {
        let url = match self.lock_url() {
            Ok(url) => url,
            Err(e) => return Err(e),
        };
        self.entity.bare_request(method, url, Span { secs: REQUEST_TIMEOUT, nanos: 0 }, now)
    }

    /// Prepare to complete (delete) the locked message at the time `now`.
    pub fn delete_message(&self, now: i64) -> (r: Result<Request>)
        ensures
            agrees(r, settle_request(self@, Method::Delete, now)),
            settles(self@, r),
    {
        self.settle(Method::Delete, now)
    }

    /// Prepare to abandon the lock at the time `now`, so the message becomes available again.
    pub fn unlock_message(&self, now: i64) -> (r: Result<Request>)
        ensures
            agrees(r, settle_request(self@, Method::Put, now)),
            settles(self@, r),
    {
        self.settle(Method::Put, now)
    }

    /// Prepare to renew the lock on the message at the time `now`.
    pub fn renew_message_lock(&self, now: i64) -> (r: Result<Request>)
        ensures
            agrees(r, settle_request(self@, Method::Post, now)),
            settles(self@, r),
    {
        self.settle(Method::Post, now)
    }
}

} // verus!
