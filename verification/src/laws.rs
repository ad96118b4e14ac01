//! What holds of the library as a whole: laws that relate several of its operations.
//!
//! Those on connection strings and endpoints stand in [`connection`], on configuration and the
//! container of clients in [`container`], on queues, topics and subscriptions in [`entities`], on what
//! is sent in [`messages`] and [`requests`], on what comes back in [`responses`], on the outcomes of
//! calls in [`outcomes`] and on text in [`text`].
use vstd::prelude::*;
use vstd::utf8::*;

use reqwest::header::{HeaderMap, HeaderValue};

use crate::error::{retryable, retryable_status, status_of, ErrorView};
use crate::headers::{all_values, valid_name, valid_value};
use crate::servicebus::client::{
    authorization_for, client_fields, expiry_at, plain_url, redirected, safe_scheme, token_for,
    ClientView,
};
use crate::servicebus::entity::{
    addresses_message, entity_of, lock_verdict, messages_path, subscription_of, well_named,
    EntityView,
};
use crate::servicebus::message::{
    broker_json, fixed_headers, message_headers, no_options, with_custom, with_property,
    BrokerProperties, Contents, OptionsView, Span,
};
use crate::servicebus::request::{
    peek_request, receive_request, send_request, waiting_timeout, whole_seconds, Method,
    REQUEST_TIMEOUT, RequestView,
};
use crate::servicebus::response::{
    lock_head, lock_outcome, settle_request, status_message, status_verdict, successful,
    unauthorized, PeekLockView,
};
use crate::text::{
    after_first, before_first, has_prefix, lemma_position, pieces, position, truncated,
    without_trailing_slashes,
};
use crate::uri::{
    dots, dropped, kept, path_with, segment_encoded, segment_escaped, segment_text, url_parse,
    without_last_slash, UrlView,
};

pub mod connection;
pub mod container;
pub mod entities;
pub mod messages;
pub mod outcomes;
pub mod requests;
pub mod responses;
pub mod text;

verus! {

/// Every request to an entity goes to the origin of the configured endpoint: its scheme, host and
/// port.
pub proof fn requests_go_to_the_endpoint(
    entity: EntityView,
    body: Seq<char>,
    options: Option<OptionsView>,
    wait: Option<Span>,
    now: i64,
)
    ensures
        url_parse(entity.client.endpoint) matches Ok(base) ==> {
            &&& send_request(entity, body, options, now) matches Ok(r) ==> r.url.same_origin(base)
            &&& receive_request(entity, now) matches Ok(r) ==> r.url.same_origin(base)
            &&& peek_request(entity, wait, now) matches Ok(r) ==> r.url.same_origin(base)
        },
{
}

/// Whatever lock location the service names, a request that settles the message goes to the origin
/// of the endpoint and to a path below the messages of the entity.
pub proof fn settling_stays_with_the_entity(
    entity: EntityView,
    status: u16,
    headers: HeaderMap<HeaderValue>,
    broker_properties: Option<std::result::Result<BrokerProperties, String>>,
    body: std::result::Result<Seq<char>, Seq<char>>,
    method: Method,
    now: i64,
)
    ensures
        lock_head(entity, status, headers) matches Ok(head) ==> (lock_outcome(
            head,
            broker_properties,
            body,
        ) matches Ok(locked) ==> (settle_request(locked, method, now) matches Ok(r) ==> {
            &&& addresses_message(entity.root(), r.url)
            &&& has_prefix(r.url.path, messages_path(entity.root()))
            &&& url_parse(entity.client.endpoint) matches Ok(base) ==> r.url.same_origin(base)
        })),
{
}

/// Whether a request carries the token of its entity, as its only authorization, and keeps it out
/// of debug output.
pub open spec fn signed_for(entity: EntityView, request: RequestView, now: i64) -> bool {
    &&& expiry_at(now) matches Some(expiry) && request.headers.contains_key("authorization"@)
        && request.headers["authorization"@] == seq![
        encode_utf8(
            token_for(
                entity.scope(),
                entity.client.policy_name,
                entity.client.shared_access_key,
                expiry,
            ),
        ),
    ]
    &&& request.sensitive == set!["authorization"@]
}

/// Every request to an entity is signed for that entity and for no other, and no option of a
/// message can replace the signature.
pub proof fn requests_are_signed(
    entity: EntityView,
    body: Seq<char>,
    options: Option<OptionsView>,
    wait: Option<Span>,
    now: i64,
)
    ensures
        send_request(entity, body, options, now) matches Ok(r) ==> signed_for(entity, r, now),
        receive_request(entity, now) matches Ok(r) ==> signed_for(entity, r, now),
        peek_request(entity, wait, now) matches Ok(r) ==> signed_for(entity, r, now),
{
    reveal_strlit("authorization");
    reveal_strlit("content-length");
    assert("authorization"@.len() != "content-length"@.len());
}

/// A request that settles a message is signed for the entity that the message was received from.
pub proof fn settling_is_signed(locked: PeekLockView, method: Method, now: i64)
    ensures
        settle_request(locked, method, now) matches Ok(r) ==> signed_for(locked.entity, r, now),
{
    reveal_strlit("authorization");
    reveal_strlit("content-length");
    assert("authorization"@.len() != "content-length"@.len());
}

/// A message that was not locked cannot be settled, whatever the method and the time.
pub proof fn nothing_locked_nothing_settled(locked: PeekLockView, method: Method, now: i64)
    requires
        locked.lock_location is None,
    ensures
        settle_request(locked, method, now) == Err::<RequestView, ErrorView>(
            ErrorView::Service("no Service Bus message is locked"@),
        ),
{
}

/// A token can be made exactly when the time an hour from now is one after the UNIX epoch, and it
/// expires then.
pub proof fn signing_needs_a_clock(client: ClientView, scope: Seq<char>, now: i64)
    ensures
        authorization_for(client, scope, now) is Ok <==> 0 <= now + 3600 <= i64::MAX,
        authorization_for(client, scope, now) matches Ok(token) ==> token == token_for(
            scope,
            client.policy_name,
            client.shared_access_key,
            (now + 3600) as u64,
        ),
{
}

/// A message without options can be sent, and a message can be received or locked, whenever the
/// clock allows a signature.
pub proof fn requests_need_only_a_clock(
    entity: EntityView,
    body: Seq<char>,
    wait: Option<Span>,
    now: i64,
)
    ensures
        send_request(entity, body, None, now) is Ok <==> expiry_at(now) is Some,
        receive_request(entity, now) is Ok <==> expiry_at(now) is Some,
        peek_request(entity, wait, now) is Ok <==> expiry_at(now) is Some,
{
    assert(no_options().custom() =~= seq![]);
}

/// Whether HTTP allows every name and value among custom properties.
pub open spec fn allowed(custom: Seq<(Seq<char>, Seq<char>)>) -> bool {
    forall|i: int|
        0 <= i < custom.len() ==> valid_name((#[trigger] custom[i]).0) && valid_value(custom[i].1)
}

proof fn lemma_allowed(headers: Contents, custom: Seq<(Seq<char>, Seq<char>)>)
    ensures
        with_custom(headers, custom) is Ok <==> allowed(custom),
    decreases custom.len(),
{
    if custom.len() > 0 {
        let start = custom.drop_last();
        lemma_allowed(headers, start);
        if allowed(custom) {
            assert forall|i: int| 0 <= i < start.len() implies valid_name((#[trigger] start[i]).0)
                && valid_value(start[i].1) by {
                assert(start[i] == custom[i]);
            }
        }
        if allowed(start) && valid_name(custom.last().0) && valid_value(custom.last().1) {
            assert forall|i: int| 0 <= i < custom.len() implies valid_name((#[trigger] custom[i]).0)
                && valid_value(custom[i].1) by {
                if i < start.len() {
                    assert(custom[i] == start[i]);
                }
            }
        }
        if allowed(custom) {
            assert(valid_name(custom[custom.len() - 1].0));
        }
    }
}

/// Options can be sent exactly when HTTP allows the content type, the broker properties and every
/// custom property.
pub proof fn options_are_sent_if_allowed(options: OptionsView)
    ensures
        message_headers(options) is Ok <==> {
            &&& options.content_type matches Some(content_type) ==> valid_value(content_type)
            &&& options.broker_properties matches Some(properties) ==> valid_value(
                broker_json(properties),
            )
            &&& allowed(options.custom())
        },
        message_headers(options) matches Err(e) ==> e is Config,
{
    if let Ok(headers) = fixed_headers(options) {
        lemma_allowed(headers, options.custom());
        lemma_custom_errors(headers, options.custom());
    }
}

proof fn lemma_custom_errors(headers: Contents, custom: Seq<(Seq<char>, Seq<char>)>)
    ensures
        with_custom(headers, custom) matches Err(e) ==> e is Config,
    decreases custom.len(),
{
    if custom.len() > 0 {
        lemma_custom_errors(headers, custom.drop_last());
    }
}

/// Whether a segment stands in a URL as it is: it holds ASCII characters that are not escaped, and
/// is neither empty nor one of the dots.
pub open spec fn literal_segment(segment: Seq<char>) -> bool {
    &&& segment.len() > 0
    &&& !dots(segment)
    &&& is_ascii_chars(segment)
    &&& forall|i: int| 0 <= i < segment.len() ==> !segment_escaped(#[trigger] segment[i] as u8)
}

/// Segments, each behind a slash.
pub open spec fn slashed(segments: Seq<Seq<char>>) -> Seq<char>
    decreases segments.len(),
{
    if segments.len() == 0 {
        seq![]
    } else {
        slashed(segments.drop_last()) + "/"@ + segments.last()
    }
}

proof fn lemma_literal(bytes: Seq<u8>)
    requires
        forall|i: int|
            0 <= i < bytes.len() ==> (#[trigger] bytes[i]) < 0x80 && !segment_escaped(bytes[i]),
    ensures
        segment_encoded(bytes) == Seq::new(bytes.len(), |i: int| bytes[i] as char),
    decreases bytes.len(),
{
    if bytes.len() > 0 {
        lemma_literal(bytes.drop_last());
    }
    assert(segment_encoded(bytes) =~= Seq::new(bytes.len(), |i: int| bytes[i] as char));
}

/// A segment without dropped characters is kept whole.
pub(crate) proof fn lemma_kept(segment: Seq<char>)
    requires
        forall|i: int| 0 <= i < segment.len() ==> !dropped(#[trigger] segment[i]),
    ensures
        kept(segment) == segment,
    decreases segment.len(),
{
    reveal(Seq::filter);
    if segment.len() > 0 {
        let start = segment.drop_last();
        assert forall|i: int| 0 <= i < start.len() implies !dropped(#[trigger] start[i]) by {
            assert(start[i] == segment[i]);
        }
        lemma_kept(start);
        assert(!dropped(segment[segment.len() - 1]));
        assert(segment =~= start.push(segment.last()));
    }
}

/// A literal segment is encoded as it is.
proof fn lemma_literal_segment(segment: Seq<char>)
    requires
        literal_segment(segment),
    ensures
        segment_encoded(encode_utf8(segment_text(segment))) == segment,
{
    assert forall|i: int| 0 <= i < segment.len() implies !dropped(#[trigger] segment[i]) by {
        assert(!segment_escaped(segment[i] as u8));
    }
    lemma_kept(segment);
    let bytes = encode_utf8(segment);
    is_ascii_chars_encode_utf8(segment);
    assert forall|i: int| 0 <= i < bytes.len() implies (#[trigger] bytes[i]) < 0x80
        && !segment_escaped(bytes[i]) by {
        assert(bytes[i] == segment[i] as u8);
    }
    lemma_literal(bytes);
    assert(segment_encoded(bytes) =~= segment);
}

/// Segments of letters, digits and other characters that need no escape stand in the path as they
/// are, each behind a slash, below the path of the endpoint.
pub proof fn plain_names_stand_in_the_path(path: Seq<char>, segments: Seq<Seq<char>>)
    requires
        path.len() > 0,
        path[0] == '/',
        segments.len() > 0,
        forall|i: int| 0 <= i < segments.len() ==> literal_segment(#[trigger] segments[i]),
    ensures
        path_with(path, segments) == (if without_last_slash(path).len() == 1 {
            seq![]
        } else {
            without_last_slash(path)
        }) + slashed(segments),
    decreases segments.len(),
{
    reveal_strlit("/");
    let base = without_last_slash(path);
    let start = segments.drop_last();
    lemma_literal_segment(segments.last());
    assert(literal_segment(segments[segments.len() - 1]));
    if segments.len() == 1 {
        assert(path_with(path, start) == base);
        assert(slashed(start) =~= seq![]);
        assert(slashed(segments) =~= "/"@ + segments.last());
        if base.len() == 1 {
            assert(base =~= "/"@);
        }
    } else {
        plain_names_stand_in_the_path(path, start);
        assert(slashed(start).len() >= 2) by {
            assert(start.last() == segments[segments.len() - 2]);
            assert(literal_segment(start.last()));
        }
    }
    assert(path_with(path, segments) =~= (if base.len() == 1 {
        seq![]
    } else {
        base
    }) + slashed(segments));
}

proof fn lemma_messages_literal()
    ensures
        literal_segment("messages"@),
{
    reveal_strlit("messages");
    reveal_strlit(".");
    reveal_strlit("..");
    let word = "messages"@;
    assert(word.len() == 8);
    assert forall|i: int| 0 <= i < word.len() implies 'a' <= #[trigger] word[i] <= 'z' by {}
    assert forall|i: int| 0 <= i < word.len() implies !segment_escaped(#[trigger] word[i] as u8) by {
        assert('a' <= word[i] <= 'z');
    }
    assert(is_ascii_chars(word));
}

/// The messages of an entity with a plain name lie directly below the entity, and so below what its
/// lock locations have to start with.
pub proof fn messages_lie_below_the_entity(path: Seq<char>, segments: Seq<Seq<char>>)
    requires
        path.len() > 0,
        path[0] == '/',
        segments.len() > 0,
        forall|i: int| 0 <= i < segments.len() ==> literal_segment(#[trigger] segments[i]),
    ensures
        path_with(path, segments.push("messages"@)) == path_with(path, segments) + "/messages"@,
        without_trailing_slashes(path_with(path, segments)) == path_with(path, segments),
{
    reveal_strlit("/");
    reveal_strlit("messages");
    reveal_strlit("/messages");
    let more = segments.push("messages"@);
    lemma_messages_literal();
    assert forall|i: int| 0 <= i < more.len() implies literal_segment(#[trigger] more[i]) by {
        if i < segments.len() {
            assert(more[i] == segments[i]);
        }
    }
    plain_names_stand_in_the_path(path, segments);
    plain_names_stand_in_the_path(path, more);
    assert(more.drop_last() =~= segments);
    assert(path_with(path, more) =~= path_with(path, segments) + "/messages"@);
    let last = segments.last();
    assert(last == segments[segments.len() - 1]);
    let whole = path_with(path, segments);
    assert(whole.last() == last.last());
    assert(!segment_escaped(last[last.len() - 1] as u8));
    assert('/' as u8 == 0x2f);
}

/// A lock location below the messages of the entity, at its origin and without a fragment, is
/// accepted, whatever message and lock it names.
pub proof fn own_lock_locations_are_accepted(root: UrlView, url: UrlView, rest: Seq<char>)
    requires
        url.same_origin(root),
        url.path == messages_path(root) + rest,
        url.fragment is None,
    ensures
        lock_verdict(root, Ok(url)) == Ok::<UrlView, ErrorView>(url),
{
    assert(url.path.take(messages_path(root).len() as int) =~= messages_path(root));
}

/// An endpoint is taken if and only if it is a plain URL with a safe scheme, and nothing else of
/// the client changes.
pub proof fn endpoints_are_safe(client: ClientView, endpoint: Seq<char>)
    ensures
        redirected(client, endpoint) is Ok <==> (url_parse(
            without_trailing_slashes(endpoint),
        ) matches Ok(url) && safe_scheme(url) && plain_url(url)),
        redirected(client, endpoint) matches Ok(after) ==> {
            &&& after.endpoint == without_trailing_slashes(endpoint)
            &&& after.namespace == client.namespace
            &&& after.policy_name == client.policy_name
            &&& after.shared_access_key == client.shared_access_key
        },
        redirected(client, endpoint) matches Err(e) ==> e is Config,
{
}

/// Debug output of a client does not depend on its key.
pub proof fn debug_output_hides_the_key(a: ClientView, b: ClientView)
    requires
        a.namespace == b.namespace,
        a.policy_name == b.policy_name,
        a.endpoint == b.endpoint,
    ensures
        client_fields(a) == client_fields(b),
{
}

/// Whether two slashes stand at position `i`, one behind the other.
pub open spec fn double_slash_at(name: Seq<char>, i: int) -> bool {
    0 <= i && i + 1 < name.len() && name[i] == '/' && name[i + 1] == '/'
}

/// A name may be used exactly when it is not empty, neither starts nor ends with a slash, and holds
/// no two slashes one behind the other.
pub proof fn names_have_no_empty_segment(name: Seq<char>)
    ensures
        well_named(name) <==> {
            &&& name.len() > 0
            &&& name[0] != '/'
            &&& name.last() != '/'
            &&& forall|i: int| !#[trigger] double_slash_at(name, i)
        },
    decreases name.len(),
{
    lemma_position(name, '/');
    let all = pieces(name, '/');
    if name.contains('/') {
        let k = position(name, '/');
        let first = before_first(name, '/');
        let rest = after_first(name, '/');
        names_have_no_empty_segment(rest);
        let others = pieces(rest, '/');
        assert(all == seq![first] + others);
        assert(well_named(name) <==> first.len() > 0 && well_named(rest)) by {
            if well_named(name) {
                assert(all[0] == first);
                assert forall|i: int| 0 <= i < others.len() implies (#[trigger] others[i]).len()
                    > 0 by {
                    assert(all[i + 1] == others[i]);
                }
            }
            if first.len() > 0 && well_named(rest) {
                assert forall|i: int| 0 <= i < all.len() implies (#[trigger] all[i]).len() > 0 by {
                    if i > 0 {
                        assert(all[i] == others[i - 1]);
                    }
                }
            }
        }
        assert forall|i: int| 0 <= i implies double_slash_at(rest, i) == #[trigger] double_slash_at(
            name,
            i + k + 1,
        ) by {}
        assert(rest.len() > 0 && rest[0] == '/' <==> double_slash_at(name, k));
        if rest.len() > 0 && rest[0] != '/' && (forall|i: int| !double_slash_at(rest, i)) {
            assert forall|i: int| !#[trigger] double_slash_at(name, i) by {
                if double_slash_at(name, i) && i > k {
                    assert(double_slash_at(rest, i - k - 1));
                }
            }
        }
        if forall|i: int| !double_slash_at(name, i) {
            assert forall|i: int| !#[trigger] double_slash_at(rest, i) by {
                if double_slash_at(rest, i) {
                    assert(double_slash_at(name, i + k + 1));
                }
            }
        }
    } else {
        assert(all == seq![name]);
        assert(well_named(name) <==> name.len() > 0) by {
            assert(all[0] == name);
        }
        if name.len() > 0 {
            assert(name[name.len() - 1] != '/');
        }
    }
}

/// The nanoseconds in a length of time.
pub open spec fn nanoseconds(wait: Span) -> int {
    wait.secs * 1_000_000_000 + wait.nanos
}

/// The wait that a peek-lock request asks for is the one given, rounded up to whole seconds: less
/// than a second longer, and never shorter but for the longest wait, which is cut to whole seconds.
/// It is nothing only where nothing was given. The time allowed for the request is at least that
/// wait.
pub proof fn waits_round_up(wait: Span)
    requires
        wait.normal(),
    ensures
        wait.secs < u64::MAX || wait.nanos == 0 ==> nanoseconds(wait) <= whole_seconds(wait)
            * 1_000_000_000 < nanoseconds(wait) + 1_000_000_000,
        wait.secs == u64::MAX ==> whole_seconds(wait) == u64::MAX,
        whole_seconds(wait) == 0 <==> wait.secs == 0 && wait.nanos == 0,
        whole_seconds(wait) <= u64::MAX,
        waiting_timeout(whole_seconds(wait)).secs >= whole_seconds(wait),
        waiting_timeout(whole_seconds(wait)).secs >= REQUEST_TIMEOUT,
{
}

/// A status decides what a response is: 2xx is success, 401 and 403 are authentication errors that
/// are not worth a retry, and every other status is an error that carries the status and is worth a
/// retry exactly for the transient ones.
pub proof fn statuses_are_classified(
    method: Method,
    path: Seq<char>,
    status: u16,
    body: std::result::Result<Seq<char>, Seq<char>>,
)
    ensures
        status_verdict(method, path, status, body) is Ok <==> successful(status),
        status_verdict(method, path, status, body) matches Err(e) ==> {
            &&& e is Auth <==> unauthorized(status)
            &&& e is Http <==> !unauthorized(status)
            &&& !unauthorized(status) ==> status_of(e) == Some(status)
            &&& retryable(e) <==> retryable_status(status)
            &&& e == ErrorView::Auth(status_message(method, path, status, body)) || e
                == (ErrorView::Http {
                status,
                message: status_message(method, path, status, body),
            })
        },
{
}

/// Cutting a text to one limit and then to another cuts it to the smaller of the two, in whichever
/// order.
pub proof fn truncations_take_the_smaller_limit(s: Seq<char>, first: nat, second: nat)
    ensures
        truncated(truncated(s, first), second) == truncated(
            s,
            if first <= second {
                first
            } else {
                second
            },
        ),
    decreases s.len(),
{
    if encode_utf8(s).len() > first && s.len() > 0 {
        truncations_take_the_smaller_limit(s.drop_last(), first, second);
    }
}

/// What is left of a truncated text is the start of it, fits the limit, and is the whole of it or
/// as long as can be: one more character would not fit. Truncating again changes nothing.
pub proof fn truncation_keeps_the_longest_start(s: Seq<char>, limit: nat)
    ensures
        has_prefix(s, truncated(s, limit)),
        encode_utf8(truncated(s, limit)).len() <= limit,
        encode_utf8(s).len() <= limit ==> truncated(s, limit) == s,
        truncated(s, limit).len() < s.len() ==> encode_utf8(
            s.take((truncated(s, limit).len() + 1) as int),
        ).len() > limit,
        truncated(truncated(s, limit), limit) == truncated(s, limit),
    decreases s.len(),
{
    if encode_utf8(s).len() > limit && s.len() > 0 {
        let shorter = s.drop_last();
        truncation_keeps_the_longest_start(shorter, limit);
        let kept = truncated(shorter, limit);
        assert(s.take(kept.len() as int) =~= shorter.take(kept.len() as int));
        if kept.len() < shorter.len() {
            assert(s.take((kept.len() + 1) as int) =~= shorter.take((kept.len() + 1) as int));
        } else {
            assert(s.take((kept.len() + 1) as int) =~= s);
        }
    } else {
        assert(s.take(s.len() as int) =~= s);
    }
}

/// The broker properties of a locked message are reported exactly when the response carries them.
pub proof fn broker_properties_follow_the_header(
    entity: EntityView,
    status: u16,
    headers: HeaderMap<HeaderValue>,
    broker_properties: Option<std::result::Result<BrokerProperties, String>>,
    body: std::result::Result<Seq<char>, Seq<char>>,
)
    ensures
        lock_head(entity, status, headers) matches Ok(head) ==> (broker_properties is Some
            <==> head.broker_text is Some) ==> (lock_outcome(
            head,
            broker_properties,
            body,
        ) matches Ok(locked) ==> (locked.broker_properties is Some <==> all_values(
            headers,
            "brokerproperties"@,
        ).len() > 0)),
{
}

/// Addressing a subscription of a topic is the same as addressing topic and subscription at once.
pub proof fn subscriptions_are_addressed_alike(
    client: ClientView,
    name: Seq<char>,
    topic: EntityView,
    subscription: Seq<char>,
)
    requires
        entity_of(client, name, None) == Ok::<EntityView, ErrorView>(topic),
    ensures
        subscription_of(topic, subscription) == entity_of(client, name, Some(subscription)),
        subscription_of(topic, subscription) matches Ok(of_topic) ==> (entity_of(
            client,
            name,
            Some(subscription),
        ) matches Ok(at_once) && of_topic.scope() == at_once.scope()),
{
}

/// A property set twice has the value set last.
pub proof fn properties_are_replaced(
    custom: Seq<(Seq<char>, Seq<char>)>,
    name: Seq<char>,
    first: Seq<char>,
    second: Seq<char>,
)
    ensures
        with_property(with_property(custom, name, first), name, second) == with_property(
            custom,
            name,
            second,
        ),
{
    let once = with_property(custom, name, first);
    if exists|i: int| 0 <= i < custom.len() && (#[trigger] custom[i]).0 == name {
        let i = choose|i: int| 0 <= i < custom.len() && (#[trigger] custom[i]).0 == name;
        assert(once[i].0 == name);
    } else {
        assert(once[custom.len() as int].0 == name);
    }
    assert(with_property(once, name, second) =~= with_property(custom, name, second));
}

} // verus!
