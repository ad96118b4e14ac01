//! Laws on requests: what is sent, where it goes, and how it is signed, written out in full.
use vstd::prelude::*;
use vstd::utf8::*;

use crate::encoding::{
    base64_encoded, form_encoded, form_unchanged, hmac_sha256_of, query_with_pair,
};
use crate::error::{ErrorView, Result};
use crate::laws::text::decimals_stand_for_the_number;
use crate::servicebus::client::{
    authorization_for, expiry_at, signed_text, token_for, token_with, ClientView,
};
use crate::servicebus::entity::EntityView;
use crate::servicebus::message::{message_headers, no_options, Contents, OptionsView, Span};
use crate::servicebus::request::{
    peek_request, receive_request, send_request, sent_safely, signed_with, waiting_timeout,
    whole_seconds, Method, Request, RequestView,
};
use crate::servicebus::response::{settle_request, settles, PeekLockView};
use crate::text::{decimal, lowercase};
use crate::uri::{url_extended_path, url_parse, UrlHost, UrlView};

verus! {

/// The token for a resource, written out: the form-encoded resource, the form-encoded base64 of the
/// HMAC-SHA256, the expiry and the form-encoded policy. The HMAC is made under all bytes of the key,
/// over the form-encoded resource, a newline and the expiry.
pub open spec fn full_token(
    scope: Seq<char>,
    policy_name: Seq<char>,
    key: Seq<char>,
    expiry: nat,
) -> Seq<char> {
    let resource = form_encoded(encode_utf8(scope));
    let mac = hmac_sha256_of(encode_utf8(key), encode_utf8(resource + "\n"@ + decimal(expiry)));
    "SharedAccessSignature sr="@ + resource + "&sig="@ + form_encoded(
        encode_utf8(base64_encoded(mac)),
    ) + "&se="@ + decimal(expiry) + "&skn="@ + form_encoded(encode_utf8(policy_name))
}

/// The token for a resource is the one written out, for every resource, policy, key and expiry.
pub proof fn tokens_are_made_with_the_whole_key(
    scope: Seq<char>,
    policy_name: Seq<char>,
    key: Seq<char>,
    expiry: u64,
)
    ensures
        token_for(scope, policy_name, key, expiry) == "SharedAccessSignature sr="@ + form_encoded(
            encode_utf8(scope),
        ) + "&sig="@ + form_encoded(
            encode_utf8(
                base64_encoded(
                    hmac_sha256_of(
                        encode_utf8(key),
                        encode_utf8(
                            form_encoded(encode_utf8(scope)) + "\n"@ + decimal(expiry as nat),
                        ),
                    ),
                ),
            ),
        ) + "&se="@ + decimal(expiry as nat) + "&skn="@ + form_encoded(encode_utf8(policy_name)),
        token_for(scope, policy_name, key, expiry) == full_token(
            scope,
            policy_name,
            key,
            expiry as nat,
        ),
{
}

/// What is signed is the whole form-encoded resource, a newline and the expiry, and a token carries
/// the signature it is given, with that resource, expiry and policy.
pub proof fn tokens_carry_their_parts(
    scope: Seq<char>,
    policy_name: Seq<char>,
    expiry: u64,
    mac: Seq<u8>,
)
    ensures
        signed_text(scope, expiry) == form_encoded(encode_utf8(scope)) + "\n"@ + decimal(
            expiry as nat,
        ),
        token_with(scope, policy_name, expiry, mac) == "SharedAccessSignature sr="@ + form_encoded(
            encode_utf8(scope),
        ) + "&sig="@ + form_encoded(encode_utf8(base64_encoded(mac))) + "&se="@ + decimal(
            expiry as nat,
        ) + "&skn="@ + form_encoded(encode_utf8(policy_name)),
{
}

/// The authorization for a resource is its token, made with the policy and the whole key of the
/// client, which expires after an hour. There is none only where that is no time after the UNIX
/// epoch.
pub proof fn authorizations_are_tokens(client: ClientView, scope: Seq<char>, now: i64)
    ensures
        authorization_for(client, scope, now) == (if 0 <= now + 3600 <= i64::MAX {
            Ok::<Seq<char>, ErrorView>(
                full_token(
                    scope,
                    client.policy_name,
                    client.shared_access_key,
                    (now + 3600) as nat,
                ),
            )
        } else {
            Err::<Seq<char>, ErrorView>(ErrorView::Auth("system clock is before the UNIX epoch"@))
        }),
        expiry_at(now) is Some <==> 0 <= now + 3600 <= i64::MAX,
        expiry_at(now) matches Some(expiry) ==> expiry == now + 3600,
{
}

/// The URL of an entity with segments behind it: that of the endpoint in all but the path.
pub open spec fn url_behind(entity: EntityView, tail: Seq<Seq<char>>) -> UrlView {
    let base = url_parse(entity.client.endpoint)->Ok_0;
    UrlView {
        scheme: base.scheme,
        host: base.host,
        host_text: base.host_text,
        port: base.port,
        before_path: base.before_path,
        path: url_extended_path(entity.client.endpoint, entity.segments + tail)->0,
        query: base.query,
        fragment: base.fragment,
        cannot_be_a_base: base.cannot_be_a_base,
    }
}

/// The text of a URL, from its scheme to its fragment.
pub open spec fn whole_text(url: UrlView) -> Seq<char> {
    let end = match (url.query, url.fragment) {
        (None, None) => seq![],
        (Some(query), None) => "?"@ + query,
        (None, Some(fragment)) => "#"@ + fragment,
        (Some(query), Some(fragment)) => "?"@ + query + "#"@ + fragment,
    };
    url.before_path + url.path + end
}

/// The URLs of an entity: its own, that of its messages and that of the message at its head. Its
/// signatures are made for the text of the first.
pub proof fn entities_have_three_urls(entity: EntityView)
    ensures
        entity.root() == url_behind(entity, seq![]),
        entity.messages() == url_behind(entity, seq!["messages"@]),
        entity.head() == url_behind(entity, seq!["messages"@, "head"@]),
        entity.scope() == whole_text(url_behind(entity, seq![])),
{
    let url = entity.root();
    assert(url.text() =~= whole_text(url));
}

/// The token for an entity at a time.
pub open spec fn entity_token(entity: EntityView, now: i64) -> Seq<char> {
    full_token(
        whole_text(url_behind(entity, seq![])),
        entity.client.policy_name,
        entity.client.shared_access_key,
        (now + 3600) as nat,
    )
}

/// The headers of a request without a body: its signature, and that there is no content.
pub open spec fn bare_headers(entity: EntityView, now: i64) -> Contents {
    map![
        "authorization"@ => seq![encode_utf8(entity_token(entity, now))],
        "content-length"@ => seq![encode_utf8("0"@)],
    ]
}

proof fn lemma_header_names()
    ensures
        "authorization"@ != "content-length"@,
{
    reveal_strlit("authorization");
    reveal_strlit("content-length");
    assert("authorization"@.len() != "content-length"@.len());
}

/// A message is sent as it is: the request is a POST to the messages of the entity, and its body is
/// the message, character for character.
pub proof fn messages_are_sent_whole(
    entity: EntityView,
    body: Seq<char>,
    options: Option<OptionsView>,
    now: i64,
)
    ensures
        send_request(entity, body, options, now) matches Ok(r) ==> {
            &&& r.method == Method::Post
            &&& r.body == Some(body)
            &&& r.url == url_behind(entity, seq!["messages"@])
            &&& r.timeout == (Span { secs: 30, nanos: 0 })
        },
{
    entities_have_three_urls(entity);
}

/// The headers of a message are those of its options and the signature. It can be sent exactly when
/// the options can be headers and the clock allows a signature.
pub proof fn messages_are_sent_with_their_options(
    entity: EntityView,
    body: Seq<char>,
    options: Option<OptionsView>,
    now: i64,
)
    ensures
        send_request(entity, body, options, now) matches Ok(r) ==> {
            &&& r.sensitive == set!["authorization"@]
            &&& options matches Some(given) ==> (message_headers(given) matches Ok(headers)
                && r.headers == headers.insert(
                "authorization"@,
                seq![encode_utf8(entity_token(entity, now))],
            ))
            &&& options is None ==> r.headers == map![
                "authorization"@ => seq![encode_utf8(entity_token(entity, now))],
            ]
        },
        options matches Some(given) ==> (message_headers(given) matches Err(e) ==> send_request(
            entity,
            body,
            options,
            now,
        ) == Err::<RequestView, ErrorView>(e)),
        send_request(entity, body, options, now) is Ok <==> (options matches Some(given)
            ==> message_headers(given) is Ok) && 0 <= now + 3600 <= i64::MAX,
{
    lemma_header_names();
    entities_have_three_urls(entity);
    assert(no_options().custom() =~= seq![]);
    if send_request(entity, body, options, now) is Ok {
        let r = send_request(entity, body, options, now)->Ok_0;
        assert(r.sensitive =~= set!["authorization"@]);
        if options is None {
            assert(r.headers =~= map![
                "authorization"@ => seq![encode_utf8(entity_token(entity, now))],
            ]);
        }
    }
}

/// Two messages that differ are never sent alike.
pub proof fn different_messages_are_sent_differently(
    entity: EntityView,
    a: Seq<char>,
    b: Seq<char>,
    options: Option<OptionsView>,
    now: i64,
)
    requires
        send_request(entity, a, options, now) is Ok,
        send_request(entity, a, options, now) == send_request(entity, b, options, now),
    ensures
        a == b,
{
    messages_are_sent_whole(entity, a, options, now);
    messages_are_sent_whole(entity, b, options, now);
}

/// A message is received and deleted by a DELETE of the head of the entity, without a body.
pub proof fn receiving_deletes_the_head(entity: EntityView, now: i64)
    ensures
        receive_request(entity, now) matches Ok(r) ==> {
            &&& r.method == Method::Delete
            &&& r.url == url_behind(entity, seq!["messages"@, "head"@])
            &&& r.body is None
            &&& r.timeout == (Span { secs: 30, nanos: 0 })
            &&& r.headers == bare_headers(entity, now)
            &&& r.sensitive == set!["authorization"@]
        },
        receive_request(entity, now) is Ok <==> 0 <= now + 3600 <= i64::MAX,
{
    lemma_header_names();
    entities_have_three_urls(entity);
    if receive_request(entity, now) is Ok {
        let r = receive_request(entity, now)->Ok_0;
        assert(r.sensitive =~= set!["authorization"@]);
        assert(r.headers =~= bare_headers(entity, now));
    }
}

proof fn lemma_form_unchanged(bytes: Seq<u8>)
    requires
        forall|i: int| 0 <= i < bytes.len() ==> form_unchanged(#[trigger] bytes[i]),
    ensures
        form_encoded(bytes) == Seq::new(bytes.len(), |i: int| bytes[i] as char),
    decreases bytes.len(),
{
    if bytes.len() > 0 {
        lemma_form_unchanged(bytes.drop_last());
    }
    assert(form_encoded(bytes) =~= Seq::new(bytes.len(), |i: int| bytes[i] as char));
}

/// Letters and digits stand in a form-encoded text as they are.
pub proof fn letters_and_digits_are_form_encoded_as_they_are(s: Seq<char>)
    requires
        forall|i: int|
            0 <= i < s.len() ==> ('0' <= #[trigger] s[i] <= '9' || 'a' <= s[i] <= 'z' || 'A' <= s[i]
                <= 'Z'),
    ensures
        form_encoded(encode_utf8(s)) == s,
{
    assert(is_ascii_chars(s));
    is_ascii_chars_encode_utf8(s);
    let bytes = encode_utf8(s);
    assert forall|i: int| 0 <= i < bytes.len() implies form_unchanged(#[trigger] bytes[i]) by {
        assert(bytes[i] == s[i] as u8);
        assert('0' <= s[i] <= '9' || 'a' <= s[i] <= 'z' || 'A' <= s[i] <= 'Z');
    }
    lemma_form_unchanged(bytes);
    assert(form_encoded(bytes) =~= s);
}

/// The query that asks for a wait of so many seconds, behind the query that is there.
pub open spec fn waiting_query(query: Option<Seq<char>>, secs: nat) -> Seq<char> {
    match query {
        Some(query) => if query.len() > 0 {
            query + "&"@ + "timeout="@ + decimal(secs)
        } else {
            "timeout="@ + decimal(secs)
        },
        None => "timeout="@ + decimal(secs),
    }
}

proof fn lemma_waiting_query(query: Option<Seq<char>>, secs: nat)
    ensures
        query_with_pair(
            match query {
                Some(query) => query,
                None => seq![],
            },
            "timeout"@,
            decimal(secs),
        ) == waiting_query(query, secs),
{
    reveal_strlit("timeout");
    reveal_strlit("timeout=");
    reveal_strlit("=");
    reveal_strlit("&");
    decimals_stand_for_the_number(secs);
    letters_and_digits_are_form_encoded_as_they_are("timeout"@);
    letters_and_digits_are_form_encoded_as_they_are(decimal(secs));
    let start = match query {
        Some(query) => query,
        None => seq![],
    };
    assert(query_with_pair(start, "timeout"@, decimal(secs)) =~= waiting_query(query, secs));
}

/// A message is locked by a POST to the head of the entity, without a body. A wait is asked for in
/// the query, in whole seconds rounded up, and added to the 30 seconds that a request may take.
pub proof fn locking_posts_to_the_head(entity: EntityView, wait: Option<Span>, now: i64)
    ensures
        peek_request(entity, wait, now) matches Ok(r) ==> {
            let head = url_behind(entity, seq!["messages"@, "head"@]);
            &&& r.method == Method::Post
            &&& r.body is None
            &&& r.headers == bare_headers(entity, now)
            &&& r.sensitive == set!["authorization"@]
            &&& wait is None ==> r.url == head && r.timeout == (Span { secs: 30, nanos: 0 })
            &&& wait matches Some(span) ==> {
                let secs = span.secs + (if span.nanos > 0 && span.secs < u64::MAX {
                    1int
                } else {
                    0int
                });
                &&& r.url == (UrlView {
                    query: Some(waiting_query(head.query, secs as nat)),
                    ..head
                })
                &&& secs + 30 <= u64::MAX ==> r.timeout.secs == secs + 30 && r.timeout.nanos == 0
                &&& secs + 30 > u64::MAX ==> r.timeout == (Span {
                    secs: u64::MAX,
                    nanos: 999_999_999,
                })
            }
        },
        peek_request(entity, wait, now) is Ok <==> 0 <= now + 3600 <= i64::MAX,
{
    lemma_header_names();
    entities_have_three_urls(entity);
    if peek_request(entity, wait, now) is Ok {
        let r = peek_request(entity, wait, now)->Ok_0;
        assert(r.sensitive =~= set!["authorization"@]);
        assert(r.headers =~= bare_headers(entity, now));
        if wait is Some {
            lemma_waiting_query(entity.head().query, whole_seconds(wait->0) as nat);
        }
    }
}

/// The time allowed for a request is 30 seconds beyond the wait, or the longest there is.
pub proof fn timeouts_add_thirty_seconds(secs: u64)
    ensures
        secs + 30 <= u64::MAX ==> waiting_timeout(secs as int) == (Span {
            secs: (secs + 30) as u64,
            nanos: 0,
        }),
        secs + 30 > u64::MAX ==> waiting_timeout(secs as int) == (Span {
            secs: u64::MAX,
            nanos: 999_999_999,
        }),
{
}

/// A locked message is settled at its lock location, as that was named, by the method that is asked
/// for, without a body, and signed for the entity that it was received from.
pub proof fn settling_goes_to_the_lock(locked: PeekLockView, method: Method, now: i64)
    ensures
        settle_request(locked, method, now) matches Ok(r) ==> {
            &&& r.method == method
            &&& locked.lock_location == Some(r.url)
            &&& r.body is None
            &&& r.timeout == (Span { secs: 30, nanos: 0 })
            &&& r.headers == bare_headers(locked.entity, now)
            &&& r.sensitive == set!["authorization"@]
        },
        settle_request(locked, method, now) is Ok <==> locked.lock_location is Some && 0 <= now
            + 3600 <= i64::MAX,
        locked.lock_location is None ==> settle_request(locked, method, now) == Err::<
            RequestView,
            ErrorView,
        >(ErrorView::Service("no Service Bus message is locked"@)),
{
    lemma_header_names();
    entities_have_three_urls(locked.entity);
    if settle_request(locked, method, now) is Ok {
        let r = settle_request(locked, method, now)->Ok_0;
        assert(r.sensitive =~= set!["authorization"@]);
        assert(r.headers =~= bare_headers(locked.entity, now));
    }
}

/// Signing a request puts the whole token in its one authorization, out of debug output, says where
/// there is no content, and changes nothing else.
pub proof fn signing_adds_the_token(request: RequestView, token: Seq<char>, name: Seq<char>)
    ensures
        ({
            let r = signed_with(request, token);
            &&& r.method == request.method
            &&& r.url == request.url
            &&& r.body == request.body
            &&& r.timeout == request.timeout
            &&& r.sensitive == request.sensitive.insert("authorization"@)
            &&& r.headers.contains_key("authorization"@)
            &&& r.headers["authorization"@] == seq![encode_utf8(token)]
            &&& name != "authorization"@ && (name != "content-length"@ || request.body is Some)
                ==> r.headers.contains_key(name) == request.headers.contains_key(name)
                && r.headers[name] == request.headers[name]
            &&& request.body is None ==> r.headers.contains_key("content-length"@)
                && r.headers["content-length"@] == (if request.headers.contains_key(
                "content-length"@,
            ) {
                request.headers["content-length"@].push(encode_utf8("0"@))
            } else {
                seq![encode_utf8("0"@)]
            })
        }),
{
    lemma_header_names();
    let r = signed_with(request, token);
    if request.body is None && !request.headers.contains_key("content-length"@) {
        assert(r.headers["content-length"@] =~= seq![encode_utf8("0"@)]);
    }
}

/// A request that is sent safely goes out over `https`, or over `http` to this machine: `localhost`,
/// `127.0.0.0/8` or `::1`.
pub proof fn safe_requests_are_not_sent_in_clear(r: Result<Request>)
    ensures
        sent_safely(r) ==> (r matches Ok(request) ==> {
            ||| request.url.scheme@ == "https"@
            ||| request.url.scheme@ == "http"@ && match request.url.host {
                UrlHost::Missing => false,
                UrlHost::Domain => request.url.host_text matches Some(domain)
                    && lowercase(domain@) == "localhost"@,
                UrlHost::Ipv4(bits) => bits / 0x100_0000 == 127,
                UrlHost::Ipv6(bits) => bits == 1,
            }
        }),
{
}

/// A request that settles a message goes to the origin of the entity, below its messages, and has no
/// fragment.
pub proof fn settling_keeps_to_the_entity(locked: PeekLockView, r: Result<Request>)
    ensures
        settles(locked, r) ==> (r matches Ok(request) ==> {
            let root = locked.entity.root();
            &&& request@.url.scheme == root.scheme
            &&& request@.url.host_text == root.host_text
            &&& request@.url.port == root.port
            &&& request@.url.fragment is None
        }),
{
}

} // verus!
