//! Laws on responses: what a caller learns from them, written out in full.
use vstd::prelude::*;
use vstd::utf8::*;

use reqwest::header::{HeaderMap, HeaderValue};

use crate::encoding::status_reason;
use crate::error::ErrorView;
use crate::headers::{all_values, header_contents, utf8_lossy, value_text};
use crate::servicebus::entity::{lock_verdict, EntityView};
use crate::servicebus::message::BrokerProperties;
use crate::servicebus::request::Method;
use crate::servicebus::response::{
    body_verdict, broker_text_in, error_for, excerpt, header_texts, location_in, lock_head,
    lock_outcome, lock_url_of, lower_case_keys, shown_message, status_message, status_verdict,
    LockHeadView, PeekLockView,
};
use crate::text::{decimal, lowercase, trimmed, truncated};
use crate::uri::{url_parse, UrlView};

verus! {

/// What came of reading the body of a response, as a text.
pub open spec fn reported(body: std::result::Result<Seq<char>, Seq<char>>) -> Seq<char> {
    match body {
        Ok(text) => text,
        Err(e) => "<response body unreadable: "@ + e + ">"@,
    }
}

/// The text of the error for a status, given how the status is shown.
pub open spec fn full_message(
    method: Seq<char>,
    path: Seq<char>,
    shown: Seq<char>,
    body: std::result::Result<Seq<char>, Seq<char>>,
) -> Seq<char> {
    "Service Bus "@ + method + " "@ + path + " returned "@ + shown + ": "@ + trimmed(
        truncated(reported(body), 512),
    )
}

/// The name of a method.
pub open spec fn method_name(method: Method) -> Seq<char> {
    match method {
        Method::Post => "POST"@,
        Method::Put => "PUT"@,
        Method::Delete => "DELETE"@,
    }
}

/// The error for an unsuccessful status holds the method, the whole path, the status as it is shown
/// and the first 512 bytes of the body, without white space at its ends. It is one of authentication
/// for 401 and 403, and carries the status otherwise.
pub proof fn status_errors_say_what_happened(
    method: Method,
    path: Seq<char>,
    status: u16,
    shown: Seq<char>,
    body: std::result::Result<Seq<char>, Seq<char>>,
)
    ensures
        error_for(status, shown_message(method, path, shown, body)) == (if status == 401 || status
            == 403 {
            ErrorView::Auth(full_message(method_name(method), path, shown, body))
        } else {
            ErrorView::Http {
                status,
                message: full_message(method_name(method), path, shown, body),
            }
        }),
        shown_message(method, path, shown, body) == full_message(
            method_name(method),
            path,
            shown,
            body,
        ),
        status_message(method, path, status, body) == full_message(
            method_name(method),
            path,
            decimal(status as nat) + " "@ + status_reason(status),
            body,
        ),
        status_verdict(method, path, status, body) == (if 200 <= status <= 299 {
            Ok::<(), ErrorView>(())
        } else if status == 401 || status == 403 {
            Err::<(), ErrorView>(
                ErrorView::Auth(
                    full_message(
                        method_name(method),
                        path,
                        decimal(status as nat) + " "@ + status_reason(status),
                        body,
                    ),
                ),
            )
        } else {
            Err::<(), ErrorView>(
                ErrorView::Http {
                    status,
                    message: full_message(
                        method_name(method),
                        path,
                        decimal(status as nat) + " "@ + status_reason(status),
                        body,
                    ),
                },
            )
        }),
        excerpt(body) == trimmed(truncated(reported(body), 512)),
{
}

/// A body of at most 512 bytes, without white space at its ends, stands in the error as it is.
pub proof fn short_bodies_are_reported_whole(
    method: Method,
    path: Seq<char>,
    status: u16,
    text: Seq<char>,
)
    requires
        encode_utf8(text).len() <= 512,
        trimmed(text) == text,
    ensures
        status_message(method, path, status, Ok(text)) == "Service Bus "@ + method_name(method)
            + " "@ + path + " returned "@ + (decimal(status as nat) + " "@ + status_reason(status))
            + ": "@ + text,
{
    reveal_with_fuel(truncated, 2);
}

/// A body that was read is taken as it is, and one that could not be read is a network error that
/// says why.
pub proof fn bodies_are_taken_whole(text: Seq<char>)
    ensures
        body_verdict(Ok(text)) == Ok::<Seq<char>, ErrorView>(text),
        body_verdict(Err(text)) == Err::<Seq<char>, ErrorView>(
            ErrorView::Network("failed to read Service Bus response: "@ + text),
        ),
{
}

/// A response has a text for each header it carries, that of its last value, and for no other.
pub proof fn headers_are_reported_whole(headers: HeaderMap<HeaderValue>, name: Seq<char>)
    ensures
        header_texts(headers).contains_key(name) <==> header_contents(headers).contains_key(name)
            && header_contents(headers)[name].len() > 0,
        header_texts(headers).contains_key(name) ==> header_texts(headers)[name] == utf8_lossy(
            header_contents(headers)[name].last(),
        ),
{
}

/// The lock location is what the first value of the `Location` header is read as, checked against
/// the entity.
pub proof fn locations_are_read_from_the_header(root: UrlView, values: Seq<Seq<u8>>)
    ensures
        values.len() == 0 ==> location_in(root, values) == Ok::<Option<UrlView>, ErrorView>(None),
        values.len() > 0 && value_text(values[0]) is None ==> location_in(root, values) == Err::<
            Option<UrlView>,
            ErrorView,
        >(ErrorView::Service("Service Bus lock location is not valid UTF-8"@)),
        values.len() > 0 ==> (value_text(values[0]) matches Some(text) ==> location_in(root, values)
            == (match lock_verdict(root, url_parse(text)) {
            Ok(url) => Ok::<Option<UrlView>, ErrorView>(Some(url)),
            Err(e) => Err::<Option<UrlView>, ErrorView>(e),
        })),
{
}

/// The text of the broker properties is that of the first value of their header, all of it.
pub proof fn broker_texts_are_read_from_the_header(values: Seq<Seq<u8>>)
    ensures
        values.len() == 0 ==> broker_text_in(values) == Ok::<Option<Seq<char>>, ErrorView>(None),
        values.len() > 0 && value_text(values[0]) is None ==> broker_text_in(values) == Err::<
            Option<Seq<char>>,
            ErrorView,
        >(ErrorView::Service("BrokerProperties header is not valid UTF-8"@)),
        values.len() > 0 ==> (value_text(values[0]) matches Some(text) ==> broker_text_in(values)
            == Ok::<Option<Seq<char>>, ErrorView>(Some(text))),
{
}

/// The head of a peek-lock response keeps its status, its headers and its entity, with the lock
/// location and the text of the broker properties that the headers hold. The location is looked at
/// first.
pub proof fn lock_heads_keep_what_the_response_says(
    entity: EntityView,
    status: u16,
    headers: HeaderMap<HeaderValue>,
)
    ensures
        ({
            let location = location_in(entity.root(), all_values(headers, "location"@));
            let broker = broker_text_in(all_values(headers, "brokerproperties"@));
            &&& location matches Err(e) ==> lock_head(entity, status, headers) == Err::<
                LockHeadView,
                ErrorView,
            >(e)
            &&& location is Ok ==> (broker matches Err(e) ==> lock_head(entity, status, headers)
                == Err::<LockHeadView, ErrorView>(e))
            &&& location is Ok && broker is Ok ==> (lock_head(entity, status, headers) matches Ok(
                head,
            ) && {
                &&& head.status == status
                &&& head.entity == entity
                &&& head.lock_location == location->Ok_0
                &&& head.broker_text == broker->Ok_0
                &&& head.headers == header_texts(headers)
            })
        }),
{
}

/// A locked message reports the broker properties as they were read, equal in every field, the body
/// as it was read, and the status, the headers, the lock and the entity of its head. Broker
/// properties or a body that could not be read are the error, in this order.
pub proof fn locked_messages_are_reported_whole(
    head: LockHeadView,
    properties: BrokerProperties,
    text: Seq<char>,
    e: String,
    cause: Seq<char>,
)
    ensures
        lock_outcome(head, Some(Ok(properties)), Ok(text)) matches Ok(locked) && {
            &&& locked.broker_properties == Some(properties)
            &&& locked.body == text
            &&& locked.headers == head.headers
            &&& locked.lock_location == head.lock_location
            &&& locked.status == head.status
            &&& locked.entity == head.entity
        },
        lock_outcome(head, None, Ok(text)) matches Ok(locked) && {
            &&& locked.broker_properties is None
            &&& locked.body == text
            &&& locked.headers == head.headers
            &&& locked.lock_location == head.lock_location
            &&& locked.status == head.status
            &&& locked.entity == head.entity
        },
        forall|body: std::result::Result<Seq<char>, Seq<char>>| #[trigger]
            lock_outcome(head, Some(Err(e)), body) == Err::<PeekLockView, ErrorView>(
                ErrorView::Serialization("invalid BrokerProperties header: "@ + e@),
            ),
        lock_outcome(head, Some(Ok(properties)), Err(cause)) == Err::<PeekLockView, ErrorView>(
            ErrorView::Network("failed to read Service Bus response: "@ + cause),
        ),
        lock_outcome(head, None, Err(cause)) == Err::<PeekLockView, ErrorView>(
            ErrorView::Network("failed to read Service Bus response: "@ + cause),
        ),
{
}

/// Two responses that differ in their broker properties, their body, their status or their headers
/// are never reported alike.
pub proof fn different_messages_are_reported_differently(
    a: LockHeadView,
    b: LockHeadView,
    first: BrokerProperties,
    second: BrokerProperties,
    x: Seq<char>,
    y: Seq<char>,
)
    requires
        lock_outcome(a, Some(Ok(first)), Ok(x)) == lock_outcome(b, Some(Ok(second)), Ok(y)),
    ensures
        first == second,
        x == y,
        a.status == b.status,
        a.headers == b.headers,
        a.lock_location == b.lock_location,
        a.entity == b.entity,
{
}

/// A message that is locked is settled at its lock location.
pub proof fn locks_are_settled_where_they_are(locked: PeekLockView)
    ensures
        locked.lock_location matches Some(url) ==> lock_url_of(locked) == Ok::<UrlView, ErrorView>(
            url,
        ),
        locked.lock_location is None ==> lock_url_of(locked) == Err::<UrlView, ErrorView>(
            ErrorView::Service("no Service Bus message is locked"@),
        ),
{
}

/// Names in lower case are those that putting them in lower case leaves as they are.
pub proof fn lower_case_names_stay(map: Map<Seq<char>, String>, name: Seq<char>)
    requires
        lower_case_keys(map),
        map.contains_key(name),
    ensures
        lowercase(name) == name,
{
}

} // verus!
