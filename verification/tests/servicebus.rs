//! Service Bus: clients, entity URLs, signatures, requests and responses.
use armature_azure::servicebus::client::{
    check_endpoint, parse_namespace, sas_token, string_to_sign, token_with_signature, SAS_TTL,
};
use armature_azure::servicebus::clients::QueueClient;
use armature_azure::names::NameMap;
use armature_azure::servicebus::entity::{check_address, validate_name};
use armature_azure::servicebus::message::{
    deserialize_http_date, header_value, serialize_http_date, BrokerProperties, Real,
    SendMessageOptions, SettableBrokerProperties, Span, UnixTime,
};
use armature_azure::servicebus::request::{round_up, sign_request, timeout_for, Method, Request};
use armature_azure::servicebus::response::{
    check_status, collect_headers, is_success, read_body, status_error, transport_error,
    PeekLockResponse, ERROR_BODY_LIMIT,
};
use armature_azure::text::truncate_at_char_boundary;
use armature_azure::{AzureError, ServiceBusClient};
use base64::Engine;
use hmac::{Hmac, KeyInit, Mac};
use reqwest::header::{HeaderMap, HeaderName, HeaderValue};
use sha2::Sha256;

const KEY: &str = "c2VjcmV0LWtleQ==";
const POLICY: &str = "RootManageSharedAccessKey";
const SERVER: &str = "http://127.0.0.1:5300";
const NOW: i64 = 1_700_000_000;

fn local_client() -> ServiceBusClient {
    ServiceBusClient::new("mybus", POLICY, KEY)
        .with_endpoint(SERVER)
        .expect("loopback endpoint")
}

fn local_queue(name: &str) -> QueueClient {
    local_client()
        .queue_if_room(name)
        .expect("room")
        .expect("queue")
}

fn header_of(request: &Request, name: &str) -> String {
    request
        .headers
        .get(name)
        .unwrap_or_else(|| panic!("{name} missing"))
        .to_str()
        .unwrap()
        .to_string()
}

fn query_value<'a>(token: &'a str, name: &str) -> &'a str {
    token
        .trim_start_matches("SharedAccessSignature ")
        .split('&')
        .find_map(|pair| pair.strip_prefix(format!("{name}=").as_str()))
        .unwrap_or_else(|| panic!("{name} missing from {token}"))
}

fn response_headers(pairs: &[(&'static str, &str)]) -> HeaderMap {
    let mut headers = HeaderMap::new();
    for (name, value) in pairs {
        headers.insert(
            HeaderName::from_static(name),
            HeaderValue::from_str(value).unwrap(),
        );
    }
    headers
}

/// Read broker properties from the text of their header, field by field.
fn read_broker(text: &str) -> Result<BrokerProperties, String> {
    let value: serde_json::Value = serde_json::from_str(text).map_err(|e| e.to_string())?;
    let text_of = |name: &str| value.get(name).and_then(|v| v.as_str()).map(String::from);
    let date_of = |name: &str| deserialize_http_date(text_of(name).as_deref());
    let mut properties = BrokerProperties::default();
    properties.delivery_count = value
        .get("DeliveryCount")
        .and_then(|v| v.as_i64())
        .unwrap_or(0) as i32;
    properties.enqueued_time_utc = date_of("EnqueuedTimeUtc")?;
    properties.locked_until_utc = date_of("LockedUntilUtc")?;
    properties.lock_token = text_of("LockToken");
    properties.message_id = text_of("MessageId");
    properties.sequence_number = value.get("SequenceNumber").and_then(|v| v.as_i64());
    properties.time_to_live = value
        .get("TimeToLive")
        .and_then(|v| v.as_f64())
        .map(|seconds| Real { bits: seconds.to_bits() });
    Ok(properties)
}

fn lock(
    queue: &QueueClient,
    status: u16,
    headers: &HeaderMap,
    body: &str,
) -> Result<PeekLockResponse, AzureError> {
    let head = queue.peek_lock_response(status, headers)?;
    let broker = head.broker_text().map(read_broker);
    head.finish(broker, Ok(body.to_string()))
}

#[test]
fn from_connection_string_parses_namespace_policy_key() {
    let conn = "Endpoint=sb://mybus.servicebus.windows.net/;\
                SharedAccessKeyName=RootManageSharedAccessKey;\
                SharedAccessKey=abc123def456==";
    let client = ServiceBusClient::from_connection_string(conn).expect("parse");
    assert_eq!(client.namespace(), "mybus");
    assert_eq!(client.policy_name(), POLICY);
    // The base64 key contains '=' which must survive the split on the first '='.
    assert_eq!(
        client.authorization("scope", NOW).unwrap(),
        sas_token("scope", POLICY, "abc123def456==", 1_700_003_600)
    );
    assert_eq!(client.endpoint(), "https://mybus.servicebus.windows.net");
}

#[test]
fn from_connection_string_rejects_missing_key() {
    let conn = "Endpoint=sb://mybus.servicebus.windows.net/;\
                SharedAccessKeyName=RootManageSharedAccessKey";
    assert!(ServiceBusClient::from_connection_string(conn).is_err());
}

#[test]
fn builds_entity_urls() {
    let client = ServiceBusClient::new("mybus", "policy", KEY);
    let queue = client.queue("orders").expect("queue");
    assert_eq!(
        queue.entity().head_url().as_text(),
        "https://mybus.servicebus.windows.net/orders/messages/head"
    );
    let topic = client.topic("events").expect("topic");
    let receiver = topic.subscription_receiver("audit").expect("receiver");
    assert_eq!(
        receiver.entity().scope(),
        "https://mybus.servicebus.windows.net/events/subscriptions/audit"
    );
    assert_eq!(
        topic.topic_sender().entity().scope(),
        "https://mybus.servicebus.windows.net/events"
    );
    let nested = client.queue("team/orders").expect("nested");
    assert_eq!(
        nested.entity().scope(),
        "https://mybus.servicebus.windows.net/team/orders"
    );
    assert!(client.queue("").is_err());
    assert!(client.queue("a//b").is_err());
    assert!(topic.subscription_receiver("").is_err());
}

#[test]
fn with_endpoint_trims_and_restricts_schemes() {
    let client = ServiceBusClient::new("mybus", "policy", KEY);
    let local = client
        .clone()
        .with_endpoint("http://localhost:1234/")
        .expect("loopback http");
    assert_eq!(
        local.queue("orders").ok().unwrap().entity().scope(),
        "http://localhost:1234/orders"
    );
    assert!(client.clone().with_endpoint("http://127.0.0.1:5300").is_ok());
    assert!(client.clone().with_endpoint("http://[::1]:5300").is_ok());
    assert!(client
        .clone()
        .with_endpoint("https://emulator.example.com")
        .is_ok());
    assert!(matches!(
        client
            .clone()
            .with_endpoint("http://mybus.servicebus.windows.net"),
        Err(AzureError::Config(_))
    ));
    assert!(client.clone().with_endpoint("ftp://localhost").is_err());
    assert!(client
        .clone()
        .with_endpoint("https://host.example/?x=1")
        .is_err());
    assert!(client.with_endpoint("not a url").is_err());
}

#[test]
fn sas_token_matches_known_answer_vector() {
    assert_eq!(
        sas_token(
            "https://mybus.servicebus.windows.net/orders",
            POLICY,
            KEY,
            1_700_000_000
        ),
        "SharedAccessSignature sr=https%3A%2F%2Fmybus.servicebus.windows.net%2Forders\
         &sig=RUSx912cq8wMduAfrBRdtS1YrrjoU4xlvqLzhyX3Ss8%3D&se=1700000000\
         &skn=RootManageSharedAccessKey"
    );
}

#[test]
fn debug_output_redacts_the_key() {
    let client = ServiceBusClient::new("mybus", "policy", "super-secret-key");
    let fields = client.debug_fields();
    assert!(!format!("{fields:?}").contains("super-secret-key"));
    assert_eq!(
        fields,
        vec![
            ("namespace", "mybus".to_string()),
            ("policy_name", "policy".to_string()),
            (
                "endpoint",
                "https://mybus.servicebus.windows.net".to_string()
            ),
        ]
    );
}

#[test]
fn send_options_reject_invalid_headers() {
    let bad_name = SendMessageOptions::new().custom_property("bad name", "v");
    assert!(matches!(bad_name.to_headers(), Err(AzureError::Config(_))));
    let bad_value = SendMessageOptions::new().content_type("text/plain\r\nX-Evil: 1");
    assert!(matches!(bad_value.to_headers(), Err(AzureError::Config(_))));
    let bad_custom_value = SendMessageOptions::new().custom_property("ok", "a\nb");
    assert!(matches!(
        bad_custom_value.to_headers(),
        Err(AzureError::Config(_))
    ));
}

#[test]
fn broker_properties_dates_are_optional_but_validated() {
    let props = read_broker(r#"{"DeliveryCount":1,"MessageId":"m"}"#).expect("minimal");
    assert_eq!(props.delivery_count, 1);
    assert!(props.enqueued_time_utc.is_none());
    assert!(props.locked_until_utc.is_none());
    assert!(read_broker(r#"{"EnqueuedTimeUtc":"not-a-date"}"#).is_err());
}

#[test]
fn truncation_respects_utf8_boundaries() {
    let mut text = format!("{}€tail", "a".repeat(ERROR_BODY_LIMIT - 1));
    truncate_at_char_boundary(&mut text, ERROR_BODY_LIMIT);
    assert_eq!(text, "a".repeat(ERROR_BODY_LIMIT - 1));
}

#[test]
fn send_message_posts_body_with_a_valid_sas_and_broker_properties() {
    let options = SendMessageOptions::new()
        .content_type("application/json")
        .broker_properties(
            SettableBrokerProperties::new()
                .message_id("m-1")
                .label("created"),
        )
        .custom_property("priority", "high");
    assert!(options.is_sendable());
    let request = local_queue("orders")
        .send_message(r#"{"id":1}"#, Some(options), NOW)
        .expect("send");

    assert_eq!(request.method, Method::Post);
    assert_eq!(request.method.as_str(), "POST");
    assert_eq!(request.url.path, "/orders/messages");
    assert_eq!(request.url.as_text(), format!("{SERVER}/orders/messages"));
    assert_eq!(request.body.as_deref(), Some(r#"{"id":1}"#));
    assert_eq!(header_of(&request, "content-type"), "application/json");
    assert_eq!(header_of(&request, "priority"), "high");
    assert_eq!(
        header_of(&request, "brokerproperties"),
        r#"{"MessageId":"m-1","Label":"created"}"#
    );
    assert!(request.headers.get("content-length").is_none());
    assert_eq!(request.timeout, Span { secs: 30, nanos: 0 });

    // Verify the signature against the key, the way the service does, rather than only its shape.
    assert!(request.headers.get("authorization").unwrap().is_sensitive());
    assert!(!request.headers.get("priority").unwrap().is_sensitive());
    let auth = header_of(&request, "authorization");
    let sr = query_value(&auth, "sr");
    let se = query_value(&auth, "se");
    let expected_scope = format!("{SERVER}/orders");
    let expected_sr: String =
        url::form_urlencoded::byte_serialize(expected_scope.as_bytes()).collect();
    assert_eq!(sr, expected_sr);
    assert_eq!(query_value(&auth, "skn"), POLICY);
    let expiry: i64 = se.parse().expect("numeric expiry");
    assert_eq!(expiry, NOW + SAS_TTL);
    let mut mac = Hmac::<Sha256>::new_from_slice(b"c2VjcmV0LWtleQ==").unwrap();
    mac.update(format!("{sr}\n{se}").as_bytes());
    let expected_sig = base64::engine::general_purpose::STANDARD
        .encode(mac.finalize().into_bytes())
        .replace('+', "%2B")
        .replace('/', "%2F")
        .replace('=', "%3D");
    assert_eq!(query_value(&auth, "sig"), expected_sig);
}

#[test]
fn receive_and_delete_reads_the_queue_head() {
    let request = local_queue("orders")
        .receive_and_delete_message(NOW)
        .expect("receive");
    assert_eq!(request.method, Method::Delete);
    assert_eq!(request.method.as_str(), "DELETE");
    assert_eq!(request.url.path, "/orders/messages/head");
    assert!(request.body.is_none());
    assert_eq!(header_of(&request, "content-length"), "0");
    assert!(is_success(200));
    assert_eq!(read_body(Ok("hello".to_string())).unwrap(), "hello");
}

#[test]
fn peek_lock_message_returns_the_body_for_queue_and_subscription() {
    let client = local_client();
    // A sub-second wait is rounded up, not sent as `timeout=0`.
    let queued = client
        .queue("orders")
        .ok()
        .unwrap()
        .peek_lock_message(
            Some(Span {
                secs: 0,
                nanos: 200_000_000,
            }),
            NOW,
        )
        .expect("queue peek-lock");
    assert_eq!(queued.method, Method::Post);
    assert_eq!(queued.url.path, "/orders/messages/head");
    assert_eq!(queued.url.query.as_deref(), Some("timeout=1"));
    assert_eq!(queued.timeout, Span { secs: 31, nanos: 0 });
    assert_eq!(read_body(Ok("queued".to_string())).unwrap(), "queued");

    let topic = client.topic("events").ok().unwrap();
    let published = topic
        .subscription_receiver("audit")
        .ok()
        .unwrap()
        .peek_lock_message(None, NOW)
        .expect("subscription peek-lock");
    assert_eq!(
        published.url.path,
        "/events/subscriptions/audit/messages/head"
    );
    assert_eq!(published.url.query, None);
    assert_eq!(published.timeout, Span { secs: 30, nanos: 0 });
    assert_eq!(read_body(Ok("published".to_string())).unwrap(), "published");
}

#[test]
fn subscription_receiver_targets_the_subscription() {
    let topic = local_client().topic("events").ok().unwrap();
    let publish = topic
        .topic_sender()
        .send_message("evt", None, NOW)
        .expect("publish");
    assert_eq!(publish.method, Method::Post);
    assert_eq!(publish.url.path, "/events/messages");
    let receive = topic
        .subscription_receiver("audit")
        .ok()
        .unwrap()
        .receive_and_delete_message(NOW)
        .expect("receive");
    assert_eq!(receive.method, Method::Delete);
    assert_eq!(
        receive.url.path,
        "/events/subscriptions/audit/messages/head"
    );
    assert!(is_success(204));
    assert_eq!(read_body(Ok(String::new())).unwrap(), "");
}

#[test]
fn peek_lock_settles_through_the_lock_location() {
    let lock_path = "/orders/messages/31907572-1647-43c3-8741-631acd554d6f/7da9cfd5-40d5-4bb1-8d64-ec5a52e1c547";
    let location = format!("{SERVER}{lock_path}");
    let headers = response_headers(&[
        ("location", location.as_str()),
        (
            "brokerproperties",
            r#"{"DeliveryCount":2,"EnqueuedSequenceNumber":0,"EnqueuedTimeUtc":"Wed, 16 Sep 2026 12:00:00 GMT","LockToken":"7da9cfd5-40d5-4bb1-8d64-ec5a52e1c547","LockedUntilUtc":"Wed, 16 Sep 2026 12:01:00 GMT","MessageId":"m-1","SequenceNumber":11,"State":"Active","TimeToLive":922337203685.47754}"#,
        ),
        ("priority", "high"),
    ]);
    let queue = local_queue("orders");
    let request = queue
        .peek_lock(Some(Span { secs: 5, nanos: 0 }), NOW)
        .expect("peek-lock");
    assert_eq!(request.url.path, "/orders/messages/head");
    assert_eq!(request.url.query.as_deref(), Some("timeout=5"));

    let locked = lock(&queue, 201, &headers, "locked body").expect("peek-lock");
    assert_eq!(locked.status(), 201);
    assert_eq!(locked.body(), "locked body");
    assert!(locked.has_message());
    assert_eq!(
        locked.headers().get("priority").map(String::as_str),
        Some("high")
    );
    let props = locked.broker_properties().expect("broker properties");
    assert_eq!(props.delivery_count, 2);
    assert_eq!(
        props.lock_token.as_deref(),
        Some("7da9cfd5-40d5-4bb1-8d64-ec5a52e1c547")
    );
    assert_eq!(props.sequence_number, Some(11));
    assert!(props.locked_until_utc.is_some());

    let renew = locked.renew_message_lock(NOW).expect("renew");
    let unlock = locked.unlock_message(NOW).expect("unlock");
    let complete = locked.delete_message(NOW).expect("complete");
    assert_eq!(renew.method, Method::Post);
    assert_eq!(unlock.method, Method::Put);
    assert_eq!(unlock.method.as_str(), "PUT");
    assert_eq!(complete.method, Method::Delete);
    for settle in [&renew, &unlock, &complete] {
        assert_eq!(settle.url.path, lock_path);
        assert_eq!(settle.url.as_text(), location);
        assert_eq!(header_of(settle, "content-length"), "0");
        assert_eq!(
            header_of(settle, "authorization"),
            header_of(&request, "authorization")
        );
    }
}

#[test]
fn subscription_peek_lock_settles_under_the_subscription() {
    let lock_path = "/events/subscriptions/audit/messages/1/abc";
    let location = format!("{SERVER}{lock_path}");
    let headers = response_headers(&[("location", location.as_str())]);
    let topic = local_client()
        .topic_if_room("events")
        .expect("room")
        .expect("topic");
    assert!(topic.has_room_for("audit"));
    let receiver = topic
        .subscription_receiver_if_room("audit")
        .expect("room")
        .expect("receiver");
    let request = receiver.peek_lock(None, NOW).expect("peek-lock");
    assert_eq!(
        request.url.path,
        "/events/subscriptions/audit/messages/head"
    );
    let locked = receiver
        .peek_lock_response(201, &headers)
        .and_then(|head| head.finish(None, Ok("evt".to_string())))
        .expect("peek-lock");
    assert_eq!(locked.body(), "evt");
    let complete = locked.delete_message(NOW).expect("complete");
    assert_eq!(complete.url.path, lock_path);
}

#[test]
fn peek_lock_rejects_lock_locations_outside_the_entity() {
    let foreign = [
        "https://attacker.example/orders/messages/1/abc".to_string(),
        format!("{SERVER}/other-queue/messages/1/abc"),
        "http://127.0.0.1:1/orders/messages/1/abc".to_string(),
    ];
    let queue = local_queue("orders");
    for location in &foreign {
        let headers = response_headers(&[("location", location.as_str())]);
        let err = lock(&queue, 201, &headers, "x")
            .err()
            .expect("foreign lock location must be refused");
        assert!(matches!(err, AzureError::Service(_)), "{location}");
    }
}

#[test]
fn invalid_broker_properties_header_is_a_serialization_error() {
    let headers = response_headers(&[("brokerproperties", r#"{"LockedUntilUtc":"yesterday"}"#)]);
    let err = lock(&local_queue("orders"), 201, &headers, "")
        .err()
        .expect("invalid date");
    assert!(matches!(err, AzureError::Serialization(_)));
}

#[test]
fn empty_peek_lock_has_nothing_to_settle() {
    let locked = lock(&local_queue("orders"), 204, &HeaderMap::new(), "").expect("peek-lock");
    assert_eq!(locked.status(), 204);
    assert!(!locked.has_message());
    assert!(locked.delete_message(NOW).is_err());
}

#[test]
fn auth_errors_carry_status_but_not_credentials() {
    let request = local_queue("orders")
        .send_message("x", None, NOW)
        .expect("prepared");
    let err = check_status(
        request.method,
        request.url.path.as_str(),
        401,
        Ok("<Error><Code>401</Code></Error>".to_string()),
    )
    .expect_err("unauthorized");
    let text = err.to_string();
    assert!(matches!(err, AzureError::Auth(_)), "{text}");
    assert!(text.contains("401"), "{text}");
    assert!(!text.contains("SharedAccessSignature"), "{text}");
    assert!(!text.contains(KEY), "{text}");
    assert_eq!(
        text,
        "Authentication error: Service Bus POST /orders/messages returned 401 Unauthorized: \
         <Error><Code>401</Code></Error>"
    );
}

#[test]
fn http_errors_expose_status_and_retryability() {
    let missing = check_status(Method::Delete, "/missing/messages/head", 404, Ok(String::new()))
        .expect_err("404");
    assert_eq!(missing.status(), Some(404));
    assert!(!missing.is_retryable());

    let long_body = format!("{}€{}", "e".repeat(ERROR_BODY_LIMIT - 1), "z".repeat(600));
    let busy = check_status(Method::Delete, "/busy/messages/head", 503, Ok(long_body))
        .expect_err("503");
    assert_eq!(busy.status(), Some(503));
    assert!(busy.is_retryable());
    let text = busy.to_string();
    // Cut before the multi-byte character, so nothing after it survives.
    assert!(!text.contains('€') && !text.contains("zz"), "{text}");
}

#[test]
fn transport_failures_are_network_errors() {
    let request = ServiceBusClient::new("mybus", POLICY, KEY)
        .with_endpoint("http://127.0.0.1:1")
        .ok()
        .unwrap()
        .queue("orders")
        .ok()
        .unwrap()
        .send_message("x", None, NOW)
        .expect("prepared");
    let err = transport_error(
        request.method,
        request.url.path.as_str(),
        "connection refused",
    );
    assert!(matches!(err, AzureError::Network(_)));
    assert!(err.is_retryable());
    assert_eq!(
        err.to_string(),
        "Network error: Service Bus POST /orders/messages failed: connection refused"
    );
}

#[test]
fn connection_string_keys_are_trimmed_and_case_insensitive() {
    let client = ServiceBusClient::from_connection_string(
        " ; ENDPOINT = sb://bus.example.net// ;sharedAccessKeyNAME= p ;x=y; SharedAccessKey = k= ;",
    )
    .ok()
    .unwrap();
    assert_eq!(client.namespace(), "bus");
    assert_eq!(client.policy_name(), "p");
    assert_eq!(
        client.authorization("s", 0).unwrap(),
        sas_token("s", "p", "k=", 3600)
    );
    let last = ServiceBusClient::from_connection_string(
        "Endpoint=sb://a.x;Endpoint=sb://b.x;SharedAccessKeyName=p;SharedAccessKey=k",
    )
    .ok()
    .unwrap();
    assert_eq!(last.namespace(), "b");
}

#[test]
fn connection_string_errors_are_told_apart() {
    let error = |conn: &str| {
        ServiceBusClient::from_connection_string(conn)
            .err()
            .expect("error")
            .to_string()
    };
    assert_eq!(
        error("Endpoint=sb://a.x;c2VjcmV0"),
        "Configuration error: invalid Service Bus connection string segment (missing '='): \
         <redacted>"
    );
    assert_eq!(
        error("SharedAccessKeyName=p;SharedAccessKey=k"),
        "Configuration error: Service Bus connection string missing 'Endpoint'"
    );
    assert_eq!(
        error("Endpoint=sb://.x/;SharedAccessKey=k"),
        "Configuration error: could not parse namespace from Service Bus endpoint 'sb://.x/'"
    );
    assert_eq!(
        error("Endpoint=sb://a.x;SharedAccessKey=k"),
        "Configuration error: Service Bus connection string missing 'SharedAccessKeyName'"
    );
    assert_eq!(
        error("Endpoint=sb://a.x;SharedAccessKeyName=p"),
        "Configuration error: Service Bus connection string missing 'SharedAccessKey'"
    );
    assert_eq!(
        error(""),
        "Configuration error: Service Bus connection string missing 'Endpoint'"
    );
}

#[test]
fn namespaces_are_read_from_endpoints() {
    assert_eq!(
        parse_namespace("sb://mybus.servicebus.windows.net/").unwrap(),
        "mybus"
    );
    assert_eq!(parse_namespace("mybus").unwrap(), "mybus");
    assert_eq!(parse_namespace("x://sb://inner.example///").unwrap(), "inner");
    let client = ServiceBusClient::new("mybus", POLICY, KEY);
    assert_eq!(
        parse_namespace(client.endpoint()).unwrap(),
        client.namespace()
    );
    assert!(parse_namespace("sb:///").is_err());
    assert!(parse_namespace("").is_err());
}

#[test]
fn endpoint_errors_name_the_endpoint() {
    let client = ServiceBusClient::new("mybus", "policy", KEY);
    let error = |endpoint: &str| {
        client
            .clone()
            .with_endpoint(endpoint)
            .err()
            .expect("error")
            .to_string()
    };
    assert_eq!(
        error("nowhere"),
        "Configuration error: invalid Service Bus endpoint 'nowhere': relative URL without a base"
    );
    assert_eq!(
        error("http://bus.example/"),
        "Configuration error: Service Bus endpoint 'http://bus.example' uses 'http': only https, \
         or http on a loopback host, is allowed"
    );
    assert_eq!(
        error("https://bus.example/#top"),
        "Configuration error: Service Bus endpoint 'https://bus.example/#top' must be a plain \
         scheme://host[:port][/path] URL"
    );
    assert!(client.clone().with_endpoint("http://LOCALHOST:1").is_ok());
    assert!(client.clone().with_endpoint("http://127.9.9.9").is_ok());
    assert!(client.clone().with_endpoint("http://128.0.0.1").is_err());
    assert!(client.clone().with_endpoint("http://[::2]").is_err());
    assert!(check_endpoint("x", &Err("no".to_string())).is_err());
}

#[test]
fn an_unusable_namespace_shows_when_an_entity_is_asked_for() {
    let client = ServiceBusClient::new("my bus", "policy", KEY);
    assert!(client.has_room_for("orders"));
    let error = client.queue("orders").err().expect("error").to_string();
    assert!(
        error.starts_with(
            "Configuration error: invalid Service Bus endpoint \
             'https://my bus.servicebus.windows.net': "
        ),
        "{error}"
    );
}

#[test]
fn names_are_validated() {
    assert!(validate_name("entity", "a/b").is_ok());
    for name in ["", "/", "/a", "a/", "a//b"] {
        let error = validate_name("entity", name).err().expect("error");
        assert_eq!(
            error.to_string(),
            format!(
                "Configuration error: Service Bus entity name '{name}' is empty or has an empty \
                 path segment"
            )
        );
    }
}

#[test]
fn segments_are_percent_encoded() {
    let client = ServiceBusClient::new("mybus", "policy", KEY)
        .with_endpoint("https://host.example:8443/base/")
        .ok()
        .unwrap();
    let queue = client.queue("a b/ü%?").ok().unwrap();
    assert_eq!(
        queue.entity().scope(),
        "https://host.example:8443/base/a%20b/%C3%BC%25%3F"
    );
    let topic = client.topic("t").ok().unwrap();
    let receiver = topic.subscription_receiver("x/y").ok().unwrap();
    assert_eq!(
        receiver.entity().scope(),
        "https://host.example:8443/base/t/subscriptions/x%2Fy"
    );
    // `.` and `..` name no segment.
    let dots = client.queue("./a/..").ok().unwrap();
    assert_eq!(
        dots.entity().messages_url().as_text(),
        "https://host.example:8443/base/a/messages"
    );
    assert_eq!(queue.name(), "a b/ü%?");
    assert_eq!(
        queue.debug_fields(),
        vec![
            ("queue", "a b/ü%?".to_string()),
            ("url", queue.entity().scope()),
        ]
    );
    assert_eq!(topic.debug_fields()[0], ("topic", "t".to_string()));
    assert_eq!(
        topic.topic_sender().debug_fields(),
        vec![("url", topic.entity().scope())]
    );
    assert_eq!(
        receiver.debug_fields(),
        vec![("url", receiver.entity().scope())]
    );
    assert_eq!(receiver.name(), "x/y");
    assert_eq!(topic.name(), "t");
}

#[test]
fn tabs_and_line_breaks_are_left_out_of_segments() {
    let client = local_client();
    let scope = |name: &str| {
        let queue = client.queue(name).ok().unwrap();
        queue.entity().scope().replace(SERVER, "")
    };
    assert_eq!(scope("or\tders"), "/orders");
    assert_eq!(scope("a\r\n b/c"), "/a%20b/c");
    assert_eq!(scope("\tü\n"), "/%C3%BC");
    assert_eq!(scope("a/\t/b"), "/a//b");
    assert_eq!(scope("a/.\t/b"), "/a//b");
    assert_eq!(scope("\n./b"), "/b");
    assert_eq!(scope("a/...\t"), "/a/...");
    let topic = client.topic("t").ok().unwrap();
    let receiver = topic.subscription_receiver("x\ny").ok().unwrap();
    assert_eq!(
        receiver.entity().scope(),
        format!("{SERVER}/t/subscriptions/xy")
    );
}

#[test]
fn addresses_follow_what_the_endpoint_is_read_as() {
    let mut base = local_queue("q").entity().messages_url();
    assert!(check_address("e", &Ok(base.clone()), "a/b", None).is_ok());
    assert!(check_address("e", &Ok(base.clone()), "a", Some("s")).is_ok());
    let error = |base: &Result<armature_azure::uri::UrlParts, String>, name: &str, sub| {
        check_address("e", base, name, sub)
            .err()
            .expect("error")
            .to_string()
    };
    assert_eq!(
        error(&Err("no".to_string()), "a", None),
        "Configuration error: invalid Service Bus endpoint 'e': no"
    );
    assert!(error(&Err("no".to_string()), "a//b", None).contains("entity name 'a//b'"));
    assert!(error(&Ok(base.clone()), "a", Some("")).contains("subscription name ''"));
    base.cannot_be_a_base = true;
    assert_eq!(
        error(&Ok(base), "a", None),
        "Configuration error: Service Bus endpoint 'e' cannot carry a path"
    );
}

#[test]
fn tokens_carry_the_signature_they_are_given() {
    assert_eq!(string_to_sign("a b/*", 7), "a+b%2F*\n7");
    assert_eq!(
        token_with_signature("a b", "p&q", 10, &vec![0, 0, 62, 255]),
        "SharedAccessSignature sr=a+b&sig=AAA%2B%2Fw%3D%3D&se=10&skn=p%26q"
    );
    assert_eq!(
        token_with_signature("", "", 0, &vec![]),
        "SharedAccessSignature sr=&sig=&se=0&skn="
    );
}

#[test]
fn requests_carry_the_token_they_are_given() {
    let request = |body: Option<String>| Request {
        method: Method::Put,
        url: local_queue("q").entity().head_url(),
        headers: response_headers(&[("authorization", "old"), ("x", "y")]),
        body,
        timeout: Span { secs: 1, nanos: 2 },
    };
    let signed = sign_request(request(None), "token").expect("room");
    assert_eq!(header_of(&signed, "authorization"), "token");
    assert!(signed.headers["authorization"].is_sensitive());
    assert_eq!(signed.headers.get_all("authorization").iter().count(), 1);
    assert_eq!(header_of(&signed, "content-length"), "0");
    assert_eq!(header_of(&signed, "x"), "y");
    assert_eq!(signed.method, Method::Put);
    assert_eq!(signed.timeout, Span { secs: 1, nanos: 2 });
    let signed = sign_request(request(Some("body".to_string())), "token").expect("room");
    assert!(signed.headers.get("content-length").is_none());
    assert_eq!(signed.body.as_deref(), Some("body"));
}

#[test]
fn signing_needs_a_time_after_the_epoch() {
    let client = ServiceBusClient::new("mybus", "policy", KEY);
    assert!(client.authorization("s", -3600).unwrap().contains("&se=0&"));
    let early = client.authorization("s", -3601).err().expect("error");
    assert_eq!(
        early.to_string(),
        "Authentication error: system clock is before the UNIX epoch"
    );
    assert!(client.authorization("s", i64::MAX).is_err());
    assert!(client.authorization("s", i64::MAX - 3600).is_ok());
    let queue = client.queue("q").ok().unwrap();
    assert!(queue.send_message("x", None, i64::MIN).is_err());
}

#[test]
fn waits_are_rounded_up_and_added_to_the_timeout() {
    assert_eq!(round_up(Span { secs: 0, nanos: 0 }), 0);
    assert_eq!(round_up(Span { secs: 0, nanos: 1 }), 1);
    assert_eq!(round_up(Span { secs: 5, nanos: 0 }), 5);
    assert_eq!(
        round_up(Span {
            secs: 5,
            nanos: 999_999_999
        }),
        6
    );
    assert_eq!(timeout_for(0), Span { secs: 30, nanos: 0 });
    assert_eq!(
        timeout_for(u64::MAX - 30),
        Span {
            secs: u64::MAX,
            nanos: 0
        }
    );
    assert_eq!(
        timeout_for(u64::MAX - 29),
        Span {
            secs: u64::MAX,
            nanos: 999_999_999
        }
    );
    let request = local_queue("q")
        .peek_lock(
            Some(Span {
                secs: u64::MAX,
                nanos: 0,
            }),
            NOW,
        )
        .ok()
        .unwrap();
    assert_eq!(
        request.url.query.as_deref(),
        Some("timeout=18446744073709551615")
    );
}

#[test]
fn the_longest_wait_stays_long() {
    let longest = std::time::Duration::MAX;
    let wait = Span {
        secs: longest.as_secs(),
        nanos: longest.subsec_nanos(),
    };
    assert_eq!(round_up(wait), u64::MAX);
    let queue = local_queue("q");
    for request in [
        queue.peek_lock(Some(wait), NOW),
        queue.peek_lock_message(Some(wait), NOW),
        queue.entity().peek_lock_request(Some(wait), NOW),
    ] {
        let request = request.ok().unwrap();
        assert_eq!(
            request.url.query.as_deref(),
            Some("timeout=18446744073709551615")
        );
        assert_eq!(request.timeout.secs, u64::MAX);
    }
}

#[test]
fn connection_strings_may_be_spelled_in_many_ways() {
    let read = |conn: &str| {
        let client = ServiceBusClient::from_connection_string(conn).ok().unwrap();
        (
            client.namespace().to_string(),
            client.policy_name().to_string(),
            client.endpoint().to_string(),
            client.authorization("s", NOW).unwrap(),
        )
    };
    let plain = read("Endpoint=sb://a.x/;SharedAccessKeyName=p;SharedAccessKey=k==");
    for conn in [
        "ENDPOINT=sb://a.x/;sharedaccesskeyname=p;SHAREDaccessKEY=k==",
        "  Endpoint =\tsb://a.x/ ; SharedAccessKeyName\u{3000}= p;SharedAccessKey= k== ",
        ";;Endpoint=sb://a.x/; ;SharedAccessKeyName=p;SharedAccessKey=k==;",
        "EntityPath=q;Endpoint=sb://a.x/;SharedAccessKeyName=p;X=;SharedAccessKey=k==",
        "SharedAccessKey=k==;Endpoint=sb://a.x/;SharedAccessKeyName=p",
    ] {
        assert_eq!(read(conn), plain, "{conn}");
    }
    // Where a keyword is set twice, the order of the two matters.
    let twice = read("Endpoint=sb://b.x/;Endpoint=sb://a.x/;SharedAccessKeyName=p;SharedAccessKey=k==");
    assert_eq!(twice, plain);
}

#[test]
fn subscriptions_have_the_scope_of_their_topic_and_name() {
    let topic = local_client().topic("team/events").ok().unwrap();
    let scope = topic.entity().scope();
    let receiver = topic.subscription_receiver("audit").ok().unwrap();
    assert_eq!(
        receiver.entity().scope(),
        format!("{scope}/subscriptions/audit")
    );
    assert_eq!(topic.entity().scope(), scope);
}

#[test]
fn messages_can_be_sent_if_there_is_room() {
    let options = || SendMessageOptions::new().custom_property("a", "b");
    let queue = local_queue("orders");
    let plain = queue.send_message("x", Some(options()), NOW).ok().unwrap();
    let roomy = queue
        .send_message_if_room("x", Some(options()), NOW)
        .expect("room")
        .expect("request");
    assert_eq!(plain.headers, roomy.headers);
    let topic = local_client().topic("events").ok().unwrap();
    let sent = topic.topic_sender().send_message_if_room("x", None, NOW);
    assert!(matches!(sent, Some(Ok(_))));
    let bad = SendMessageOptions::new().custom_property("bad name", "v");
    assert!(matches!(bad.headers_if_room(), Some(Err(_))));
    assert!(bad.is_written());
}

#[test]
fn a_query_of_the_namespace_stays_in_front_of_the_wait() {
    // A namespace is put into the endpoint as it is.
    let client = ServiceBusClient::new("host/?a=1&", "policy", KEY);
    let queue = client.queue("q").ok().unwrap();
    let request = queue
        .peek_lock(Some(Span { secs: 2, nanos: 0 }), NOW)
        .ok()
        .unwrap();
    assert_eq!(
        request.url.as_text(),
        "https://host/q/messages/head?a=1&.servicebus.windows.net&timeout=2"
    );
}

#[test]
fn custom_properties_keep_their_place_and_take_the_last_value() {
    let options = SendMessageOptions::new()
        .custom_property("One", "1")
        .custom_property("two", "2")
        .custom_property("One", "3");
    let custom = options.custom_properties.as_ref().unwrap();
    assert_eq!(custom.len(), 2);
    assert_eq!(custom.name_at(0), "One");
    assert_eq!(custom.value_at(0), "3");
    let headers = options.clone().to_headers().unwrap();
    assert_eq!(headers.get("one").unwrap(), "3");
    assert_eq!(headers.get("two").unwrap(), "2");
    assert_eq!(headers.len(), 2);
}

#[test]
fn options_cannot_replace_the_signature() {
    let options = SendMessageOptions::new().custom_property("Authorization", "Bearer x");
    let queue = local_queue("orders");
    let plain = queue.send_message("x", None, NOW).ok().unwrap();
    let forged = queue.send_message("x", Some(options), NOW).ok().unwrap();
    assert_eq!(forged.headers.get_all("authorization").iter().count(), 1);
    assert_eq!(
        header_of(&forged, "authorization"),
        header_of(&plain, "authorization")
    );
}

#[test]
fn invalid_headers_are_named() {
    let error = |options: SendMessageOptions| options.to_headers().err().unwrap().to_string();
    assert_eq!(
        error(SendMessageOptions::new().custom_property("bad name", "v")),
        "Configuration error: invalid Service Bus custom property name 'bad name'"
    );
    assert_eq!(
        error(SendMessageOptions::new().custom_property("ok", "a\nb")),
        "Configuration error: invalid value for Service Bus header 'ok'"
    );
    assert_eq!(
        error(SendMessageOptions::new().content_type("a\0")),
        "Configuration error: invalid value for Service Bus header 'Content-Type'"
    );
    let broker = SettableBrokerProperties::new().label("\u{7f}");
    assert_eq!(
        error(SendMessageOptions::new().broker_properties(broker)),
        "Configuration error: invalid value for Service Bus header 'BrokerProperties'"
    );
    assert!(header_value("x", "tab\tand ü").is_ok());
    assert!(header_value("x", "\r").is_err());
}

#[test]
fn broker_properties_are_written_as_json() {
    assert_eq!(SettableBrokerProperties::new().to_json(), "{}");
    let properties = SettableBrokerProperties::new()
        .correlation_id("c\"1")
        .session_id("s")
        .message_id("m")
        .label("l\u{1}")
        .reply_to("r")
        .time_to_live(Span {
            secs: 30,
            nanos: 500_000_000,
        })
        .to("t")
        .scheduled_enqueue_time_utc(UnixTime { secs: 784_111_777 })
        .reply_to_session_id("rs")
        .partition_key("p");
    assert!(properties.is_writable());
    assert_eq!(
        properties.to_json(),
        "{\"CorrelationId\":\"c\\\"1\",\"SessionId\":\"s\",\"MessageId\":\"m\",\
         \"Label\":\"l\\u0001\",\"ReplyTo\":\"r\",\"TimeToLive\":30.5,\"To\":\"t\",\
         \"ScheduledEnqueueTimeUtc\":\"Sun, 06 Nov 1994 08:49:37 GMT\",\
         \"ReplyToSessionId\":\"rs\",\"PartitionKey\":\"p\"}"
    );
    let control = SettableBrokerProperties::new().label("\u{8}\t\n\u{c}\r\u{1f}\\/ü");
    assert_eq!(
        control.to_json(),
        "{\"Label\":\"\\b\\t\\n\\f\\r\\u001f\\\\/ü\"}"
    );
    assert!(SendMessageOptions::new()
        .broker_properties(control)
        .to_headers()
        .is_ok());
    let whole = SettableBrokerProperties::new().time_to_live(Span { secs: 60, nanos: 0 });
    assert_eq!(whole.to_json(), "{\"TimeToLive\":60.0}");
    assert_eq!(
        SettableBrokerProperties::new()
            .label("l")
            .to("t")
            .json_with(Some("7".to_string()), Some("a \"date\"".to_string())),
        "{\"Label\":\"l\",\"TimeToLive\":7,\"To\":\"t\",\
         \"ScheduledEnqueueTimeUtc\":\"a \\\"date\\\"\"}"
    );
}

#[test]
fn options_are_copied_as_they_are() {
    let none = SendMessageOptions::new().clone();
    assert!(none.content_type.is_none() && none.broker_properties.is_none());
    assert!(none.custom_properties.is_none());
    let mut empty = SendMessageOptions::new();
    empty.custom_properties = Some(NameMap::new());
    assert_eq!(empty.clone().custom_properties.map(|c| c.len()), Some(0));
    let full = SendMessageOptions::new()
        .content_type("text/plain")
        .broker_properties(SettableBrokerProperties::new().label("l"))
        .custom_property("b", "1")
        .custom_property("a", "2")
        .clone();
    assert_eq!(full.content_type.as_deref(), Some("text/plain"));
    assert_eq!(full.broker_properties.unwrap().to_json(), "{\"Label\":\"l\"}");
    let custom = full.custom_properties.unwrap();
    assert_eq!((custom.name_at(0), custom.name_at(1)), ("b", "a"));
    assert_eq!(custom.get("a").map(String::as_str), Some("2"));
}

#[test]
fn times_without_an_http_form_are_not_writable() {
    let at = |secs: i64| {
        SettableBrokerProperties::new().scheduled_enqueue_time_utc(UnixTime { secs })
    };
    assert!(!at(-1).is_writable());
    assert!(at(0).is_writable());
    assert!(at(253_402_300_799).is_writable());
    assert!(!at(253_402_300_800).is_writable());
    let long = SettableBrokerProperties::new().time_to_live(Span {
        secs: 0,
        nanos: 1_000_000_000,
    });
    assert!(!long.is_writable());
    assert!(!SendMessageOptions::new()
        .broker_properties(at(-1))
        .is_sendable());
}

#[test]
fn http_dates_are_read_back() {
    for secs in [0i64, 1, 784_111_777, 1_700_000_000, 253_402_300_799] {
        let text = serialize_http_date(UnixTime { secs });
        assert_eq!(
            deserialize_http_date(Some(text.as_str())),
            Ok(Some(UnixTime { secs }))
        );
    }
    assert_eq!(
        serialize_http_date(UnixTime { secs: 784_111_777 }),
        "Sun, 06 Nov 1994 08:49:37 GMT"
    );
    assert_eq!(
        deserialize_http_date(Some("Sunday, 06-Nov-94 08:49:37 GMT")),
        Ok(Some(UnixTime { secs: 784_111_777 }))
    );
    assert_eq!(deserialize_http_date(None), Ok(None));
    assert_eq!(
        deserialize_http_date(Some("yesterday")),
        Err("string contains no or an invalid date".to_string())
    );
}

#[test]
fn statuses_are_told_apart() {
    for status in [200u16, 201, 204, 299] {
        assert!(check_status(Method::Put, "/q", status, Ok(String::new())).is_ok());
    }
    for status in [401u16, 403] {
        let err = check_status(Method::Put, "/q", status, Ok(String::new())).unwrap_err();
        assert!(matches!(err, AzureError::Auth(_)));
        assert_eq!(err.status(), None);
        assert!(!err.is_retryable());
    }
    for status in [408u16, 429, 500, 502, 503, 504] {
        let err = check_status(Method::Put, "/q", status, Ok(String::new())).unwrap_err();
        assert_eq!(err.status(), Some(status));
        assert!(err.is_retryable());
    }
    for status in [100u16, 199, 300, 301, 400, 404, 410, 501, 505, 999] {
        let err = check_status(Method::Put, "/q", status, Ok(String::new())).unwrap_err();
        assert_eq!(err.status(), Some(status));
        assert!(!err.is_retryable());
    }
    let err = check_status(Method::Put, "/q", 410, Ok(" gone \n".to_string())).unwrap_err();
    assert_eq!(
        err.to_string(),
        "Azure service error: Service Bus PUT /q returned 410 Gone: gone"
    );
    let err = check_status(Method::Put, "/q", 500, Err("cut off".to_string())).unwrap_err();
    assert_eq!(
        err.to_string(),
        "Azure service error: Service Bus PUT /q returned 500 Internal Server Error: \
         <response body unreadable: cut off>"
    );
    let err = status_error(Method::Put, "/q", 418, "a teapot", Ok(" short ".to_string()));
    assert_eq!(
        err.to_string(),
        "Azure service error: Service Bus PUT /q returned a teapot: short"
    );
    assert_eq!(err.status(), Some(418));
    let err = status_error(Method::Put, "/q", 401, "no", Err("lost".to_string()));
    assert_eq!(
        err.to_string(),
        "Authentication error: Service Bus PUT /q returned no: <response body unreadable: lost>"
    );
    let err = read_body(Err("cut off".to_string())).unwrap_err();
    assert_eq!(
        err.to_string(),
        "Network error: failed to read Service Bus response: cut off"
    );
}

#[test]
fn response_headers_are_collected_lossily() {
    let mut headers = HeaderMap::new();
    headers.append("x-one", HeaderValue::from_static("1"));
    headers.append("X-One", HeaderValue::from_static("2"));
    headers.insert("bad", HeaderValue::from_bytes(b"a\xffb").unwrap());
    headers.insert("good", HeaderValue::from_bytes("ü".as_bytes()).unwrap());
    let texts = collect_headers(&headers);
    assert_eq!(texts.len(), 3);
    assert_eq!(texts.get("x-one").map(String::as_str), Some("2"));
    assert_eq!(texts.get("bad").map(String::as_str), Some("a\u{fffd}b"));
    assert_eq!(texts.get("good").map(String::as_str), Some("ü"));
    assert_eq!(texts.get("X-One"), None);
}

#[test]
fn unreadable_lock_headers_are_service_errors() {
    let queue = local_queue("orders");
    let mut headers = HeaderMap::new();
    headers.insert("location", HeaderValue::from_bytes(b"\xff").unwrap());
    assert_eq!(
        lock(&queue, 201, &headers, "").err().unwrap().to_string(),
        "Azure service error: Service Bus lock location is not valid UTF-8"
    );
    let mut headers = HeaderMap::new();
    headers.insert("brokerproperties", HeaderValue::from_bytes(b"\xff").unwrap());
    assert_eq!(
        lock(&queue, 201, &headers, "").err().unwrap().to_string(),
        "Azure service error: BrokerProperties header is not valid UTF-8"
    );
    let headers = response_headers(&[("location", "nowhere")]);
    assert_eq!(
        lock(&queue, 201, &headers, "").err().unwrap().to_string(),
        "Azure service error: invalid Service Bus lock location: relative URL without a base"
    );
}

#[test]
fn lock_locations_must_lie_below_the_messages() {
    let queue = local_queue("orders");
    let location = |text: &str| queue.entity().lock_location(text);
    assert!(location("http://127.0.0.1:5300/orders/messages/1/2").is_ok());
    assert!(location("http://127.0.0.1:5300/orders/messages/1/2?x=1").is_ok());
    assert!(location("http://127.0.0.1:5300/orders/messages/1#x").is_err());
    assert!(location("https://127.0.0.1:5300/orders/messages/1").is_err());
    assert!(location("http://127.0.0.2:5300/orders/messages/1").is_err());
    assert!(location("http://127.0.0.1:5300/orders/messages").is_err());
    assert!(location("http://127.0.0.1:5300/orders/messages/../../x").is_err());
    assert_eq!(
        location("http://127.0.0.1:5301/orders/messages/1")
            .err()
            .unwrap()
            .to_string(),
        "Azure service error: Service Bus returned a lock location outside /orders; refusing to \
         send credentials to it"
    );
}

#[test]
fn the_port_of_the_scheme_counts_as_the_port() {
    let queue = ServiceBusClient::new("mybus", POLICY, KEY)
        .queue("orders")
        .ok()
        .unwrap();
    assert!(queue
        .entity()
        .lock_location("https://mybus.servicebus.windows.net:443/orders/messages/1")
        .is_ok());
    assert!(queue
        .entity()
        .lock_location("https://MYBUS.servicebus.windows.net/orders/messages/1")
        .is_ok());
    assert!(queue
        .entity()
        .lock_location("https://mybus.servicebus.windows.net:444/orders/messages/1")
        .is_err());
}

#[test]
fn an_unread_body_fails_the_lock() {
    let queue = local_queue("orders");
    let head = queue.peek_lock_response(201, &HeaderMap::new()).ok().unwrap();
    assert!(head.broker_text().is_none());
    let err = head
        .finish(None, Err("cut off".to_string()))
        .err()
        .expect("error");
    assert!(matches!(err, AzureError::Network(_)));
}
