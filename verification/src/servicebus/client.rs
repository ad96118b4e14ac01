//! The client of a namespace: where it sends requests and how it signs them.
use vstd::prelude::*;
use vstd::string::*;
use vstd::utf8::*;

use crate::encoding::{
    base64_encode, base64_encoded, form_encode, form_encoded, hmac_sha256, hmac_sha256_of,
    lemma_form_encoded_visible, visible,
};
use crate::error::{agrees, AzureError, ErrorView, Result};
use crate::headers::valid_value;
use crate::text::{
    after_first, after_last_separator, before_first, clone_text, decimal, decimal_text, is_word,
    lowercase, optional, pieces, same_text, split, split_once, text_after_separator, text_before,
    trim, trim_end_slashes, trimmed, views, without_trailing_slashes,
};
use crate::uri::{is_loopback, parse_url, parse_view, url_parse, UrlHost, UrlParts, UrlView};

verus! {

/// Lifetime of each generated SAS token, in seconds.
pub const SAS_TTL: i64 = 3_600;

/// Configuration of Service Bus, for when there is no connection string.
#[derive(Debug)]
pub struct ServiceBusServiceConfig {
    /// Service Bus namespace.
    pub namespace: Option<String>,
    /// Shared Access Signature policy name (e.g. `RootManageSharedAccessKey`).
    pub policy_name: String,
    /// Shared Access Signature key.
    pub shared_access_key: String,
}

impl Clone for ServiceBusServiceConfig {
    fn clone(&self) -> (r: Self)
        ensures
            r == *self,
    {
        ServiceBusServiceConfig {
            namespace: clone_text(&self.namespace),
            policy_name: self.policy_name.clone(),
            shared_access_key: self.shared_access_key.clone(),
        }
    }
}

/// Client of a Service Bus namespace.
///
/// # Delivery
///
/// Requests are not retried. A send that fails with [`AzureError::Network`] may or may not have
/// been enqueued: give the message an identifier and enable duplicate detection on the entity
/// before sending it again. [`AzureError::is_retryable`] tells transient failures from permanent
/// ones.
pub struct ServiceBusClient {
    namespace: String,
    policy_name: String,
    shared_access_key: String,
    endpoint: String,
    base: std::result::Result<UrlParts, String>,
}

/// What a [`ServiceBusClient`] is made of, as characters.
pub struct ClientView {
    pub namespace: Seq<char>,
    pub policy_name: Seq<char>,
    pub shared_access_key: Seq<char>,
    pub endpoint: Seq<char>,
}

impl View for ServiceBusClient {
    type V = ClientView;

    closed spec fn view(&self) -> ClientView {
        ClientView {
            namespace: self.namespace@,
            policy_name: self.policy_name@,
            shared_access_key: self.shared_access_key@,
            endpoint: self.endpoint@,
        }
    }
}

/// The endpoint of a namespace.
pub open spec fn namespace_endpoint(namespace: Seq<char>) -> Seq<char> {
    "https://"@ + namespace + ".servicebus.windows.net"@
}

/// The client of a namespace under a policy.
pub open spec fn client_of(
    namespace: Seq<char>,
    policy_name: Seq<char>,
    shared_access_key: Seq<char>,
) -> ClientView {
    ClientView {
        namespace,
        policy_name,
        shared_access_key,
        endpoint: namespace_endpoint(namespace),
    }
}

/// The namespace that an endpoint such as `sb://mybus.servicebus.windows.net/` names: what stands
/// before the first dot behind the last `://`, trailing slashes left out.
pub open spec fn namespace_in(endpoint: Seq<char>) -> Seq<char> {
    before_first(without_trailing_slashes(after_last_separator(endpoint)), '.')
}

/// The outcome of reading the namespace in an endpoint.
pub open spec fn parsed_namespace(endpoint: Seq<char>) -> std::result::Result<
    Seq<char>,
    ErrorView,
> {
    if namespace_in(endpoint).len() == 0 {
        Err(
            ErrorView::Config(
                "could not parse namespace from Service Bus endpoint '"@ + endpoint + "'"@,
            ),
        )
    } else {
        Ok(namespace_in(endpoint))
    }
}

/// Whether a part of a connection string is neither blank nor a setting.
pub open spec fn malformed(part: Seq<char>) -> bool {
    trimmed(part).len() > 0 && !trimmed(part).contains('=')
}

/// Whether a part of a connection string sets `key`, whatever the case of its letters.
pub open spec fn sets(part: Seq<char>, key: Seq<char>) -> bool {
    trimmed(part).contains('=') && lowercase(trimmed(before_first(trimmed(part), '='))) == key
}

/// The value in a part of a connection string: all that follows the first equals sign.
pub open spec fn set_value(part: Seq<char>) -> Seq<char> {
    trimmed(after_first(trimmed(part), '='))
}

/// The value that the parts of a connection string give to `key`; the last one counts.
pub open spec fn last_value(parts: Seq<Seq<char>>, key: Seq<char>) -> Option<Seq<char>>
    decreases parts.len(),
{
    if parts.len() == 0 {
        None
    } else if sets(parts.last(), key) {
        Some(set_value(parts.last()))
    } else {
        last_value(parts.drop_last(), key)
    }
}

/// The error for a part of a connection string that is no setting. It does not show the part,
/// which may be a bare key.
pub open spec fn malformed_part() -> ErrorView {
    ErrorView::Config("invalid Service Bus connection string segment (missing '='): <redacted>"@)
}

/// The outcome of reading a connection string.
pub open spec fn parsed_connection(conn: Seq<char>) -> std::result::Result<ClientView, ErrorView> {
    let parts = pieces(conn, ';');
    if exists|i: int| 0 <= i < parts.len() && malformed(#[trigger] parts[i]) {
        Err(malformed_part())
    } else {
        match last_value(parts, "endpoint"@) {
            None => Err(ErrorView::Config("Service Bus connection string missing 'Endpoint'"@)),
            Some(endpoint) => match parsed_namespace(endpoint) {
                Err(e) => Err(e),
                Ok(namespace) => match last_value(parts, "sharedaccesskeyname"@) {
                    None => Err(
                        ErrorView::Config(
                            "Service Bus connection string missing 'SharedAccessKeyName'"@,
                        ),
                    ),
                    Some(policy_name) => match last_value(parts, "sharedaccesskey"@) {
                        None => Err(
                            ErrorView::Config(
                                "Service Bus connection string missing 'SharedAccessKey'"@,
                            ),
                        ),
                        Some(key) => Ok(client_of(namespace, policy_name, key)),
                    },
                },
            },
        }
    }
}

/// The error for an endpoint that is no URL.
pub open spec fn invalid_endpoint(endpoint: Seq<char>, e: Seq<char>) -> ErrorView {
    ErrorView::Config("invalid Service Bus endpoint '"@ + endpoint + "': "@ + e)
}

/// Whether the scheme of a URL keeps signatures off the network in clear: it is `https`, or `http`
/// on this machine.
pub open spec fn safe_scheme(url: UrlView) -> bool {
    url.scheme == "https"@ || url.scheme == "http"@ && url.loopback()
}

/// Whether an endpoint that is a URL keeps signatures off the network in clear.
pub open spec fn secure(base: std::result::Result<UrlView, Seq<char>>) -> bool {
    base matches Ok(url) ==> safe_scheme(url) && !url.cannot_be_a_base
}

/// Whether a URL has a host, a path with segments, and neither query nor fragment.
pub open spec fn plain_url(url: UrlView) -> bool {
    !url.cannot_be_a_base && url.host != UrlHost::Missing && url.query is None
        && url.fragment is None
}

/// Whether requests may be sent to an endpoint, given what it is read as.
pub open spec fn endpoint_verdict(
    endpoint: Seq<char>,
    url: std::result::Result<UrlView, Seq<char>>,
) -> std::result::Result<(), ErrorView> {
    match url {
        Err(e) => Err(invalid_endpoint(endpoint, e)),
        Ok(url) => if !safe_scheme(url) {
            Err(
                ErrorView::Config(
                    "Service Bus endpoint '"@ + endpoint + "' uses '"@ + url.scheme
                        + "': only https, or http on a loopback host, is allowed"@,
                ),
            )
        } else if !plain_url(url) {
            Err(
                ErrorView::Config(
                    "Service Bus endpoint '"@ + endpoint
                        + "' must be a plain scheme://host[:port][/path] URL"@,
                ),
            )
        } else {
            Ok(())
        },
    }
}

/// The outcome of giving a client another endpoint.
pub open spec fn redirected(client: ClientView, endpoint: Seq<char>) -> std::result::Result<
    ClientView,
    ErrorView,
> {
    let plain = without_trailing_slashes(endpoint);
    match endpoint_verdict(plain, url_parse(plain)) {
        Ok(_) => Ok(ClientView { endpoint: plain, ..client }),
        Err(e) => Err(e),
    }
}

/// Extract the namespace from a Service Bus endpoint such as
/// `sb://mybus.servicebus.windows.net/` -> `mybus`.
pub fn parse_namespace(endpoint: &str) -> (r: Result<String>)
    ensures
        agrees(r, parsed_namespace(endpoint@)),
{
    let host = trim_end_slashes(text_after_separator(endpoint));
    let namespace = text_before(host, '.');
    if same_text(namespace, "") {
        proof {
            reveal_strlit("");
        }
        return Err(
            AzureError::Config(
                "could not parse namespace from Service Bus endpoint '".to_string().concat(
                    endpoint,
                ).concat("'"),
            ),
        );
    }
    proof {
        reveal_strlit("");
        assert(namespace@.len() == 0 ==> namespace@ =~= ""@);
    }
    Ok(namespace.to_string())
}

/// Whether requests may be sent to an endpoint, given what it was read as.
pub fn check_endpoint(endpoint: &str, url: &std::result::Result<UrlParts, String>) -> (r: Result<
    (),
>)
    ensures
        agrees(r, endpoint_verdict(endpoint@, parse_view(*url))),
{
    match url {
        Err(e) => Err(
            AzureError::Config(
                "invalid Service Bus endpoint '".to_string().concat(endpoint).concat("': ").concat(
                    e.as_str(),
                ),
            ),
        ),
        Ok(url) => {
            let scheme = url.scheme.as_str();
            if !(same_text(scheme, "https") || same_text(scheme, "http") && is_loopback(url)) {
                return Err(
                    AzureError::Config(
                        "Service Bus endpoint '".to_string().concat(endpoint).concat(
                            "' uses '",
                        ).concat(scheme).concat(
                            "': only https, or http on a loopback host, is allowed",
                        ),
                    ),
                );
            }
            if url.cannot_be_a_base || url.host == UrlHost::Missing || url.query.is_some()
                || url.fragment.is_some() {
                return Err(
                    AzureError::Config(
                        "Service Bus endpoint '".to_string().concat(endpoint).concat(
                            "' must be a plain scheme://host[:port][/path] URL",
                        ),
                    ),
                );
            }
            Ok(())
        },
    }
}

/// The text that a signature is made over: the form-encoded resource, a newline and the expiry.
pub open spec fn signed_text(scope: Seq<char>, expiry: u64) -> Seq<char> {
    form_encoded(encode_utf8(scope)) + "\n"@ + decimal(expiry as nat)
}

/// The SAS token that carries the signature `mac`.
pub open spec fn token_with(
    scope: Seq<char>,
    policy_name: Seq<char>,
    expiry: u64,
    mac: Seq<u8>,
) -> Seq<char> {
    "SharedAccessSignature sr="@ + form_encoded(encode_utf8(scope)) + "&sig="@ + form_encoded(
        encode_utf8(base64_encoded(mac)),
    ) + "&se="@ + decimal(expiry as nat) + "&skn="@ + form_encoded(encode_utf8(policy_name))
}

/// The SAS token for a resource: the signature is the HMAC-SHA256 of the text to sign, under the
/// bytes of the key.
pub open spec fn token_for(
    scope: Seq<char>,
    policy_name: Seq<char>,
    key: Seq<char>,
    expiry: u64,
) -> Seq<char> {
    token_with(
        scope,
        policy_name,
        expiry,
        hmac_sha256_of(encode_utf8(key), encode_utf8(signed_text(scope, expiry))),
    )
}

/// When a token made `now` (in seconds since the UNIX epoch) expires, where that is a time after
/// the epoch.
pub open spec fn expiry_at(now: i64) -> Option<u64> {
    if 0 <= now + SAS_TTL <= i64::MAX {
        Some((now + SAS_TTL) as u64)
    } else {
        None
    }
}

/// The outcome of making the value of the `Authorization` header.
pub open spec fn authorization_for(
    client: ClientView,
    scope: Seq<char>,
    now: i64,
) -> std::result::Result<Seq<char>, ErrorView> {
    match expiry_at(now) {
        None => Err(ErrorView::Auth("system clock is before the UNIX epoch"@)),
        Some(expiry) => Ok(
            token_for(scope, client.policy_name, client.shared_access_key, expiry),
        ),
    }
}

/// The text that a signature is made over.
pub fn string_to_sign(scope: &str, expiry: u64) -> (r: String)
    ensures
        r@ == signed_text(scope@, expiry),
{
    form_encode(scope).concat("\n").concat(decimal_text(expiry).as_str())
}

/// The SAS token that carries the signature `mac`.
pub fn token_with_signature(scope: &str, policy_name: &str, expiry: u64, mac: &Vec<u8>) -> (r:
    String)
    ensures
        r@ == token_with(scope@, policy_name@, expiry, mac@),
{
    let sr = form_encode(scope);
    let sig = form_encode(base64_encode(mac).as_str());
    let skn = form_encode(policy_name);
    let se = decimal_text(expiry);
    "SharedAccessSignature sr=".to_string().concat(sr.as_str()).concat("&sig=").concat(
        sig.as_str(),
    ).concat("&se=").concat(se.as_str()).concat("&skn=").concat(skn.as_str())
}

/// Build a Service Bus SAS token (`SharedAccessSignature sr=..&sig=..&se=..&skn=..`) for the
/// resource URI `scope`, valid until the UNIX time `expiry`.
pub fn sas_token(scope: &str, policy_name: &str, key: &str, expiry: u64) -> (r: String)
    ensures
        r@ == token_for(scope@, policy_name@, key@, expiry),
{
    let text = string_to_sign(scope, expiry);
    let mac = hmac_sha256(key.as_bytes(), text.as_str().as_bytes());
    token_with_signature(scope, policy_name, expiry, &mac)
}

/// Decimal digits are visible.
proof fn lemma_decimal_visible(n: nat)
    ensures
        visible(decimal(n)),
    decreases n,
{
    if n >= 10 {
        lemma_decimal_visible(n / 10);
    }
}

/// A SAS token is a valid header value, whatever it is made for.
pub proof fn token_is_header_value(
    scope: Seq<char>,
    policy_name: Seq<char>,
    expiry: u64,
    mac: Seq<u8>,
)
    ensures
        valid_value(token_with(scope, policy_name, expiry, mac)),
{
    reveal_strlit("SharedAccessSignature sr=");
    reveal_strlit("&sig=");
    reveal_strlit("&se=");
    reveal_strlit("&skn=");
    lemma_form_encoded_visible(encode_utf8(scope));
    lemma_form_encoded_visible(encode_utf8(base64_encoded(mac)));
    lemma_form_encoded_visible(encode_utf8(policy_name));
    lemma_decimal_visible(expiry as nat);
    let a = "SharedAccessSignature sr="@ + form_encoded(encode_utf8(scope));
    assert(valid_value(a));
    let b = a + "&sig="@;
    assert(valid_value(b));
    let c = b + form_encoded(encode_utf8(base64_encoded(mac)));
    assert(valid_value(c));
    let d = c + "&se="@;
    assert(valid_value(d));
    let e = d + decimal(expiry as nat);
    assert(valid_value(e));
    let f = e + "&skn="@;
    assert(valid_value(f));
}

impl Clone for ServiceBusClient {
    fn clone(&self) -> (r: Self)
        ensures
            r@ == self@,
            r.base() == self.base(),
            r.base() == url_parse(r@.endpoint),
            secure(r.base()),
    {
        proof {
            use_type_invariant(self);
        }
        let base = match &self.base {
            Ok(url) => Ok(url.clone()),
            Err(e) => Err(e.clone()),
        };
        ServiceBusClient {
            namespace: self.namespace.clone(),
            policy_name: self.policy_name.clone(),
            shared_access_key: self.shared_access_key.clone(),
            endpoint: self.endpoint.clone(),
            base,
        }
    }
}

impl ServiceBusClient {
    #[verifier::type_invariant]
    spec fn parsed(self) -> bool {
        &&& parse_view(self.base) == url_parse(self.endpoint@)
        &&& secure(parse_view(self.base))
    }

    /// What the endpoint is read as: a URL, or the text of the error.
    pub closed spec fn base(self) -> std::result::Result<UrlView, Seq<char>> {
        parse_view(self.base)
    }

    /// Create a client from an explicit namespace + SAS policy.
    pub fn new(namespace: &str, policy_name: &str, shared_access_key: &str) -> (r: Self)
        ensures
            r@ == client_of(namespace@, policy_name@, shared_access_key@),
            r.base() == url_parse(r@.endpoint),
            secure(r.base()),
    {
        let endpoint = "https://".to_string().concat(namespace).concat(".servicebus.windows.net");
        assert(endpoint@.take("https://"@.len() as int) =~= "https://"@);
        let base = parse_url(endpoint.as_str());
        ServiceBusClient {
            namespace: namespace.to_string(),
            policy_name: policy_name.to_string(),
            shared_access_key: shared_access_key.to_string(),
            endpoint,
            base,
        }
    }

    /// Parse a Service Bus connection string of the form
    /// `Endpoint=sb://<namespace>.servicebus.windows.net/;SharedAccessKeyName=<policy>;SharedAccessKey=<key>`.
    pub fn from_connection_string(conn: &str) -> (r: Result<Self>)
        ensures
            agrees(r, parsed_connection(conn@)),
            r matches Ok(client) ==> client.base() == url_parse(client@.endpoint) && secure(
                client.base(),
            ),
    {
        let mut endpoint: Option<String> = None;
        let mut policy_name: Option<String> = None;
        let mut shared_access_key: Option<String> = None;
        let parts = split(conn, ';');
        let ghost all = pieces(conn@, ';');
        let mut i: usize = 0;
        proof {
            reveal_strlit("endpoint");
            reveal_strlit("sharedaccesskeyname");
            reveal_strlit("sharedaccesskey");
        }
        while i < parts.len()
            invariant
                i <= parts.len(),
                views(parts@) == all,
                "endpoint"@.len() == 8,
                "sharedaccesskeyname"@.len() == 19,
                "sharedaccesskey"@.len() == 15,
                all == pieces(conn@, ';'),
                forall|j: int| 0 <= j < i ==> !malformed(#[trigger] all[j]),
                optional(endpoint) == last_value(all.take(i as int), "endpoint"@),
                optional(policy_name) == last_value(all.take(i as int), "sharedaccesskeyname"@),
                optional(shared_access_key) == last_value(all.take(i as int), "sharedaccesskey"@),
            decreases parts.len() - i,
        {
            let part = trim(parts[i]);
            proof {
                assert(all[i as int] == parts@[i as int]@);
                assert(all.take(i + 1).drop_last() =~= all.take(i as int));
                assert(all.take(i + 1).last() == all[i as int]);
                reveal_strlit("");
                assert(part@.len() == 0 ==> part@ =~= ""@);
            }
            if !same_text(part, "") {
                // Split on the first '=' only: the base64 SAS key itself may contain '='.
                match split_once(part, '=') {
                    None => {
                        assert(malformed(all[i as int]));
                        return Err(
                            AzureError::Config(
                                "invalid Service Bus connection string segment (missing '='): <redacted>".to_string(),
                            ),
                        );
                    },
                    Some((key, value)) => {
                        let key = trim(key);
                        let value = trim(value);
                        if is_word(key, "endpoint") {
                            endpoint = Some(value.to_string());
                        } else if is_word(key, "sharedaccesskeyname") {
                            policy_name = Some(value.to_string());
                        } else if is_word(key, "sharedaccesskey") {
                            shared_access_key = Some(value.to_string());
                        }
                    },
                }
            }
            i += 1;
        }
        assert(all.take(all.len() as int) =~= all);
        let endpoint = match endpoint {
            Some(endpoint) => endpoint,
            None => return Err(
                AzureError::Config(
                    "Service Bus connection string missing 'Endpoint'".to_string(),
                ),
            ),
        };
        let namespace = match parse_namespace(endpoint.as_str()) {
            Ok(namespace) => namespace,
            Err(e) => return Err(e),
        };
        let policy_name = match policy_name {
            Some(policy_name) => policy_name,
            None => return Err(
                AzureError::Config(
                    "Service Bus connection string missing 'SharedAccessKeyName'".to_string(),
                ),
            ),
        };
        let shared_access_key = match shared_access_key {
            Some(shared_access_key) => shared_access_key,
            None => return Err(
                AzureError::Config(
                    "Service Bus connection string missing 'SharedAccessKey'".to_string(),
                ),
            ),
        };
        Ok(
            ServiceBusClient::new(
                namespace.as_str(),
                policy_name.as_str(),
                shared_access_key.as_str(),
            ),
        )
    }

    /// Send requests to `endpoint` instead of `https://<namespace>.servicebus.windows.net`, e.g.
    /// the Service Bus emulator or a local test server.
    ///
    /// The endpoint must use `https`, except on a loopback host (`localhost`, `127.0.0.0/8`,
    /// `::1`), where `http` is accepted, so SAS tokens never cross a network in cleartext. It may
    /// not carry a query or fragment.
    pub fn with_endpoint(self, endpoint: &str) -> (r: Result<Self>)
        ensures
            agrees(r, redirected(self@, endpoint@)),
            r matches Ok(client) ==> client.base() == url_parse(client@.endpoint) && secure(
                client.base(),
            ),
    {
        let trimmed = trim_end_slashes(endpoint);
        let base = parse_url(trimmed);
        match check_endpoint(trimmed, &base) {
            Ok(_) => Ok(
                ServiceBusClient {
                    namespace: self.namespace,
                    policy_name: self.policy_name,
                    shared_access_key: self.shared_access_key,
                    endpoint: trimmed.to_string(),
                    base,
                },
            ),
            Err(e) => Err(e),
        }
    }

    /// The Service Bus namespace this client targets.
    pub fn namespace(&self) -> (r: &str)
        ensures
            r@ == self@.namespace,
    {
        self.namespace.as_str()
    }

    /// The name of the policy that requests are signed under.
    pub fn policy_name(&self) -> (r: &str)
        ensures
            r@ == self@.policy_name,
    {
        self.policy_name.as_str()
    }

    /// Where requests are sent.
    pub fn endpoint(&self) -> (r: &str)
        ensures
            r@ == self@.endpoint,
    {
        self.endpoint.as_str()
    }

    /// What the endpoint was read as.
    pub(crate) fn base_url(&self) -> (r: &std::result::Result<UrlParts, String>)
        ensures
            parse_view(*r) == self.base(),
            self.base() == url_parse(self@.endpoint),
            secure(self.base()),
    {
        proof {
            use_type_invariant(self);
        }
        &self.base
    }

    /// The value of the `Authorization` header for a request under `scope`, made at the time `now`
    /// in seconds since the UNIX epoch. It is always a valid header value.
    pub fn authorization(&self, scope: &str, now: i64) -> (r: Result<String>)
        ensures
            agrees(r, authorization_for(self@, scope@, now)),
            r matches Ok(value) ==> valid_value(value@),
    {
        let expiry: u64 = match now.checked_add(SAS_TTL) {
            Some(expiry) if expiry >= 0 => expiry as u64,
            _ => return Err(
                AzureError::Auth("system clock is before the UNIX epoch".to_string()),
            ),
        };
        let token = sas_token(
            scope,
            self.policy_name.as_str(),
            self.shared_access_key.as_str(),
            expiry,
        );
        proof {
            token_is_header_value(
                scope@,
                self@.policy_name,
                expiry,
                hmac_sha256_of(
                    encode_utf8(self@.shared_access_key),
                    encode_utf8(signed_text(scope@, expiry)),
                ),
            );
        }
        Ok(token)
    }

    /// The fields that debug output shows, by name. The key is not among them.
    pub fn debug_fields(&self) -> (r: Vec<(&'static str, String)>)
        ensures
            shown_fields(r@) == client_fields(self@),
    {
        let mut fields: Vec<(&'static str, String)> = Vec::new();
        fields.push(("namespace", self.namespace.clone()));
        fields.push(("policy_name", self.policy_name.clone()));
        fields.push(("endpoint", self.endpoint.clone()));
        assert(shown_fields(fields@) =~= client_fields(self@));
        fields
    }
}

/// Fields of debug output, as characters.
pub open spec fn shown_fields(fields: Seq<(&'static str, String)>) -> Seq<(Seq<char>, Seq<char>)> {
    fields.map_values(|f: (&'static str, String)| (f.0@, f.1@))
}

/// The fields that the debug output of a client shows.
pub open spec fn client_fields(client: ClientView) -> Seq<(Seq<char>, Seq<char>)> {
    seq![
        ("namespace"@, client.namespace),
        ("policy_name"@, client.policy_name),
        ("endpoint"@, client.endpoint),
    ]
}

} // verus!
