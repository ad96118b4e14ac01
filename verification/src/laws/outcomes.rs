//! Laws on outcomes: that a result shows all it holds, and that one outcome alone is expected of a
//! call.
use vstd::prelude::*;

use reqwest::header::{HeaderMap, HeaderValue};

use crate::config::{copies, AzureConfig, ConfigView, CredentialsSource, CredentialsView};
use crate::error::{agrees, retryable, shows, status_of, AzureError, ErrorView, Result};
use crate::headers::{all_values, header_contents, header_sensitive, text_byte, value_text};
use crate::servicebus::client::{shown_fields, ServiceBusServiceConfig};
use crate::servicebus::entity::optional_text;
use crate::servicebus::message::{
    yields_headers, Contents, SendMessageOptions, SettableBrokerProperties,
};
use crate::servicebus::request::{options_view, Method, Request};
use crate::servicebus::response::{optional_url, text_view, texts_in};
use crate::services::{
    asks, becomes, built_view, bus_view, request_view, yields, ClientRequest, ClientRequestView,
    CredentialRequest, CredentialRequestView, Progress, ServicesView,
};
use crate::text::optional;
use crate::uri::{parse_view, verdict_view, UrlParts, UrlView};

verus! {

/// What a result is, with its value or its error as characters.
pub open spec fn seen<T: View>(r: Result<T>) -> std::result::Result<T::V, ErrorView> {
    match r {
        Ok(t) => Ok(t@),
        Err(e) => Err(e@),
    }
}

/// A result agrees with what it is, and with nothing else: neither a success nor an error of one
/// kind or text passes for another.
pub proof fn results_agree_with_one_outcome<T: View>(
    r: Result<T>,
    expected: std::result::Result<T::V, ErrorView>,
)
    ensures
        agrees(r, expected) <==> expected == seen(r),
{
}

/// A result asks for what it holds, and for nothing else.
pub proof fn results_ask_for_one_client(
    r: Result<Option<ClientRequest>>,
    expected: std::result::Result<Option<ClientRequestView>, ErrorView>,
)
    ensures
        asks(r, expected) <==> (match r {
            Ok(Some(request)) => expected == Ok::<Option<ClientRequestView>, ErrorView>(
                Some(request@),
            ),
            Ok(None) => expected == Ok::<Option<ClientRequestView>, ErrorView>(None),
            Err(e) => expected == Err::<Option<ClientRequestView>, ErrorView>(e@),
        }),
{
}

/// A result yields the client it holds, and no other.
pub proof fn results_yield_one_client<T>(
    r: Result<&T>,
    expected: std::result::Result<T, ErrorView>,
)
    ensures
        yields(r, expected) <==> (match r {
            Ok(client) => expected == Ok::<T, ErrorView>(*client),
            Err(e) => expected == Err::<T, ErrorView>(e@),
        }),
{
}

/// A result yields the headers it holds, none of them sensitive, and no others.
pub proof fn results_yield_one_set_of_headers(
    r: Result<HeaderMap<HeaderValue>>,
    expected: std::result::Result<Contents, ErrorView>,
)
    ensures
        yields_headers(r, expected) <==> (match r {
            Ok(headers) => expected == Ok::<Contents, ErrorView>(header_contents(headers))
                && header_sensitive(headers) == Set::<Seq<char>>::empty(),
            Err(e) => expected == Err::<Contents, ErrorView>(e@),
        }),
{
}

/// A container becomes what is expected on success, and stays what it was on an error, which is the
/// one expected.
pub proof fn containers_become_one_thing<B, Q, C, K>(
    before: ServicesView<B, Q, C, K>,
    after: ServicesView<B, Q, C, K>,
    r: Result<()>,
    expected: std::result::Result<ServicesView<B, Q, C, K>, ErrorView>,
)
    ensures
        becomes(before, after, r, expected) <==> (match r {
            Ok(_) => expected == Ok::<ServicesView<B, Q, C, K>, ErrorView>(after),
            Err(e) => after == before && expected == Err::<ServicesView<B, Q, C, K>, ErrorView>(
                e@,
            ),
        }),
{
}

/// Texts that came from outside are seen whole, be it a value or an error.
pub proof fn outside_texts_are_seen_whole<T>(
    text: String,
    slice: &str,
    client: T,
    url: UrlParts,
    map: Map<Seq<char>, String>,
    name: Seq<char>,
)
    ensures
        text_view(Ok(text)) == Ok::<Seq<char>, Seq<char>>(text@),
        text_view(Err(text)) == Err::<Seq<char>, Seq<char>>(text@),
        verdict_view(Ok(())) == Ok::<(), Seq<char>>(()),
        verdict_view(Err(text)) == Err::<(), Seq<char>>(text@),
        parse_view(Ok(url)) == Ok::<UrlView, Seq<char>>(url@),
        parse_view(Err(text)) == Err::<UrlView, Seq<char>>(text@),
        optional_url(Some(url)) == Some(url@),
        optional_url(None) == None::<UrlView>,
        optional_text(Some(slice)) == Some(slice@),
        optional_text(None) == None::<Seq<char>>,
        built_view(Ok::<T, String>(client)) == Ok::<T, Seq<char>>(client),
        built_view(Err::<T, String>(text)) == Err::<T, Seq<char>>(text@),
        texts_in(map).contains_key(name) <==> map.contains_key(name),
        map.contains_key(name) ==> texts_in(map)[name] == map[name]@,
{
}

/// The error of each kind is seen as that kind, with its whole text and its status.
pub proof fn errors_are_seen_whole(text: String, service: &'static str, status: u16)
    ensures
        AzureError::ServiceNotEnabled(service)@ == ErrorView::ServiceNotEnabled(service@),
        AzureError::ServiceNotConfigured(service)@ == ErrorView::ServiceNotConfigured(service@),
        AzureError::Config(text)@ == ErrorView::Config(text@),
        AzureError::Auth(text)@ == ErrorView::Auth(text@),
        AzureError::StorageAccountNotSpecified@ == ErrorView::StorageAccountNotSpecified,
        AzureError::Service(text)@ == ErrorView::Service(text@),
        (AzureError::Http { status, message: text })@ == (ErrorView::Http { status, message: text@ }),
        AzureError::Network(text)@ == ErrorView::Network(text@),
        AzureError::Serialization(text)@ == ErrorView::Serialization(text@),
{
}

/// Each error is shown as the text of its kind with all that it says.
pub proof fn errors_are_shown_whole(e: Seq<char>, status: u16, text: Seq<char>)
    ensures
        shows(ErrorView::ServiceNotEnabled(e), text) <==> text == "Service '"@ + e
            + "' is not enabled. Enable the feature flag in Cargo.toml"@,
        shows(ErrorView::ServiceNotConfigured(e), text) <==> text == "Service '"@ + e
            + "' is not configured. Call enable_"@ + e + "() on AzureConfig"@,
        shows(ErrorView::Config(e), text) <==> text == "Configuration error: "@ + e,
        shows(ErrorView::Auth(e), text) <==> text == "Authentication error: "@ + e,
        shows(ErrorView::StorageAccountNotSpecified, text) <==> text
            == "Azure storage account not specified"@,
        shows(ErrorView::Service(e), text) <==> text == "Azure service error: "@ + e,
        shows(ErrorView::Http { status, message: e }, text) <==> text == "Azure service error: "@
            + e,
        shows(ErrorView::Network(e), text) <==> text == "Network error: "@ + e,
        shows(ErrorView::Serialization(e), text) <==> text == "Serialization error: "@ + e,
{
}

/// An I/O error is shown as its own text behind a fixed start.
pub proof fn io_errors_are_shown_whole(error: std::io::Error, text: Seq<char>)
    ensures
        AzureError::Io(error)@ == ErrorView::Io(error),
        shows(ErrorView::Io(error), text) ==> exists|shown: String| #[trigger]
            vstd::string::to_string_from_display_ensures::<std::io::Error>(&error, shown) && text
                == "I/O error: "@ + shown@,
{
}

/// An I/O error becomes the error that carries it.
pub proof fn io_errors_are_carried(error: std::io::Error)
    ensures
        <AzureError as vstd::std_specs::convert::FromSpec<std::io::Error>>::from_spec(error)
            == AzureError::Io(error),
        <AzureError as vstd::std_specs::convert::FromSpec<std::io::Error>>::obeys_from_spec(),
{
}

/// Another attempt may succeed after a network failure and after the statuses of timeouts,
/// throttling and server-side trouble, and after nothing else; only errors of HTTP carry a status.
pub proof fn some_errors_may_pass(error: ErrorView)
    ensures
        retryable(error) <==> error is Network || (error is Http && {
            let status = error->Http_status;
            status == 408 || status == 429 || status == 500 || status == 502 || status == 503
                || status == 504
        }),
        error is Http ==> status_of(error) == Some(error->Http_status),
        !(error is Http) ==> status_of(error) == None::<u16>,
{
}

/// The text of a header value has a character for each byte, the same, and there is one exactly
/// where every byte is a tab or printable.
pub proof fn header_texts_are_whole(bytes: Seq<u8>)
    ensures
        value_text(bytes) is Some <==> forall|i: int|
            0 <= i < bytes.len() ==> (0x20 <= #[trigger] bytes[i] <= 0x7e || bytes[i] == 0x09),
        value_text(bytes) matches Some(text) ==> text.len() == bytes.len() && forall|i: int|
            0 <= i < bytes.len() ==> #[trigger] text[i] as u32 == bytes[i] as u32,
{
    if forall|i: int|
        0 <= i < bytes.len() ==> (0x20 <= #[trigger] bytes[i] <= 0x7e || bytes[i] == 0x09) {
        assert forall|i: int| 0 <= i < bytes.len() implies text_byte(#[trigger] bytes[i]) by {}
    } else {
        let i = choose|i: int|
            0 <= i < bytes.len() && !(0x20 <= #[trigger] bytes[i] <= 0x7e || bytes[i] == 0x09);
        assert(!text_byte(bytes[i]));
    }
}

/// All values of a header are those that the map holds for its name.
pub proof fn header_values_are_those_of_the_map(headers: HeaderMap<HeaderValue>, name: Seq<char>)
    ensures
        header_contents(headers).contains_key(name) ==> all_values(headers, name)
            == header_contents(headers)[name],
        !header_contents(headers).contains_key(name) ==> all_values(headers, name) == Seq::<
            Seq<u8>,
        >::empty(),
{
}

/// A URL is seen with each of its components, and its text is made up of them.
pub proof fn urls_are_seen_whole(url: UrlParts)
    ensures
        url@.scheme == url.scheme@,
        url@.host == url.host,
        url@.host_text == optional(url.host_text),
        url@.port == url.port,
        url@.before_path == url.before_path@,
        url@.path == url.path@,
        url@.query == optional(url.query),
        url@.fragment == optional(url.fragment),
        url@.cannot_be_a_base == url.cannot_be_a_base,
        url@.text() == url.before_path@ + url.path@ + (match url.query {
            Some(query) => "?"@ + query@,
            None => seq![],
        }) + (match url.fragment {
            Some(fragment) => "#"@ + fragment@,
            None => seq![],
        }),
{
}

/// A request is seen with its method, its URL, its headers, its body and the time it may take, and
/// a method by its own name.
pub proof fn requests_are_seen_whole(request: Request)
    ensures
        request@.method == request.method,
        request@.url == request.url@,
        request@.headers == header_contents(request.headers),
        request@.sensitive == header_sensitive(request.headers),
        request@.body == optional(request.body),
        request@.timeout == request.timeout,
        Method::Post.text() == "POST"@,
        Method::Put.text() == "PUT"@,
        Method::Delete.text() == "DELETE"@,
{
}

/// Options of a message are seen with all that was set.
pub proof fn options_are_seen_whole(
    options: SendMessageOptions,
    properties: SettableBrokerProperties,
)
    ensures
        options@.content_type == optional(options.content_type),
        options.broker_properties matches Some(p) ==> options@.broker_properties == Some(p@),
        options.broker_properties is None ==> options@.broker_properties is None,
        options.custom_properties matches Some(custom) ==> options@.custom_properties == Some(
            (custom.order(), custom@),
        ),
        options.custom_properties is None ==> options@.custom_properties is None,
        options_view(Some(options)) == Some(options@),
        options_view(None) is None,
        properties@.correlation_id == optional(properties.correlation_id),
        properties@.session_id == optional(properties.session_id),
        properties@.message_id == optional(properties.message_id),
        properties@.label == optional(properties.label),
        properties@.reply_to == optional(properties.reply_to),
        properties@.time_to_live == properties.time_to_live,
        properties@.to == optional(properties.to),
        properties@.scheduled_enqueue_time_utc == properties.scheduled_enqueue_time_utc,
        properties@.reply_to_session_id == optional(properties.reply_to_session_id),
        properties@.partition_key == optional(properties.partition_key),
{
}

/// A configuration is seen with all that was set.
pub proof fn configurations_are_seen_whole(config: AzureConfig)
    ensures
        config@.storage_account == optional(config.storage_account),
        config@.cosmos_endpoint == optional(config.cosmos_endpoint),
        config@.cosmos_database == optional(config.cosmos_database),
        config@.servicebus_namespace == optional(config.servicebus_namespace),
        config@.servicebus_connection_string == optional(config.servicebus_connection_string),
        config@.keyvault_url == optional(config.keyvault_url),
        config@.credentials == config.credentials@,
        config@.enabled_services == config.enabled_services.order(),
        config.enabled_services@ == config.enabled_services.order().to_set(),
        config@.service_configs == config.service_configs@,
        config@.use_emulator == config.use_emulator,
{
}

/// A copy of a configuration has the same settings, and a copy of each JSON value.
pub proof fn copies_have_the_same_settings(copy: ConfigView, config: ConfigView)
    requires
        copies(copy, config),
    ensures
        copy.storage_account == config.storage_account,
        copy.cosmos_endpoint == config.cosmos_endpoint,
        copy.cosmos_database == config.cosmos_database,
        copy.servicebus_namespace == config.servicebus_namespace,
        copy.servicebus_connection_string == config.servicebus_connection_string,
        copy.keyvault_url == config.keyvault_url,
        copy.credentials == config.credentials,
        copy.enabled_services == config.enabled_services,
        copy.use_emulator == config.use_emulator,
        copy.service_configs.dom() == config.service_configs.dom(),
        forall|name: Seq<char>| #[trigger]
            copy.service_configs.contains_key(name) ==> cloned::<serde_json::Value>(
                config.service_configs[name],
                copy.service_configs[name],
            ),
{
}

/// Credentials are seen with their whole texts.
pub proof fn credentials_are_seen_whole(tenant: String, client: String, secret: String)
    ensures
        CredentialsSource::DefaultCredential@ == CredentialsView::DefaultCredential,
        CredentialsSource::Environment@ == CredentialsView::Environment,
        CredentialsSource::ManagedIdentity@ == CredentialsView::ManagedIdentity,
        CredentialsSource::AzureCli@ == CredentialsView::AzureCli,
        (CredentialsSource::ServicePrincipal {
            tenant_id: tenant,
            client_id: client,
            client_secret: secret,
        })@ == (CredentialsView::ServicePrincipal {
            tenant_id: tenant@,
            client_id: client@,
            client_secret: secret@,
        }),
        CredentialRequest::DeveloperTools@ == CredentialRequestView::DeveloperTools,
        CredentialRequest::ManagedIdentity@ == CredentialRequestView::ManagedIdentity,
        CredentialRequest::AzureCli@ == CredentialRequestView::AzureCli,
        (CredentialRequest::ClientSecret {
            tenant_id: tenant,
            client_id: client,
            client_secret: secret,
        })@ == (CredentialRequestView::ClientSecret {
            tenant_id: tenant@,
            client_id: client@,
            client_secret: secret@,
        }),
{
}

/// A client that is asked for is seen with its whole endpoint, and with whether it gets the
/// credential.
pub proof fn client_requests_are_seen_whole(
    endpoint: String,
    authenticated: bool,
    request: ClientRequest,
    progress: Progress,
    config: ServiceBusServiceConfig,
)
    ensures
        (ClientRequest::Blob { endpoint, authenticated })@ == (ClientRequestView::Blob {
            endpoint: endpoint@,
            authenticated,
        }),
        (ClientRequest::Queue { endpoint, authenticated })@ == (ClientRequestView::Queue {
            endpoint: endpoint@,
            authenticated,
        }),
        (ClientRequest::Cosmos { endpoint })@ == (ClientRequestView::Cosmos { endpoint: endpoint@ }),
        (ClientRequest::KeyVault { vault_url: endpoint })@ == (ClientRequestView::KeyVault {
            vault_url: endpoint@,
        }),
        request_view(Some(request)) == Some(request@),
        request_view(None) is None,
        progress@.0 == progress.position,
        progress.request matches Some(asked) ==> progress@.1 == Some(asked@),
        progress.request is None ==> progress@.1 is None,
        bus_view(Some(config)) == Some(config@),
        bus_view(None) is None,
        config@.namespace == optional(config.namespace),
        config@.policy_name == config.policy_name@,
        config@.shared_access_key == config.shared_access_key@,
{
}

/// Fields of debug output are seen whole, in their order.
pub proof fn debug_fields_are_seen_whole(fields: Seq<(&'static str, String)>, i: int)
    requires
        0 <= i < fields.len(),
    ensures
        shown_fields(fields).len() == fields.len(),
        shown_fields(fields)[i] == (fields[i].0@, fields[i].1@),
{
}

} // verus!
