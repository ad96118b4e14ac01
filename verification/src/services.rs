//! The container of service clients: which of them are built, from what, and who may have them.
//!
//! The clients of Blob Storage, Queue Storage, Cosmos DB and Key Vault come from outside: the
//! container says what to build and takes what was built. It builds the Service Bus client itself.
use vstd::prelude::*;
use vstd::string::*;

use crate::config::{AzureConfig, ConfigView, CredentialsSource, CredentialsView};
use crate::error::{agrees, AzureError, ErrorView, Result};
use crate::servicebus::client::{
    client_of, parsed_connection, secure, ClientView, ServiceBusClient, ServiceBusServiceConfig,
};
use crate::text::{clone_text, optional, same_text};
use crate::uri::{
    account_endpoint, parse_url, parse_view, read_account_endpoint, url_parse, verdict_view,
    UrlParts, UrlView,
};

verus! {

/// A credential to build.
#[derive(Debug)]
pub enum CredentialRequest {
    /// The developer-tools credential chain.
    DeveloperTools,
    /// The managed identity of the machine.
    ManagedIdentity,
    /// The login of the Azure CLI.
    AzureCli,
    /// A service principal with its client secret.
    ClientSecret { tenant_id: String, client_id: String, client_secret: String },
}

/// A credential to build, with its texts as characters.
pub enum CredentialRequestView {
    DeveloperTools,
    ManagedIdentity,
    AzureCli,
    ClientSecret { tenant_id: Seq<char>, client_id: Seq<char>, client_secret: Seq<char> },
}

impl View for CredentialRequest {
    type V = CredentialRequestView;

    open spec fn view(&self) -> CredentialRequestView {
        match *self {
            CredentialRequest::DeveloperTools => CredentialRequestView::DeveloperTools,
            CredentialRequest::ManagedIdentity => CredentialRequestView::ManagedIdentity,
            CredentialRequest::AzureCli => CredentialRequestView::AzureCli,
            CredentialRequest::ClientSecret { tenant_id, client_id, client_secret } => {
                CredentialRequestView::ClientSecret {
                    tenant_id: tenant_id@,
                    client_id: client_id@,
                    client_secret: client_secret@,
                }
            },
        }
    }
}

/// The credential that a credentials source asks for.
pub open spec fn credential_for(source: CredentialsView) -> CredentialRequestView {
    match source {
        CredentialsView::DefaultCredential => CredentialRequestView::DeveloperTools,
        CredentialsView::Environment => CredentialRequestView::DeveloperTools,
        CredentialsView::ManagedIdentity => CredentialRequestView::ManagedIdentity,
        CredentialsView::AzureCli => CredentialRequestView::AzureCli,
        CredentialsView::ServicePrincipal { tenant_id, client_id, client_secret } => {
            CredentialRequestView::ClientSecret { tenant_id, client_id, client_secret }
        },
    }
}

/// The credential that a configuration asks for.
pub fn build_credential(config: &AzureConfig) -> (r: CredentialRequest)
    ensures
        r@ == credential_for(config@.credentials),
{
    match &config.credentials {
        CredentialsSource::DefaultCredential | CredentialsSource::Environment => {
            CredentialRequest::DeveloperTools
        },
        CredentialsSource::ManagedIdentity => CredentialRequest::ManagedIdentity,
        CredentialsSource::AzureCli => CredentialRequest::AzureCli,
        CredentialsSource::ServicePrincipal { tenant_id, client_id, client_secret } => {
            CredentialRequest::ClientSecret {
                tenant_id: tenant_id.clone(),
                client_id: client_id.clone(),
                client_secret: client_secret.clone(),
            }
        },
    }
}

/// A credential that was built, or the error for one that could not be.
pub fn credential_built<T>(built: std::result::Result<T, String>) -> (r: Result<T>)
    ensures
        match built {
            Ok(credential) => r == Ok::<T, AzureError>(credential),
            Err(e) => r matches Err(f) && f@ == ErrorView::Auth(e@),
        },
{
    match built {
        Ok(credential) => Ok(credential),
        Err(e) => Err(AzureError::Auth(e)),
    }
}

/// The services that the container knows.
#[derive(Clone, Copy, Debug, PartialEq, Eq, Structural)]
pub enum Service {
    Blob,
    Queue,
    Cosmos,
    ServiceBus,
    KeyVault,
}

/// The service of a name, where the name is known.
pub open spec fn service_of(name: Seq<char>) -> Option<Service> {
    if name == "blob"@ {
        Some(Service::Blob)
    } else if name == "queue"@ {
        Some(Service::Queue)
    } else if name == "cosmos"@ {
        Some(Service::Cosmos)
    } else if name == "servicebus"@ {
        Some(Service::ServiceBus)
    } else if name == "keyvault"@ {
        Some(Service::KeyVault)
    } else {
        None
    }
}

/// The service of a name, where the name is known.
pub fn find_service(name: &str) -> (r: Option<Service>)
    ensures
        r == service_of(name@),
{
    if same_text(name, "blob") {
        Some(Service::Blob)
    } else if same_text(name, "queue") {
        Some(Service::Queue)
    } else if same_text(name, "cosmos") {
        Some(Service::Cosmos)
    } else if same_text(name, "servicebus") {
        Some(Service::ServiceBus)
    } else if same_text(name, "keyvault") {
        Some(Service::KeyVault)
    } else {
        None
    }
}

/// A client to build.
#[derive(Debug)]
pub enum ClientRequest {
    /// A Blob Storage client at this endpoint, with or without the credential.
    Blob { endpoint: String, authenticated: bool },
    /// A Queue Storage client at this endpoint, with or without the credential.
    Queue { endpoint: String, authenticated: bool },
    /// A Cosmos DB client of the account at this endpoint, with the credential.
    Cosmos { endpoint: String },
    /// A Key Vault client of the vault at this URL, with the credential.
    KeyVault { vault_url: String },
}

/// A client to build, with its texts as characters.
pub enum ClientRequestView {
    Blob { endpoint: Seq<char>, authenticated: bool },
    Queue { endpoint: Seq<char>, authenticated: bool },
    Cosmos { endpoint: Seq<char> },
    KeyVault { vault_url: Seq<char> },
}

impl View for ClientRequest {
    type V = ClientRequestView;

    open spec fn view(&self) -> ClientRequestView {
        match *self {
            ClientRequest::Blob { endpoint, authenticated } => ClientRequestView::Blob {
                endpoint: endpoint@,
                authenticated,
            },
            ClientRequest::Queue { endpoint, authenticated } => ClientRequestView::Queue {
                endpoint: endpoint@,
                authenticated,
            },
            ClientRequest::Cosmos { endpoint } => ClientRequestView::Cosmos { endpoint: endpoint@ },
            ClientRequest::KeyVault { vault_url } => ClientRequestView::KeyVault {
                vault_url: vault_url@,
            },
        }
    }
}

/// A client to build, if any.
pub open spec fn request_view(request: Option<ClientRequest>) -> Option<ClientRequestView> {
    match request {
        Some(request) => Some(request@),
        None => None,
    }
}

/// Container for Azure service clients.
///
/// Services are loaded based on configuration. Only enabled services are initialized.
pub struct AzureServices<B, Q, C, K> {
    config: AzureConfig,
    blob: Option<B>,
    queue: Option<Q>,
    cosmos: Option<C>,
    servicebus: Option<ServiceBusClient>,
    keyvault: Option<K>,
}

/// What the container holds.
pub struct ServicesView<B, Q, C, K> {
    pub config: ConfigView,
    pub blob: Option<B>,
    pub queue: Option<Q>,
    pub cosmos: Option<C>,
    pub servicebus: Option<ClientView>,
    pub keyvault: Option<K>,
}

impl<B, Q, C, K> View for AzureServices<B, Q, C, K> {
    type V = ServicesView<B, Q, C, K>;

    closed spec fn view(&self) -> ServicesView<B, Q, C, K> {
        ServicesView {
            config: self.config@,
            blob: self.blob,
            queue: self.queue,
            cosmos: self.cosmos,
            servicebus: match self.servicebus {
                Some(client) => Some(client@),
                None => None,
            },
            keyvault: self.keyvault,
        }
    }
}

/// The container of a configuration before any service is initialized.
pub open spec fn no_services<B, Q, C, K>(config: ConfigView) -> ServicesView<B, Q, C, K> {
    ServicesView {
        config,
        blob: None,
        queue: None,
        cosmos: None,
        servicebus: None,
        keyvault: None,
    }
}

/// Configuration of Service Bus, with its texts as characters.
pub struct ServiceBusConfigView {
    pub namespace: Option<Seq<char>>,
    pub policy_name: Seq<char>,
    pub shared_access_key: Seq<char>,
}

impl View for ServiceBusServiceConfig {
    type V = ServiceBusConfigView;

    open spec fn view(&self) -> ServiceBusConfigView {
        ServiceBusConfigView {
            namespace: optional(self.namespace),
            policy_name: self.policy_name@,
            shared_access_key: self.shared_access_key@,
        }
    }
}

/// Configuration of Service Bus, if there is any.
pub open spec fn bus_view(config: Option<ServiceBusServiceConfig>) -> Option<ServiceBusConfigView> {
    match config {
        Some(config) => Some(config@),
        None => None,
    }
}

/// The endpoint of a storage service: the emulator's, or the account's.
pub open spec fn storage_endpoint(
    account: Seq<char>,
    emulator: bool,
    emulator_port: Seq<char>,
    kind: Seq<char>,
) -> Seq<char> {
    if emulator {
        "http://127.0.0.1:"@ + emulator_port + "/"@ + account
    } else {
        "https://"@ + account + "."@ + kind + ".core.windows.net/"@
    }
}

/// The endpoint of a configured storage service, or the error where no account is configured.
pub open spec fn storage_outcome(
    config: ConfigView,
    emulator_port: Seq<char>,
    kind: Seq<char>,
) -> std::result::Result<Seq<char>, ErrorView> {
    match config.storage_account {
        None => Err(ErrorView::StorageAccountNotSpecified),
        Some(account) => Ok(
            storage_endpoint(account, config.use_emulator, emulator_port, kind),
        ),
    }
}

/// What is to be built for Blob Storage at an endpoint, given what the endpoint is read as. The
/// emulator gets no credential.
pub open spec fn blob_request(
    endpoint: Seq<char>,
    emulator: bool,
    url: std::result::Result<UrlView, Seq<char>>,
) -> std::result::Result<Option<ClientRequestView>, ErrorView> {
    match url {
        Ok(_) => Ok(Some(ClientRequestView::Blob { endpoint, authenticated: !emulator })),
        Err(e) => Err(ErrorView::Config(e)),
    }
}

/// What is to be built for Queue Storage at an endpoint, given what the endpoint is read as. The
/// emulator gets no credential.
pub open spec fn queue_request(
    endpoint: Seq<char>,
    emulator: bool,
    url: std::result::Result<UrlView, Seq<char>>,
) -> std::result::Result<Option<ClientRequestView>, ErrorView> {
    match url {
        Ok(_) => Ok(Some(ClientRequestView::Queue { endpoint, authenticated: !emulator })),
        Err(e) => Err(ErrorView::Config(e)),
    }
}

/// What is to be built for Blob Storage: nothing where its client is there.
pub open spec fn blob_outcome<B, Q, C, K>(s: ServicesView<B, Q, C, K>) -> std::result::Result<
    Option<ClientRequestView>,
    ErrorView,
> {
    if s.blob is Some {
        Ok(None)
    } else {
        match storage_outcome(s.config, "10000"@, "blob"@) {
            Ok(endpoint) => blob_request(endpoint, s.config.use_emulator, url_parse(endpoint)),
            Err(e) => Err(e),
        }
    }
}

/// What is to be built for Queue Storage: nothing where its client is there.
pub open spec fn queue_outcome<B, Q, C, K>(s: ServicesView<B, Q, C, K>) -> std::result::Result<
    Option<ClientRequestView>,
    ErrorView,
> {
    if s.queue is Some {
        Ok(None)
    } else {
        match storage_outcome(s.config, "10001"@, "queue"@) {
            Ok(endpoint) => queue_request(endpoint, s.config.use_emulator, url_parse(endpoint)),
            Err(e) => Err(e),
        }
    }
}

/// What is to be built for the Cosmos DB account at an endpoint, given what the endpoint is read as.
pub open spec fn account_outcome(
    endpoint: Seq<char>,
    verdict: std::result::Result<(), Seq<char>>,
) -> std::result::Result<Option<ClientRequestView>, ErrorView> {
    match verdict {
        Ok(_) => Ok(Some(ClientRequestView::Cosmos { endpoint })),
        Err(e) => Err(ErrorView::Config(e)),
    }
}

/// What is to be built for Cosmos DB: nothing where its client is there.
pub open spec fn cosmos_outcome<B, Q, C, K>(s: ServicesView<B, Q, C, K>) -> std::result::Result<
    Option<ClientRequestView>,
    ErrorView,
> {
    if s.cosmos is Some {
        Ok(None)
    } else {
        match s.config.cosmos_endpoint {
            Some(endpoint) => account_outcome(endpoint, account_endpoint(endpoint)),
            None => Err(ErrorView::Config("Cosmos DB endpoint not specified"@)),
        }
    }
}

/// What is to be built for Key Vault: nothing where its client is there.
pub open spec fn keyvault_outcome<B, Q, C, K>(s: ServicesView<B, Q, C, K>) -> std::result::Result<
    Option<ClientRequestView>,
    ErrorView,
> {
    if s.keyvault is Some {
        Ok(None)
    } else {
        match s.config.keyvault_url {
            Some(vault_url) => Ok(Some(ClientRequestView::KeyVault { vault_url })),
            None => Err(ErrorView::Config("Key Vault URL not specified"@)),
        }
    }
}

/// The Service Bus client that a configuration gives. A connection string comes first, then the
/// configuration of the service, whose namespace comes before the general one.
pub open spec fn servicebus_client(
    config: ConfigView,
    service_config: Option<ServiceBusConfigView>,
) -> std::result::Result<ClientView, ErrorView> {
    match config.servicebus_connection_string {
        Some(conn) => parsed_connection(conn),
        None => match service_config {
            Some(service) => match (service.namespace, config.servicebus_namespace) {
                (Some(namespace), _) => Ok(
                    client_of(namespace, service.policy_name, service.shared_access_key),
                ),
                (None, Some(namespace)) => Ok(
                    client_of(namespace, service.policy_name, service.shared_access_key),
                ),
                (None, None) => Err(
                    ErrorView::Config(
                        "Service Bus namespace not specified (set servicebus_namespace or include it in service_config(\"servicebus\"))"@,
                    ),
                ),
            },
            None => Err(
                ErrorView::Config(
                    "Service Bus requires SAS credentials: set servicebus_connection_string, or a service_config(\"servicebus\") with policy_name + shared_access_key. The azure_messaging_servicebus 0.21 SDK is SAS-based and has no token-credential path."@,
                ),
            ),
        },
    }
}

/// The outcome of initializing Service Bus: nothing changes where its client is there.
pub open spec fn servicebus_outcome<B, Q, C, K>(
    s: ServicesView<B, Q, C, K>,
    service_config: Option<ServiceBusConfigView>,
) -> std::result::Result<ServicesView<B, Q, C, K>, ErrorView> {
    if s.servicebus is Some {
        Ok(s)
    } else {
        match servicebus_client(s.config, service_config) {
            Ok(client) => Ok(ServicesView { servicebus: Some(client), ..s }),
            Err(e) => Err(e),
        }
    }
}

/// The outcome of initializing one service: the container, and what is to be built.
pub open spec fn init_outcome<B, Q, C, K>(
    s: ServicesView<B, Q, C, K>,
    service: Option<Service>,
    service_config: Option<ServiceBusConfigView>,
) -> (ServicesView<B, Q, C, K>, std::result::Result<Option<ClientRequestView>, ErrorView>) {
    match service {
        None => (s, Ok(None)),
        Some(Service::Blob) => (s, blob_outcome(s)),
        Some(Service::Queue) => (s, queue_outcome(s)),
        Some(Service::Cosmos) => (s, cosmos_outcome(s)),
        Some(Service::KeyVault) => (s, keyvault_outcome(s)),
        Some(Service::ServiceBus) => match servicebus_outcome(s, service_config) {
            Ok(after) => (after, Ok(None)),
            Err(e) => (s, Err(e)),
        },
    }
}

/// The outcome of initializing the enabled services from a position on: the container, the position
/// reached and what is to be built there. Nothing is to be built once all have been gone through.
pub open spec fn advanced<B, Q, C, K>(
    s: ServicesView<B, Q, C, K>,
    position: nat,
    service_config: Option<ServiceBusConfigView>,
) -> (ServicesView<B, Q, C, K>, std::result::Result<(nat, Option<ClientRequestView>), ErrorView>)
    decreases s.config.enabled_services.len() - position,
{
    if position >= s.config.enabled_services.len() {
        (s, Ok((position, None)))
    } else {
        let service = service_of(s.config.enabled_services[position as int]);
        match init_outcome(s, service, service_config) {
            (after, Err(e)) => (after, Err(e)),
            (after, Ok(Some(request))) => (after, Ok((position + 1, Some(request)))),
            (after, Ok(None)) => advanced(after, position + 1, service_config),
        }
    }
}

/// Going through the enabled services keeps the configuration, and a client is asked for at a later
/// position only.
pub proof fn lemma_advanced<B, Q, C, K>(
    s: ServicesView<B, Q, C, K>,
    position: nat,
    service_config: Option<ServiceBusConfigView>,
)
    ensures
        advanced(s, position, service_config).0.config == s.config,
        advanced(s, position, service_config).1 matches Ok((next, Some(_))) ==> position < next
            <= s.config.enabled_services.len(),
    decreases s.config.enabled_services.len() - position,
{
    if position < s.config.enabled_services.len() {
        let service = service_of(s.config.enabled_services[position as int]);
        match init_outcome(s, service, service_config) {
            (after, Ok(None)) => {
                lemma_advanced(after, position + 1, service_config);
            },
            _ => {},
        }
    }
}

/// What building clients gives: each client, or the text of why it could not be built.
pub struct Builds<B, Q, C, K> {
    pub blob: std::result::Result<B, Seq<char>>,
    pub queue: std::result::Result<Q, Seq<char>>,
    pub cosmos: std::result::Result<C, Seq<char>>,
    pub keyvault: std::result::Result<K, Seq<char>>,
}

/// The outcome of building a client, with the text of the error as characters.
pub open spec fn built_view<T>(built: std::result::Result<T, String>) -> std::result::Result<
    T,
    Seq<char>,
> {
    match built {
        Ok(client) => Ok(client),
        Err(e) => Err(e@),
    }
}

/// The outcome of storing a Blob Storage client.
pub open spec fn stored_blob<B, Q, C, K>(
    s: ServicesView<B, Q, C, K>,
    built: std::result::Result<B, Seq<char>>,
) -> std::result::Result<ServicesView<B, Q, C, K>, ErrorView> {
    match built {
        Ok(client) => Ok(ServicesView { blob: Some(client), ..s }),
        Err(e) => Err(ErrorView::Service(e)),
    }
}

/// The outcome of storing a Queue Storage client.
pub open spec fn stored_queue<B, Q, C, K>(
    s: ServicesView<B, Q, C, K>,
    built: std::result::Result<Q, Seq<char>>,
) -> std::result::Result<ServicesView<B, Q, C, K>, ErrorView> {
    match built {
        Ok(client) => Ok(ServicesView { queue: Some(client), ..s }),
        Err(e) => Err(ErrorView::Service(e)),
    }
}

/// The outcome of storing a Cosmos DB client: one that is there stays.
pub open spec fn stored_cosmos<B, Q, C, K>(
    s: ServicesView<B, Q, C, K>,
    built: std::result::Result<C, Seq<char>>,
) -> std::result::Result<ServicesView<B, Q, C, K>, ErrorView> {
    match built {
        Ok(client) => Ok(
            if s.cosmos is Some {
                s
            } else {
                ServicesView { cosmos: Some(client), ..s }
            },
        ),
        Err(e) => Err(ErrorView::Service(e)),
    }
}

/// The outcome of storing a Key Vault client.
pub open spec fn stored_keyvault<B, Q, C, K>(
    s: ServicesView<B, Q, C, K>,
    built: std::result::Result<K, Seq<char>>,
) -> std::result::Result<ServicesView<B, Q, C, K>, ErrorView> {
    match built {
        Ok(client) => Ok(ServicesView { keyvault: Some(client), ..s }),
        Err(e) => Err(ErrorView::Config(e)),
    }
}

/// The outcome of storing the client that was asked for.
pub open spec fn stored<B, Q, C, K>(
    s: ServicesView<B, Q, C, K>,
    request: ClientRequestView,
    builds: Builds<B, Q, C, K>,
) -> std::result::Result<ServicesView<B, Q, C, K>, ErrorView> {
    match request {
        ClientRequestView::Blob { .. } => stored_blob(s, builds.blob),
        ClientRequestView::Queue { .. } => stored_queue(s, builds.queue),
        ClientRequestView::Cosmos { .. } => stored_cosmos(s, builds.cosmos),
        ClientRequestView::KeyVault { .. } => stored_keyvault(s, builds.keyvault),
    }
}

/// The outcome of initializing all enabled services from a position on: whenever a client is asked
/// for, what building it gives is stored, and initialization goes on behind it. The first error
/// ends it.
pub open spec fn completed<B, Q, C, K>(
    s: ServicesView<B, Q, C, K>,
    position: nat,
    service_config: Option<ServiceBusConfigView>,
    builds: Builds<B, Q, C, K>,
) -> std::result::Result<ServicesView<B, Q, C, K>, ErrorView>
    decreases s.config.enabled_services.len() - position,
{
    proof {
        lemma_advanced(s, position, service_config);
    }
    match advanced(s, position, service_config) {
        (_, Err(e)) => Err(e),
        (after, Ok((_, None))) => Ok(after),
        (after, Ok((next, Some(request)))) => match stored(after, request, builds) {
            Err(e) => Err(e),
            Ok(with_client) => completed(with_client, next, service_config, builds),
        },
    }
}

/// Whether a container has become what is expected of it, or has stayed as it was with that error.
pub open spec fn becomes<B, Q, C, K>(
    before: ServicesView<B, Q, C, K>,
    after: ServicesView<B, Q, C, K>,
    r: Result<()>,
    expected: std::result::Result<ServicesView<B, Q, C, K>, ErrorView>,
) -> bool {
    match expected {
        Ok(s) => r is Ok && after == s,
        Err(e) => (r matches Err(f) && f@ == e) && after == before,
    }
}

/// How far initialization has come, and what is to be built next.
#[derive(Debug)]
pub struct Progress {
    /// The position among the enabled services to go on from.
    pub position: usize,
    /// What is to be built, or `None` when all enabled services are initialized.
    pub request: Option<ClientRequest>,
}

impl View for Progress {
    type V = (nat, Option<ClientRequestView>);

    open spec fn view(&self) -> (nat, Option<ClientRequestView>) {
        (self.position as nat, request_view(self.request))
    }
}

/// The client of an enabled service, or the error where there is none.
pub open spec fn accessible<T>(
    config: ConfigView,
    service: Seq<char>,
    client: Option<T>,
    missing: Seq<char>,
) -> std::result::Result<T, ErrorView> {
    if !config.enables(service) {
        Err(ErrorView::ServiceNotConfigured(service))
    } else {
        match client {
            Some(client) => Ok(client),
            None => Err(ErrorView::Service(missing)),
        }
    }
}

/// Whether a result is that client, or that error.
pub open spec fn yields<T>(r: Result<&T>, expected: std::result::Result<T, ErrorView>) -> bool {
    match expected {
        Ok(client) => r matches Ok(found) && *found == client,
        Err(e) => r matches Err(f) && f@ == e,
    }
}

/// The client of an enabled service, or the error where there is none.
fn access<'a, T>(
    config: &AzureConfig,
    service: &'static str,
    client: &'a Option<T>,
    missing: &str,
) -> (r: Result<&'a T>)
    ensures
        yields(r, accessible(config@, service@, *client, missing@)),
{
    if !config.is_enabled(service) {
        return Err(AzureError::not_configured(service));
    }
    match client {
        Some(client) => Ok(client),
        None => Err(AzureError::Service(missing.to_string())),
    }
}

/// The endpoint of a configured storage service.
fn find_storage(config: &AzureConfig, emulator_port: &str, kind: &str) -> (r: Result<String>)
    ensures
        agrees(r, storage_outcome(config@, emulator_port@, kind@)),
{
    let account = match &config.storage_account {
        Some(account) => account.as_str(),
        None => return Err(AzureError::StorageAccountNotSpecified),
    };
    Ok(
        if config.use_emulator {
            "http://127.0.0.1:".to_string().concat(emulator_port).concat("/").concat(account)
        } else {
            "https://".to_string().concat(account).concat(".").concat(kind).concat(
                ".core.windows.net/",
            )
        },
    )
}

/// Whether a result is that request, or that error.
pub open spec fn asks(
    r: Result<Option<ClientRequest>>,
    expected: std::result::Result<Option<ClientRequestView>, ErrorView>,
) -> bool {
    match expected {
        Ok(request) => r matches Ok(found) && request_view(found) == request,
        Err(e) => r matches Err(f) && f@ == e,
    }
}

/// What is to be built for Blob Storage at an endpoint, given what the endpoint was read as.
pub fn request_blob(
    endpoint: String,
    emulator: bool,
    url: std::result::Result<UrlParts, String>,
) -> (r: Result<Option<ClientRequest>>)
    ensures
        asks(r, blob_request(endpoint@, emulator, parse_view(url))),
{
    match url {
        Ok(_) => Ok(Some(ClientRequest::Blob { endpoint, authenticated: !emulator })),
        Err(e) => Err(AzureError::Config(e)),
    }
}

/// What is to be built for Queue Storage at an endpoint, given what the endpoint was read as.
pub fn request_queue(
    endpoint: String,
    emulator: bool,
    url: std::result::Result<UrlParts, String>,
) -> (r: Result<Option<ClientRequest>>)
    ensures
        asks(r, queue_request(endpoint@, emulator, parse_view(url))),
{
    match url {
        Ok(_) => Ok(Some(ClientRequest::Queue { endpoint, authenticated: !emulator })),
        Err(e) => Err(AzureError::Config(e)),
    }
}

/// What is to be built for the Cosmos DB account at an endpoint, given what the endpoint was read
/// as.
pub fn request_account(endpoint: &str, verdict: std::result::Result<(), String>) -> (r: Result<
    Option<ClientRequest>,
>)
    ensures
        asks(r, account_outcome(endpoint@, verdict_view(verdict))),
{
    match verdict {
        Ok(_) => Ok(Some(ClientRequest::Cosmos { endpoint: endpoint.to_string() })),
        Err(e) => Err(AzureError::Config(e)),
    }
}

impl<B, Q, C, K> AzureServices<B, Q, C, K> {
    /// Create a container in which no service is initialized yet.
    pub fn new(config: AzureConfig) -> (r: Self)
        ensures
            r@ == no_services::<B, Q, C, K>(config@),
    {
        AzureServices {
            config,
            blob: None,
            queue: None,
            cosmos: None,
            servicebus: None,
            keyvault: None,
        }
    }

    /// Get the configuration.
    pub fn config(&self) -> (r: &AzureConfig)
        ensures
            r@ == self@.config,
    {
        &self.config
    }

    /// What is to be built for Blob Storage.
    pub fn init_blob(&self) -> (r: Result<Option<ClientRequest>>)
        ensures
            asks(r, blob_outcome(self@)),
    {
        if self.blob.is_some() {
            return Ok(None);
        }
        match find_storage(&self.config, "10000", "blob") {
            Ok(endpoint) => {
                let url = parse_url(endpoint.as_str());
                request_blob(endpoint, self.config.use_emulator, url)
            },
            Err(e) => Err(e),
        }
    }

    /// What is to be built for Queue Storage.
    pub fn init_queue(&self) -> (r: Result<Option<ClientRequest>>)
        ensures
            asks(r, queue_outcome(self@)),
    {
        if self.queue.is_some() {
            return Ok(None);
        }
        match find_storage(&self.config, "10001", "queue") {
            Ok(endpoint) => {
                let url = parse_url(endpoint.as_str());
                request_queue(endpoint, self.config.use_emulator, url)
            },
            Err(e) => Err(e),
        }
    }

    /// What is to be built for Cosmos DB.
    pub fn init_cosmos(&self) -> (r: Result<Option<ClientRequest>>)
        ensures
            asks(r, cosmos_outcome(self@)),
    {
        if self.cosmos.is_some() {
            return Ok(None);
        }
        match &self.config.cosmos_endpoint {
            Some(endpoint) => request_account(
                endpoint.as_str(),
                read_account_endpoint(endpoint.as_str()),
            ),
            None => Err(AzureError::Config("Cosmos DB endpoint not specified".to_string())),
        }
    }

    /// What is to be built for Key Vault.
    pub fn init_keyvault(&self) -> (r: Result<Option<ClientRequest>>)
        ensures
            asks(r, keyvault_outcome(self@)),
    {
        if self.keyvault.is_some() {
            return Ok(None);
        }
        match &self.config.keyvault_url {
            Some(vault_url) => Ok(Some(ClientRequest::KeyVault { vault_url: vault_url.clone() })),
            None => Err(AzureError::Config("Key Vault URL not specified".to_string())),
        }
    }

    /// Build the Service Bus client, given what the configuration of the service was read as.
    pub fn init_servicebus(&mut self, service_config: &Option<ServiceBusServiceConfig>) -> (r:
        Result<()>)
        ensures
            becomes(
                old(self)@,
                final(self)@,
                r,
                servicebus_outcome(old(self)@, bus_view(*service_config)),
            ),
    {
        if self.servicebus.is_some() {
            return Ok(());
        }
        let client = if let Some(conn) = &self.config.servicebus_connection_string {
            match ServiceBusClient::from_connection_string(conn.as_str()) {
                Ok(client) => client,
                Err(e) => return Err(e),
            }
        } else if let Some(service) = service_config {
            let namespace = match &service.namespace {
                Some(namespace) => Some(namespace.clone()),
                None => clone_text(&self.config.servicebus_namespace),
            };
            let namespace = match namespace {
                Some(namespace) => namespace,
                None => return Err(
                    AzureError::Config(
                        "Service Bus namespace not specified (set servicebus_namespace or include it in service_config(\"servicebus\"))".to_string(),
                    ),
                ),
            };
            ServiceBusClient::new(
                namespace.as_str(),
                service.policy_name.as_str(),
                service.shared_access_key.as_str(),
            )
        } else {
            return Err(
                AzureError::Config(
                    "Service Bus requires SAS credentials: set servicebus_connection_string, or a service_config(\"servicebus\") with policy_name + shared_access_key. The azure_messaging_servicebus 0.21 SDK is SAS-based and has no token-credential path.".to_string(),
                ),
            );
        };
        self.servicebus = Some(client);
        Ok(())
    }

    /// Initialize one service, given what the configuration of Service Bus was read as.
    fn init_service(
        &mut self,
        service: Option<Service>,
        service_config: &Option<ServiceBusServiceConfig>,
    ) -> (r: Result<Option<ClientRequest>>)
        ensures
            final(self)@ == init_outcome(old(self)@, service, bus_view(*service_config)).0,
            asks(r, init_outcome(old(self)@, service, bus_view(*service_config)).1),
    {
        match service {
            None => Ok(None),
            Some(Service::Blob) => self.init_blob(),
            Some(Service::Queue) => self.init_queue(),
            Some(Service::Cosmos) => self.init_cosmos(),
            Some(Service::KeyVault) => self.init_keyvault(),
            Some(Service::ServiceBus) => match self.init_servicebus(service_config) {
                Ok(_) => Ok(None),
                Err(e) => Err(e),
            },
        }
    }

    /// Initialize the enabled services from `position` on, up to the first for which a client is to
    /// be built, given what the configuration of Service Bus was read as.
    ///
    /// Call it with position 0 first. Build what it asks for, hand it to the matching `finish_`
    /// method, and go on from the position it gives until it asks for nothing.
    pub fn initialize_enabled_services(
        &mut self,
        position: usize,
        service_config: &Option<ServiceBusServiceConfig>,
    ) -> (r: Result<Progress>)
        ensures
            final(self)@ == advanced(old(self)@, position as nat, bus_view(*service_config)).0,
            agrees(r, advanced(old(self)@, position as nat, bus_view(*service_config)).1),
    {
        let ghost start = self@;
        let ghost bus = bus_view(*service_config);
        let mut i: usize = position;
        while i < self.config.enabled_services.len()
            invariant
                start == old(self)@,
                bus == bus_view(*service_config),
                advanced(self@, i as nat, bus) == advanced(start, position as nat, bus),
            decreases self@.config.enabled_services.len() - i,
        {
            let ghost before = self@;
            let service = find_service(self.config.enabled_services.name_at(i));
            let made = self.init_service(service, service_config);
            assert(service == service_of(before.config.enabled_services[i as int]));
            match made {
                Err(e) => return Err(e),
                Ok(Some(request)) => {
                    return Ok(Progress { position: i + 1, request: Some(request) });
                },
                Ok(None) => {},
            }
            assert(advanced(before, i as nat, bus) == advanced(self@, (i + 1) as nat, bus));
            i += 1;
        }
        Ok(Progress { position: i, request: None })
    }

    /// Take the Blob Storage client that was built, or why it could not be.
    pub fn finish_blob(&mut self, built: std::result::Result<B, String>) -> (r: Result<()>)
        ensures
            becomes(old(self)@, final(self)@, r, stored_blob(old(self)@, built_view(built))),
    {
        match built {
            Ok(client) => {
                self.blob = Some(client);
                Ok(())
            },
            Err(e) => Err(AzureError::Service(e)),
        }
    }

    /// Take the Queue Storage client that was built, or why it could not be.
    pub fn finish_queue(&mut self, built: std::result::Result<Q, String>) -> (r: Result<()>)
        ensures
            becomes(old(self)@, final(self)@, r, stored_queue(old(self)@, built_view(built))),
    {
        match built {
            Ok(client) => {
                self.queue = Some(client);
                Ok(())
            },
            Err(e) => Err(AzureError::Service(e)),
        }
    }

    /// Take the Cosmos DB client that was built, or why it could not be. A client that is there
    /// stays.
    pub fn finish_cosmos(&mut self, built: std::result::Result<C, String>) -> (r: Result<()>)
        ensures
            becomes(old(self)@, final(self)@, r, stored_cosmos(old(self)@, built_view(built))),
    {
        match built {
            Ok(client) => {
                if self.cosmos.is_none() {
                    self.cosmos = Some(client);
                }
                Ok(())
            },
            Err(e) => Err(AzureError::Service(e)),
        }
    }

    /// Take the Key Vault client that was built, or why it could not be.
    pub fn finish_keyvault(&mut self, built: std::result::Result<K, String>) -> (r: Result<()>)
        ensures
            becomes(old(self)@, final(self)@, r, stored_keyvault(old(self)@, built_view(built))),
    {
        match built {
            Ok(client) => {
                self.keyvault = Some(client);
                Ok(())
            },
            Err(e) => Err(AzureError::Config(e)),
        }
    }

    /// Get the Blob Service client.
    pub fn blob_service(&self) -> (r: Result<&B>)
        ensures
            yields(
                r,
                accessible(self@.config, "blob"@, self@.blob, "Blob client not initialized"@),
            ),
    {
        access(&self.config, "blob", &self.blob, "Blob client not initialized")
    }

    /// Get the Queue Service client.
    pub fn queue_service(&self) -> (r: Result<&Q>)
        ensures
            yields(
                r,
                accessible(self@.config, "queue"@, self@.queue, "Queue client not initialized"@),
            ),
    {
        access(&self.config, "queue", &self.queue, "Queue client not initialized")
    }

    /// Get the Cosmos DB client.
    pub fn cosmos(&self) -> (r: Result<&C>)
        ensures
            yields(
                r,
                accessible(
                    self@.config,
                    "cosmos"@,
                    self@.cosmos,
                    "Cosmos client not initialized"@,
                ),
            ),
    {
        access(&self.config, "cosmos", &self.cosmos, "Cosmos client not initialized")
    }

    /// Get the Cosmos DB client together with the name of the configured database.
    pub fn cosmos_database(&self) -> (r: Result<(&C, &str)>)
        ensures
            match self@.config.cosmos_database {
                None => r matches Err(f) && f@ == ErrorView::Config(
                    "Cosmos database not specified. Call cosmos_database(..) on the config builder."@,
                ),
                Some(database) => match accessible(
                    self@.config,
                    "cosmos"@,
                    self@.cosmos,
                    "Cosmos client not initialized"@,
                ) {
                    Ok(client) => r matches Ok(found) && *found.0 == client && found.1@ == database,
                    Err(e) => r matches Err(f) && f@ == e,
                },
            },
    {
        let database = match &self.config.cosmos_database {
            Some(database) => database.as_str(),
            None => return Err(
                AzureError::Config(
                    "Cosmos database not specified. Call cosmos_database(..) on the config builder.".to_string(),
                ),
            ),
        };
        match self.cosmos() {
            Ok(client) => Ok((client, database)),
            Err(e) => Err(e),
        }
    }

    /// Get the Service Bus client.
    pub fn servicebus(&self) -> (r: Result<ServiceBusClient>)
        ensures
            agrees(
                r,
                accessible(
                    self@.config,
                    "servicebus"@,
                    self@.servicebus,
                    "Service Bus client not initialized"@,
                ),
            ),
            r matches Ok(client) ==> client.base() == url_parse(client@.endpoint) && secure(
                client.base(),
            ),
    {
        match access(
            &self.config,
            "servicebus",
            &self.servicebus,
            "Service Bus client not initialized",
        ) {
            Ok(client) => Ok(client.clone()),
            Err(e) => Err(e),
        }
    }

    /// Get the Key Vault client.
    pub fn keyvault(&self) -> (r: Result<&K>)
        ensures
            yields(
                r,
                accessible(
                    self@.config,
                    "keyvault"@,
                    self@.keyvault,
                    "Key Vault client not initialized"@,
                ),
            ),
    {
        access(&self.config, "keyvault", &self.keyvault, "Key Vault client not initialized")
    }
}

} // verus!
