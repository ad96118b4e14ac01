//! Azure configuration.
use vstd::prelude::*;

use crate::names::{NameMap, NameSet};
use crate::text::{clone_text, optional};

verus! {

/// A JSON value of `serde_json`, carried as it is.
#[verifier::external_type_specification]
#[verifier::external_body]
pub struct ExJsonValue(serde_json::Value);

/// Credentials source for Azure authentication.
#[derive(Debug)]
pub enum CredentialsSource {
    /// Use Default Azure Credential (environment, managed identity, CLI, etc.).
    DefaultCredential,
    /// Resolve via the developer-tools credential chain.
    ///
    /// Despite the name, this variant does **not** read `AZURE_CLIENT_ID` /
    /// `AZURE_CLIENT_SECRET` / `AZURE_TENANT_ID` from the environment: it resolves exactly as
    /// [`CredentialsSource::DefaultCredential`] does. Use
    /// [`CredentialsSource::ServicePrincipal`] to supply client id and secret directly.
    Environment,
    /// Use managed identity.
    ManagedIdentity,
    /// Use Azure CLI credential.
    AzureCli,
    /// Use service principal with client secret.
    ServicePrincipal { tenant_id: String, client_id: String, client_secret: String },
}

impl Clone for CredentialsSource {
    fn clone(&self) -> (r: Self)
        ensures
            r == *self,
    {
        match self {
            CredentialsSource::DefaultCredential => CredentialsSource::DefaultCredential,
            CredentialsSource::Environment => CredentialsSource::Environment,
            CredentialsSource::ManagedIdentity => CredentialsSource::ManagedIdentity,
            CredentialsSource::AzureCli => CredentialsSource::AzureCli,
            CredentialsSource::ServicePrincipal { tenant_id, client_id, client_secret } => {
                CredentialsSource::ServicePrincipal {
                    tenant_id: tenant_id.clone(),
                    client_id: client_id.clone(),
                    client_secret: client_secret.clone(),
                }
            },
        }
    }
}

impl Default for CredentialsSource {
    fn default() -> (r: Self)
        ensures
            r == CredentialsSource::DefaultCredential,
    {
        CredentialsSource::DefaultCredential
    }
}

/// A credentials source, with its texts as characters.
pub enum CredentialsView {
    DefaultCredential,
    Environment,
    ManagedIdentity,
    AzureCli,
    ServicePrincipal { tenant_id: Seq<char>, client_id: Seq<char>, client_secret: Seq<char> },
}

impl View for CredentialsSource {
    type V = CredentialsView;

    open spec fn view(&self) -> CredentialsView {
        match *self {
            CredentialsSource::DefaultCredential => CredentialsView::DefaultCredential,
            CredentialsSource::Environment => CredentialsView::Environment,
            CredentialsSource::ManagedIdentity => CredentialsView::ManagedIdentity,
            CredentialsSource::AzureCli => CredentialsView::AzureCli,
            CredentialsSource::ServicePrincipal { tenant_id, client_id, client_secret } => {
                CredentialsView::ServicePrincipal {
                    tenant_id: tenant_id@,
                    client_id: client_id@,
                    client_secret: client_secret@,
                }
            },
        }
    }
}

/// Azure service configuration.
#[derive(Debug)]
pub struct AzureConfig {
    /// Storage account name.
    pub storage_account: Option<String>,
    /// Cosmos DB endpoint.
    pub cosmos_endpoint: Option<String>,
    /// Cosmos DB database.
    pub cosmos_database: Option<String>,
    /// Service Bus namespace.
    pub servicebus_namespace: Option<String>,
    /// Service Bus connection string (SAS). Carries the namespace and the shared access policy.
    pub servicebus_connection_string: Option<String>,
    /// Key Vault URL.
    pub keyvault_url: Option<String>,
    /// Credentials source.
    pub credentials: CredentialsSource,
    /// Enabled services.
    pub enabled_services: NameSet,
    /// Service-specific configurations.
    pub service_configs: NameMap<serde_json::Value>,
    /// Use Azurite emulator (for local development).
    pub use_emulator: bool,
}

/// A configuration, with its texts as characters.
pub struct ConfigView {
    pub storage_account: Option<Seq<char>>,
    pub cosmos_endpoint: Option<Seq<char>>,
    pub cosmos_database: Option<Seq<char>>,
    pub servicebus_namespace: Option<Seq<char>>,
    pub servicebus_connection_string: Option<Seq<char>>,
    pub keyvault_url: Option<Seq<char>>,
    pub credentials: CredentialsView,
    /// The enabled services, each once, in the order in which they were first enabled.
    pub enabled_services: Seq<Seq<char>>,
    pub service_configs: Map<Seq<char>, serde_json::Value>,
    pub use_emulator: bool,
}

impl View for AzureConfig {
    type V = ConfigView;

    open spec fn view(&self) -> ConfigView {
        ConfigView {
            storage_account: optional(self.storage_account),
            cosmos_endpoint: optional(self.cosmos_endpoint),
            cosmos_database: optional(self.cosmos_database),
            servicebus_namespace: optional(self.servicebus_namespace),
            servicebus_connection_string: optional(self.servicebus_connection_string),
            keyvault_url: optional(self.keyvault_url),
            credentials: self.credentials@,
            enabled_services: self.enabled_services.order(),
            service_configs: self.service_configs@,
            use_emulator: self.use_emulator,
        }
    }
}

impl ConfigView {
    /// The configuration in which nothing is set.
    pub open spec fn unset() -> ConfigView {
        ConfigView {
            storage_account: None,
            cosmos_endpoint: None,
            cosmos_database: None,
            servicebus_namespace: None,
            servicebus_connection_string: None,
            keyvault_url: None,
            credentials: CredentialsView::DefaultCredential,
            enabled_services: seq![],
            service_configs: Map::empty(),
            use_emulator: false,
        }
    }

    /// Whether a service is enabled.
    pub open spec fn enables(self, service: Seq<char>) -> bool {
        self.enabled_services.contains(service)
    }

    /// The configuration with one more service enabled; enabling a service again changes nothing.
    pub open spec fn enabling(self, service: Seq<char>) -> ConfigView {
        ConfigView {
            enabled_services: if self.enables(service) {
                self.enabled_services
            } else {
                self.enabled_services.push(service)
            },
            ..self
        }
    }
}

/// The value of an environment variable.
pub open spec fn variable(
    vars: Map<Seq<char>, String>,
    name: Seq<char>,
) -> Option<Seq<char>> {
    if vars.contains_key(name) {
        Some(vars[name]@)
    } else {
        None
    }
}

/// The configuration that environment variables give.
pub open spec fn config_from(vars: Map<Seq<char>, String>) -> ConfigView {
    ConfigView {
        storage_account: variable(vars, "AZURE_STORAGE_ACCOUNT"@),
        cosmos_endpoint: variable(vars, "AZURE_COSMOS_ENDPOINT"@),
        cosmos_database: variable(vars, "AZURE_COSMOS_DATABASE"@),
        servicebus_namespace: variable(vars, "AZURE_SERVICEBUS_NAMESPACE"@),
        servicebus_connection_string: variable(vars, "AZURE_SERVICEBUS_CONNECTION_STRING"@),
        keyvault_url: variable(vars, "AZURE_KEYVAULT_URL"@),
        use_emulator: vars.contains_key("AZURITE_ACCOUNTS"@) || vars.contains_key(
            "USE_AZURITE"@,
        ),
        ..ConfigView::unset()
    }
}

/// Whether a configuration is a copy of another: the JSON values are copies, and all else is the
/// same.
pub open spec fn copies(copy: ConfigView, config: ConfigView) -> bool {
    &&& copy == (ConfigView { service_configs: copy.service_configs, ..config })
    &&& copy.service_configs.dom() == config.service_configs.dom()
    &&& forall|n: Seq<char>| #[trigger]
        copy.service_configs.contains_key(n) ==> cloned::<serde_json::Value>(
            config.service_configs[n],
            copy.service_configs[n],
        )
}

impl Clone for AzureConfig {
    fn clone(&self) -> (r: Self)
        ensures
            copies(r@, self@),
    {
        AzureConfig {
            storage_account: clone_text(&self.storage_account),
            cosmos_endpoint: clone_text(&self.cosmos_endpoint),
            cosmos_database: clone_text(&self.cosmos_database),
            servicebus_namespace: clone_text(&self.servicebus_namespace),
            servicebus_connection_string: clone_text(&self.servicebus_connection_string),
            keyvault_url: clone_text(&self.keyvault_url),
            credentials: self.credentials.clone(),
            enabled_services: self.enabled_services.clone(),
            service_configs: self.service_configs.clone(),
            use_emulator: self.use_emulator,
        }
    }
}

impl Default for AzureConfig {
    fn default() -> (r: Self)
        ensures
            r@ == ConfigView::unset(),
    {
        AzureConfig {
            storage_account: None,
            cosmos_endpoint: None,
            cosmos_database: None,
            servicebus_namespace: None,
            servicebus_connection_string: None,
            keyvault_url: None,
            credentials: CredentialsSource::DefaultCredential,
            enabled_services: NameSet::new(),
            service_configs: NameMap::new(),
            use_emulator: false,
        }
    }
}

impl AzureConfig {
    /// Create a new configuration.
    pub fn new() -> (r: Self)
        ensures
            r@ == ConfigView::unset(),
    {
        AzureConfig::default()
    }

    /// Create a builder.
    pub fn builder() -> (r: AzureConfigBuilder)
        ensures
            r@ == ConfigView::unset(),
    {
        AzureConfigBuilder::new()
    }

    /// Load configuration from environment variables, given by name.
    pub fn from_env(vars: &NameMap<String>) -> (r: AzureConfigBuilder)
        ensures
            r@ == config_from(vars@),
    {
        let mut builder = AzureConfigBuilder::new();
        if let Some(value) = vars.get("AZURE_STORAGE_ACCOUNT") {
            builder = builder.storage_account(value.as_str());
        }
        if let Some(value) = vars.get("AZURE_COSMOS_ENDPOINT") {
            builder = builder.cosmos_endpoint(value.as_str());
        }
        if let Some(value) = vars.get("AZURE_COSMOS_DATABASE") {
            builder = builder.cosmos_database(value.as_str());
        }
        if let Some(value) = vars.get("AZURE_SERVICEBUS_NAMESPACE") {
            builder = builder.servicebus_namespace(value.as_str());
        }
        if let Some(value) = vars.get("AZURE_SERVICEBUS_CONNECTION_STRING") {
            builder = builder.servicebus_connection_string(value.as_str());
        }
        if let Some(value) = vars.get("AZURE_KEYVAULT_URL") {
            builder = builder.keyvault_url(value.as_str());
        }
        if vars.get("AZURITE_ACCOUNTS").is_some() || vars.get("USE_AZURITE").is_some() {
            builder = builder.use_emulator();
        }
        builder
    }

    /// Check if a service is enabled.
    pub fn is_enabled(&self, service: &str) -> (r: bool)
        ensures
            r == self@.enables(service@),
    {
        self.enabled_services.contains(service)
    }

    /// Get service-specific configuration.
    pub fn service_config(&self, service: &str) -> (r: Option<&serde_json::Value>)
        ensures
            r == (if self@.service_configs.contains_key(service@) {
                Some(&self@.service_configs[service@])
            } else {
                None
            }),
    {
        self.service_configs.get(service)
    }
}

/// Builder for Azure configuration.
#[derive(Debug)]
pub struct AzureConfigBuilder {
    config: AzureConfig,
}

impl View for AzureConfigBuilder {
    type V = ConfigView;

    /// The configuration built so far.
    closed spec fn view(&self) -> ConfigView {
        self.config@
    }
}

impl Clone for AzureConfigBuilder {
    fn clone(&self) -> (r: Self)
        ensures
            copies(r@, self@),
    {
        AzureConfigBuilder { config: self.config.clone() }
    }
}

impl Default for AzureConfigBuilder {
    fn default() -> (r: Self)
        ensures
            r@ == ConfigView::unset(),
    {
        AzureConfigBuilder { config: AzureConfig::default() }
    }
}

impl AzureConfigBuilder {
    /// Create a new builder.
    pub fn new() -> (r: Self)
        ensures
            r@ == ConfigView::unset(),
    {
        AzureConfigBuilder::default()
    }

    /// Set the storage account name.
    pub fn storage_account(self, account: &str) -> (r: Self)
        ensures
            r@ == (ConfigView { storage_account: Some(account@), ..self@ }),
    {
        AzureConfigBuilder {
            config: AzureConfig { storage_account: Some(account.to_string()), ..self.config },
        }
    }

    /// Set the Cosmos DB endpoint.
    pub fn cosmos_endpoint(self, endpoint: &str) -> (r: Self)
        ensures
            r@ == (ConfigView { cosmos_endpoint: Some(endpoint@), ..self@ }),
    {
        AzureConfigBuilder {
            config: AzureConfig { cosmos_endpoint: Some(endpoint.to_string()), ..self.config },
        }
    }

    /// Set the Cosmos DB database.
    pub fn cosmos_database(self, database: &str) -> (r: Self)
        ensures
            r@ == (ConfigView { cosmos_database: Some(database@), ..self@ }),
    {
        AzureConfigBuilder {
            config: AzureConfig { cosmos_database: Some(database.to_string()), ..self.config },
        }
    }

    /// Set the Service Bus namespace.
    pub fn servicebus_namespace(self, namespace: &str) -> (r: Self)
        ensures
            r@ == (ConfigView { servicebus_namespace: Some(namespace@), ..self@ }),
    {
        AzureConfigBuilder {
            config: AzureConfig {
                servicebus_namespace: Some(namespace.to_string()),
                ..self.config
            },
        }
    }

    /// Set the Service Bus connection string (SAS).
    pub fn servicebus_connection_string(self, conn_str: &str) -> (r: Self)
        ensures
            r@ == (ConfigView { servicebus_connection_string: Some(conn_str@), ..self@ }),
    {
        AzureConfigBuilder {
            config: AzureConfig {
                servicebus_connection_string: Some(conn_str.to_string()),
                ..self.config
            },
        }
    }

    /// Set the Key Vault URL.
    pub fn keyvault_url(self, url: &str) -> (r: Self)
        ensures
            r@ == (ConfigView { keyvault_url: Some(url@), ..self@ }),
    {
        AzureConfigBuilder {
            config: AzureConfig { keyvault_url: Some(url.to_string()), ..self.config },
        }
    }

    /// Set the credentials source.
    pub fn credentials(self, credentials: CredentialsSource) -> (r: Self)
        ensures
            r@ == (ConfigView { credentials: credentials@, ..self@ }),
    {
        AzureConfigBuilder { config: AzureConfig { credentials, ..self.config } }
    }

    /// Use service principal.
    pub fn service_principal(self, tenant_id: &str, client_id: &str, client_secret: &str) -> (r:
        Self)
        ensures
            r@ == (ConfigView {
                credentials: CredentialsView::ServicePrincipal {
                    tenant_id: tenant_id@,
                    client_id: client_id@,
                    client_secret: client_secret@,
                },
                ..self@
            }),
    {
        let credentials = CredentialsSource::ServicePrincipal {
            tenant_id: tenant_id.to_string(),
            client_id: client_id.to_string(),
            client_secret: client_secret.to_string(),
        };
        AzureConfigBuilder { config: AzureConfig { credentials, ..self.config } }
    }

    /// Use Azurite emulator.
    pub fn use_emulator(self) -> (r: Self)
        ensures
            r@ == (ConfigView { use_emulator: true, ..self@ }),
    {
        AzureConfigBuilder { config: AzureConfig { use_emulator: true, ..self.config } }
    }

    /// Enable a service.
    pub fn enable(self, service: &str) -> (r: Self)
        ensures
            r@ == self@.enabling(service@),
    {
        let config = self.config;
        AzureConfigBuilder {
            config: AzureConfig {
                enabled_services: config.enabled_services.with(service),
                ..config
            },
        }
    }

    /// Enable Blob Storage.
    pub fn enable_blob(self) -> (r: Self)
        ensures
            r@ == self@.enabling("blob"@),
    {
        self.enable("blob")
    }

    /// Enable Queue Storage.
    pub fn enable_queue(self) -> (r: Self)
        ensures
            r@ == self@.enabling("queue"@),
    {
        self.enable("queue")
    }

    /// Enable Cosmos DB.
    pub fn enable_cosmos(self) -> (r: Self)
        ensures
            r@ == self@.enabling("cosmos"@),
    {
        self.enable("cosmos")
    }

    /// Enable Service Bus.
    pub fn enable_servicebus(self) -> (r: Self)
        ensures
            r@ == self@.enabling("servicebus"@),
    {
        self.enable("servicebus")
    }

    /// Enable Key Vault.
    pub fn enable_keyvault(self) -> (r: Self)
        ensures
            r@ == self@.enabling("keyvault"@),
    {
        self.enable("keyvault")
    }

    /// Enable all storage services.
    pub fn enable_storage(self) -> (r: Self)
        ensures
            r@ == self@.enabling("blob"@).enabling("queue"@),
    {
        self.enable_blob().enable_queue()
    }

    /// Add service-specific configuration.
    pub fn service_config(self, service: &str, config: serde_json::Value) -> (r: Self)
        ensures
            r@ == (ConfigView {
                service_configs: self@.service_configs.insert(service@, config),
                ..self@
            }),
    {
        let built = self.config;
        AzureConfigBuilder {
            config: AzureConfig {
                service_configs: built.service_configs.with(service, config),
                ..built
            },
        }
    }

    /// Build the configuration.
    pub fn build(self) -> (r: AzureConfig)
        ensures
            r@ == self@,
    {
        self.config
    }
}

} // verus!
