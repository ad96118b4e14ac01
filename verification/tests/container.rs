//! Configuration and the container of service clients.
use armature_azure::names::NameMap;
use armature_azure::services::{
    build_credential, credential_built, find_service, request_account, request_blob,
    request_queue, ClientRequest, CredentialRequest, Service,
};
use armature_azure::uri::{UrlHost, UrlParts};
use armature_azure::{
    AzureConfig, AzureError, AzureServices, CredentialsSource, ServiceBusServiceConfig,
};

type Services = AzureServices<&'static str, &'static str, &'static str, &'static str>;

/// The configuration of Service Bus in a configuration, read field by field.
fn bus_config(config: &AzureConfig) -> Option<ServiceBusServiceConfig> {
    let value = config.service_config("servicebus")?;
    Some(ServiceBusServiceConfig {
        namespace: value
            .get("namespace")
            .and_then(|v| v.as_str())
            .map(String::from),
        policy_name: value.get("policy_name")?.as_str()?.to_string(),
        shared_access_key: value.get("shared_access_key")?.as_str()?.to_string(),
    })
}

/// Initialize every enabled service, with names in place of clients.
fn start(config: AzureConfig) -> Result<(Services, Vec<ClientRequest>), AzureError> {
    let bus = bus_config(&config);
    let mut services = Services::new(config);
    let mut requests = Vec::new();
    let mut position = 0;
    loop {
        let progress = services.initialize_enabled_services(position, &bus)?;
        position = progress.position;
        match progress.request {
            None => return Ok((services, requests)),
            Some(request) => {
                match &request {
                    ClientRequest::Blob { .. } => services.finish_blob(Ok("blob"))?,
                    ClientRequest::Queue { .. } => services.finish_queue(Ok("queue"))?,
                    ClientRequest::Cosmos { .. } => services.finish_cosmos(Ok("cosmos"))?,
                    ClientRequest::KeyVault { .. } => services.finish_keyvault(Ok("vault"))?,
                }
                requests.push(request);
            }
        }
    }
}

fn text_value(text: &str) -> serde_json::Value {
    serde_json::Value::String(text.to_string())
}

fn object(pairs: &[(&str, &str)]) -> serde_json::Value {
    let mut map = serde_json::Map::new();
    for (name, value) in pairs {
        map.insert(name.to_string(), text_value(value));
    }
    serde_json::Value::Object(map)
}

fn start_error(config: AzureConfig) -> String {
    start(config).err().expect("error").to_string()
}

#[test]
fn servicebus_initializes_from_connection_string() {
    let config = AzureConfig::builder()
        .servicebus_connection_string(
            "Endpoint=sb://mybus.servicebus.windows.net/;\
             SharedAccessKeyName=policy;SharedAccessKey=a2V5",
        )
        .enable_servicebus()
        .build();

    let (services, requests) = start(config).expect("init services");
    assert!(requests.is_empty());
    let sb = services.servicebus().expect("servicebus accessor");
    assert_eq!(sb.namespace(), "mybus");
    assert!(sb.queue("orders").is_ok());
    assert!(sb.topic("events").is_ok());
}

#[test]
fn servicebus_initializes_from_service_config() {
    // Proves service_configs is actually read by an initializer.
    let config = AzureConfig::builder()
        .servicebus_namespace("mybus")
        .service_config(
            "servicebus",
            object(&[("policy_name", "policy"), ("shared_access_key", "a2V5")]),
        )
        .enable_servicebus()
        .build();

    let (services, _) = start(config).expect("init services");
    let sb = services.servicebus().expect("servicebus accessor");
    assert_eq!(sb.namespace(), "mybus");
}

#[test]
fn servicebus_without_sas_credentials_errors() {
    let config = AzureConfig::builder().enable_servicebus().build();
    assert!(start(config).is_err());
}

#[test]
fn cosmos_database_requires_a_database_name() {
    // cosmos not enabled -> no client construction.
    let config = AzureConfig::builder().build();
    let (services, _) = start(config).expect("init services");
    let err = services.cosmos_database().err().unwrap().to_string();
    assert!(err.contains("database not specified"), "got: {err}");
}

#[test]
fn cosmos_database_reads_the_configured_name() {
    // Database IS set, so the accessor advances past the name check (proving the field is read) and
    // only then fails because cosmos is not enabled.
    let config = AzureConfig::builder().cosmos_database("mydb").build();
    let (services, _) = start(config).expect("init services");
    let err = services.cosmos_database().err().unwrap().to_string();
    assert!(
        err.contains("not configured") || err.contains("not initialized"),
        "got: {err}"
    );
}

#[test]
fn the_namespace_of_the_service_comes_first() {
    let config = AzureConfig::builder()
        .servicebus_namespace("general")
        .service_config(
            "servicebus",
            object(&[
                ("namespace", "special"),
                ("policy_name", "policy"),
                ("shared_access_key", "a2V5"),
            ]),
        )
        .enable_servicebus()
        .build();
    let (services, _) = start(config).ok().unwrap();
    let client = services.servicebus().ok().unwrap();
    assert_eq!(client.namespace(), "special");
    assert_eq!(client.policy_name(), "policy");
}

#[test]
fn servicebus_errors_are_told_apart() {
    assert_eq!(
        start_error(AzureConfig::builder().enable_servicebus().build()),
        "Configuration error: Service Bus requires SAS credentials: set \
         servicebus_connection_string, or a service_config(\"servicebus\") with policy_name + \
         shared_access_key. The azure_messaging_servicebus 0.21 SDK is SAS-based and has no \
         token-credential path."
    );
    let nameless = AzureConfig::builder()
        .service_config(
            "servicebus",
            object(&[("policy_name", "policy"), ("shared_access_key", "a2V5")]),
        )
        .enable_servicebus()
        .build();
    assert_eq!(
        start_error(nameless),
        "Configuration error: Service Bus namespace not specified (set servicebus_namespace or \
         include it in service_config(\"servicebus\"))"
    );
    let broken = AzureConfig::builder()
        .servicebus_connection_string("nonsense")
        .enable_servicebus()
        .build();
    assert!(start_error(broken).contains("<redacted>"));
}

#[test]
fn enabled_services_are_built_and_handed_out() {
    let config = AzureConfig::builder()
        .storage_account("acct")
        .cosmos_endpoint("https://acct.documents.azure.com:443/")
        .cosmos_database("db")
        .keyvault_url("https://vault.example/")
        .servicebus_connection_string(
            "Endpoint=sb://b.x;SharedAccessKeyName=p;SharedAccessKey=k",
        )
        .enable("unknown")
        .enable_servicebus()
        .enable_storage()
        .enable_cosmos()
        .enable_keyvault()
        .build();
    let (mut services, requests) = start(config).ok().unwrap();
    assert_eq!(
        format!("{requests:?}"),
        "[Blob { endpoint: \"https://acct.blob.core.windows.net/\", authenticated: true }, \
         Queue { endpoint: \"https://acct.queue.core.windows.net/\", authenticated: true }, \
         Cosmos { endpoint: \"https://acct.documents.azure.com:443/\" }, \
         KeyVault { vault_url: \"https://vault.example/\" }]"
    );
    assert_eq!(*services.blob_service().unwrap(), "blob");
    assert_eq!(*services.queue_service().unwrap(), "queue");
    assert_eq!(*services.cosmos().unwrap(), "cosmos");
    assert_eq!(services.cosmos_database().unwrap(), (&"cosmos", "db"));
    assert_eq!(*services.keyvault().unwrap(), "vault");
    assert!(services.servicebus().is_ok());
    assert!(services.config().is_enabled("unknown"));
    // Going through the services again asks for nothing.
    let again = services.initialize_enabled_services(0, &None).ok().unwrap();
    assert!(again.request.is_none());
    assert_eq!(again.position, 6);
}

#[test]
fn the_emulator_needs_no_credential() {
    let config = AzureConfig::builder()
        .storage_account("devstoreaccount1")
        .use_emulator()
        .enable_storage()
        .build();
    let (_, requests) = start(config).ok().unwrap();
    assert_eq!(
        format!("{requests:?}"),
        "[Blob { endpoint: \"http://127.0.0.1:10000/devstoreaccount1\", authenticated: false }, \
         Queue { endpoint: \"http://127.0.0.1:10001/devstoreaccount1\", authenticated: false }]"
    );
}

#[test]
fn missing_settings_are_reported() {
    assert_eq!(
        start_error(AzureConfig::builder().enable_blob().build()),
        "Azure storage account not specified"
    );
    assert_eq!(
        start_error(AzureConfig::builder().enable_queue().build()),
        "Azure storage account not specified"
    );
    assert_eq!(
        start_error(AzureConfig::builder().enable_cosmos().build()),
        "Configuration error: Cosmos DB endpoint not specified"
    );
    assert_eq!(
        start_error(AzureConfig::builder().enable_keyvault().build()),
        "Configuration error: Key Vault URL not specified"
    );
    let unusable = AzureConfig::builder()
        .storage_account("no account")
        .enable_blob()
        .build();
    assert_eq!(
        start_error(unusable),
        "Configuration error: invalid international domain name"
    );
}

#[test]
fn cosmos_endpoints_are_urls() {
    let endpoint = |text: &str| {
        AzureConfig::builder()
            .cosmos_endpoint(text)
            .enable_cosmos()
            .build()
    };
    let (_, requests) = start(endpoint("https://acct.documents.azure.com:443/")).ok().unwrap();
    assert_eq!(
        format!("{requests:?}"),
        "[Cosmos { endpoint: \"https://acct.documents.azure.com:443/\" }]"
    );
    for text in ["", "acct", "//acct", "https://"] {
        assert_eq!(
            start_error(endpoint(text)),
            "Configuration error: 400/20108 (ClientInvalidAccountEndpointUrl): invalid account \
             endpoint URL"
        );
    }
    assert!(matches!(
        request_account("x", Err("no".to_string())),
        Err(AzureError::Config(_))
    ));
    assert!(matches!(
        request_account("x", Ok(())),
        Ok(Some(ClientRequest::Cosmos { endpoint })) if endpoint == "x"
    ));
}

#[test]
fn storage_requests_follow_what_the_endpoint_is_read_as() {
    let url = || UrlParts {
        scheme: "https".to_string(),
        host: UrlHost::Domain,
        host_text: Some("acct".to_string()),
        port: Some(443),
        before_path: "https://acct".to_string(),
        path: "/".to_string(),
        query: None,
        fragment: None,
        cannot_be_a_base: false,
    };
    assert!(matches!(
        request_blob("e".to_string(), false, Ok(url())),
        Ok(Some(ClientRequest::Blob { endpoint, authenticated: true })) if endpoint == "e"
    ));
    assert!(matches!(
        request_blob("e".to_string(), true, Ok(url())),
        Ok(Some(ClientRequest::Blob { endpoint, authenticated: false })) if endpoint == "e"
    ));
    assert!(matches!(
        request_blob("e".to_string(), true, Err("no".to_string())),
        Err(AzureError::Config(text)) if text == "no"
    ));
    assert!(matches!(
        request_queue("e".to_string(), false, Ok(url())),
        Ok(Some(ClientRequest::Queue { endpoint, authenticated: true })) if endpoint == "e"
    ));
    assert!(matches!(
        request_queue("e".to_string(), true, Ok(url())),
        Ok(Some(ClientRequest::Queue { endpoint, authenticated: false })) if endpoint == "e"
    ));
    assert!(matches!(
        request_queue("e".to_string(), true, Err("no".to_string())),
        Err(AzureError::Config(text)) if text == "no"
    ));
}

/// A configuration with all that the services need, and these services enabled in this order.
fn enabling(names: &[&str]) -> AzureConfig {
    let mut builder = AzureConfig::builder()
        .storage_account("acct")
        .cosmos_endpoint("https://acct.documents.azure.com:443/")
        .keyvault_url("https://vault.example/")
        .servicebus_connection_string("Endpoint=sb://b.x;SharedAccessKeyName=p;SharedAccessKey=k");
    for name in names {
        builder = builder.enable(name);
    }
    builder.build()
}

#[test]
fn a_client_is_stored_if_and_only_if_its_service_is_enabled() {
    let all = ["blob", "queue", "cosmos", "servicebus", "keyvault"];
    for chosen in 0..32u32 {
        let mut names: Vec<&str> = Vec::new();
        for (i, name) in all.iter().enumerate() {
            if chosen & (1 << i) != 0 {
                names.push(*name);
            }
        }
        for _ in 0..2 {
            let (services, _) = start(enabling(&names)).ok().unwrap();
            let enabled = |name: &str| names.contains(&name);
            assert_eq!(services.blob_service().is_ok(), enabled("blob"));
            assert_eq!(services.queue_service().is_ok(), enabled("queue"));
            assert_eq!(services.cosmos().is_ok(), enabled("cosmos"));
            assert_eq!(services.servicebus().is_ok(), enabled("servicebus"));
            assert_eq!(services.keyvault().is_ok(), enabled("keyvault"));
            // The other way round.
            names.reverse();
        }
    }
}

#[test]
fn one_service_that_cannot_be_had_fails_them_all() {
    for names in [["blob", "cosmos"], ["cosmos", "blob"]] {
        let mut config = enabling(&names);
        config.cosmos_endpoint = None;
        assert_eq!(
            start_error(config),
            "Configuration error: Cosmos DB endpoint not specified"
        );
    }
    let mut config = enabling(&["blob"]);
    config.cosmos_endpoint = None;
    assert!(start(config).is_ok());
}

#[test]
fn failed_builds_are_reported() {
    let mut services = Services::new(AzureConfig::new());
    let failed = "no".to_string();
    assert!(matches!(
        services.finish_blob(Err(failed.clone())),
        Err(AzureError::Service(_))
    ));
    assert!(matches!(
        services.finish_queue(Err(failed.clone())),
        Err(AzureError::Service(_))
    ));
    assert!(matches!(
        services.finish_cosmos(Err(failed.clone())),
        Err(AzureError::Service(_))
    ));
    assert!(matches!(
        services.finish_keyvault(Err(failed.clone())),
        Err(AzureError::Config(_))
    ));
    assert!(matches!(
        credential_built::<u8>(Err(failed)),
        Err(AzureError::Auth(_))
    ));
    assert_eq!(credential_built::<u8>(Ok(3)).unwrap(), 3);
}

#[test]
fn services_that_are_not_enabled_are_not_handed_out() {
    let services = Services::new(AzureConfig::new());
    assert_eq!(
        services.blob_service().err().unwrap().to_string(),
        "Service 'blob' is not configured. Call enable_blob() on AzureConfig"
    );
    assert_eq!(
        services.queue_service().err().unwrap().to_string(),
        "Service 'queue' is not configured. Call enable_queue() on AzureConfig"
    );
    assert_eq!(
        services.cosmos().err().unwrap().to_string(),
        "Service 'cosmos' is not configured. Call enable_cosmos() on AzureConfig"
    );
    assert_eq!(
        services.servicebus().err().unwrap().to_string(),
        "Service 'servicebus' is not configured. Call enable_servicebus() on AzureConfig"
    );
    assert_eq!(
        services.keyvault().err().unwrap().to_string(),
        "Service 'keyvault' is not configured. Call enable_keyvault() on AzureConfig"
    );
    let config = AzureConfig::builder()
        .enable_storage()
        .enable_cosmos()
        .enable_servicebus()
        .enable_keyvault()
        .build();
    let services = Services::new(config);
    assert_eq!(
        services.blob_service().err().unwrap().to_string(),
        "Azure service error: Blob client not initialized"
    );
    assert_eq!(
        services.queue_service().err().unwrap().to_string(),
        "Azure service error: Queue client not initialized"
    );
    assert_eq!(
        services.cosmos().err().unwrap().to_string(),
        "Azure service error: Cosmos client not initialized"
    );
    assert_eq!(
        services.servicebus().err().unwrap().to_string(),
        "Azure service error: Service Bus client not initialized"
    );
    assert_eq!(
        services.keyvault().err().unwrap().to_string(),
        "Azure service error: Key Vault client not initialized"
    );
}

#[test]
fn a_cosmos_client_that_is_there_stays() {
    let config = AzureConfig::builder().enable_cosmos().build();
    let mut services = Services::new(config);
    services.finish_cosmos(Ok("first")).ok().unwrap();
    services.finish_cosmos(Ok("second")).ok().unwrap();
    assert_eq!(*services.cosmos().unwrap(), "first");
}

#[test]
fn names_of_services_are_known() {
    assert_eq!(find_service("blob"), Some(Service::Blob));
    assert_eq!(find_service("queue"), Some(Service::Queue));
    assert_eq!(find_service("cosmos"), Some(Service::Cosmos));
    assert_eq!(find_service("servicebus"), Some(Service::ServiceBus));
    assert_eq!(find_service("keyvault"), Some(Service::KeyVault));
    assert_eq!(find_service("Blob"), None);
    assert_eq!(find_service(""), None);
}

#[test]
fn credentials_follow_the_configuration() {
    let request = |source: CredentialsSource| {
        let config = AzureConfig::builder().credentials(source).build();
        format!("{:?}", build_credential(&config))
    };
    assert_eq!(request(CredentialsSource::default()), "DeveloperTools");
    assert_eq!(request(CredentialsSource::Environment), "DeveloperTools");
    assert_eq!(request(CredentialsSource::ManagedIdentity), "ManagedIdentity");
    assert_eq!(request(CredentialsSource::AzureCli), "AzureCli");
    let config = AzureConfig::builder()
        .service_principal("tenant", "client", "secret")
        .build();
    assert!(matches!(
        build_credential(&config),
        CredentialRequest::ClientSecret { tenant_id, client_id, client_secret }
            if tenant_id == "tenant" && client_id == "client" && client_secret == "secret"
    ));
}

#[test]
fn configuration_is_built_step_by_step() {
    let config = AzureConfig::builder()
        .storage_account("a")
        .storage_account("b")
        .servicebus_namespace("n")
        .enable("x")
        .enable_blob()
        .enable("x")
        .service_config("x", text_value("1"))
        .service_config("x", text_value("2"))
        .build();
    assert_eq!(config.storage_account.as_deref(), Some("b"));
    assert_eq!(config.servicebus_namespace.as_deref(), Some("n"));
    assert_eq!(config.enabled_services.len(), 2);
    assert_eq!(config.enabled_services.name_at(0), "x");
    assert!(config.is_enabled("x") && config.is_enabled("blob"));
    assert!(!config.is_enabled("queue"));
    assert_eq!(config.service_config("x"), Some(&text_value("2")));
    assert_eq!(config.service_config("y"), None);
    assert!(!config.use_emulator);
    let copy = config.clone();
    assert!(copy.is_enabled("x"));
}

#[test]
fn configuration_is_read_from_variables() {
    let vars = NameMap::new()
        .with("AZURE_STORAGE_ACCOUNT", "a".to_string())
        .with("AZURE_COSMOS_ENDPOINT", "b".to_string())
        .with("AZURE_COSMOS_DATABASE", "c".to_string())
        .with("AZURE_SERVICEBUS_NAMESPACE", "d".to_string())
        .with("AZURE_SERVICEBUS_CONNECTION_STRING", "e".to_string())
        .with("AZURE_KEYVAULT_URL", "f".to_string())
        .with("USE_AZURITE", String::new())
        .with("AZURE_CLIENT_ID", "ignored".to_string());
    let config = AzureConfig::from_env(&vars).enable_blob().build();
    assert_eq!(config.storage_account.as_deref(), Some("a"));
    assert_eq!(config.cosmos_endpoint.as_deref(), Some("b"));
    assert_eq!(config.cosmos_database.as_deref(), Some("c"));
    assert_eq!(config.servicebus_namespace.as_deref(), Some("d"));
    assert_eq!(config.servicebus_connection_string.as_deref(), Some("e"));
    assert_eq!(config.keyvault_url.as_deref(), Some("f"));
    assert!(config.use_emulator);
    assert!(matches!(
        config.credentials,
        CredentialsSource::DefaultCredential
    ));
    let emulated = AzureConfig::from_env(&NameMap::new().with("AZURITE_ACCOUNTS", "x".to_string()));
    assert!(emulated.build().use_emulator);
    let empty = AzureConfig::from_env(&NameMap::new()).build();
    assert!(empty.storage_account.is_none() && !empty.use_emulator);
}

#[test]
fn errors_are_shown() {
    assert_eq!(
        AzureError::not_enabled("blob").to_string(),
        "Service 'blob' is not enabled. Enable the feature flag in Cargo.toml"
    );
    let io = AzureError::from(std::io::Error::new(std::io::ErrorKind::Other, "disk"));
    assert_eq!(io.to_string(), "I/O error: disk");
    assert!(!io.is_retryable());
    assert_eq!(io.status(), None);
    assert_eq!(
        AzureError::Serialization("x".to_string()).to_string(),
        "Serialization error: x"
    );
    assert!(AzureError::Network(String::new()).is_retryable());
}
