//! Laws on configuration and the container of clients: which services are initialized, and when.
use vstd::prelude::*;

use crate::config::{config_from, ConfigView, CredentialsView};
use crate::error::ErrorView;
use crate::servicebus::client::{parsed_connection, ClientView};
use crate::services::{
    accessible, account_outcome, advanced, blob_outcome, blob_request, completed, cosmos_outcome,
    credential_for, init_outcome, keyvault_outcome, no_services, queue_outcome, queue_request,
    service_of, servicebus_client, servicebus_outcome, storage_endpoint, stored, stored_blob,
    stored_cosmos, stored_keyvault, stored_queue, Builds, ClientRequestView, CredentialRequestView,
    Service, ServiceBusConfigView, ServicesView,
};
use crate::uri::{url_parse, UrlView};

verus! {

/// `Environment` asks for the same credential as `DefaultCredential`.
pub proof fn environment_is_the_default()
    ensures
        credential_for(CredentialsView::Environment) == credential_for(
            CredentialsView::DefaultCredential,
        ),
{
}

/// Enabling a service adds it and no other, enabling it again changes nothing, and the order in
/// which services are enabled does not matter to which are.
pub proof fn enabling_adds_one_service(
    config: ConfigView,
    service: Seq<char>,
    other: Seq<char>,
    asked: Seq<char>,
)
    ensures
        config.enabling(service).enables(asked) <==> config.enables(asked) || asked == service,
        config.enabling(service).enabling(service) == config.enabling(service),
        config.enabling(service).enabling(other).enables(asked) <==> config.enabling(
            other,
        ).enabling(service).enables(asked),
{
    lemma_enabling(config, service, asked);
    lemma_enabling(config, service, service);
    lemma_enabling(config, other, asked);
    lemma_enabling(config.enabling(service), other, asked);
    lemma_enabling(config.enabling(other), service, asked);
}

proof fn lemma_enabling(config: ConfigView, service: Seq<char>, asked: Seq<char>)
    ensures
        config.enabling(service).enables(asked) <==> config.enables(asked) || asked == service,
{
    let before = config.enabled_services;
    let after = config.enabling(service).enabled_services;
    if !config.enables(service) {
        assert(after[before.len() as int] == service);
        if before.contains(asked) {
            assert(after[before.index_of(asked)] == asked);
        }
    }
}

/// Whether the client of a service is in the container.
pub open spec fn initialized<B, Q, C, K>(s: ServicesView<B, Q, C, K>, service: Service) -> bool {
    match service {
        Service::Blob => s.blob is Some,
        Service::Queue => s.queue is Some,
        Service::Cosmos => s.cosmos is Some,
        Service::ServiceBus => s.servicebus is Some,
        Service::KeyVault => s.keyvault is Some,
    }
}

/// The service that a request is made for.
pub open spec fn requested(request: ClientRequestView) -> Service {
    match request {
        ClientRequestView::Blob { .. } => Service::Blob,
        ClientRequestView::Queue { .. } => Service::Queue,
        ClientRequestView::Cosmos { .. } => Service::Cosmos,
        ClientRequestView::KeyVault { .. } => Service::KeyVault,
    }
}

/// Whether every known service among the enabled ones before a position is initialized.
pub open spec fn initialized_before<B, Q, C, K>(
    s: ServicesView<B, Q, C, K>,
    position: nat,
) -> bool {
    forall|i: int|
        0 <= i < position && i < s.config.enabled_services.len() ==> (service_of(
            #[trigger] s.config.enabled_services[i],
        ) matches Some(service) ==> initialized(s, service))
}

/// A client is asked for only where its service is enabled and its client is missing; the service
/// is the one just before the position to go on from.
pub proof fn only_enabled_services_are_asked_for<B, Q, C, K>(
    s: ServicesView<B, Q, C, K>,
    position: nat,
    service_config: Option<ServiceBusConfigView>,
)
    ensures
        advanced(s, position, service_config).1 matches Ok((next, Some(request))) ==> {
            &&& position < next <= s.config.enabled_services.len()
            &&& service_of(s.config.enabled_services[next - 1]) == Some(requested(request))
            &&& !initialized(s, requested(request))
        },
    decreases s.config.enabled_services.len() - position,
{
    if position < s.config.enabled_services.len() {
        let service = service_of(s.config.enabled_services[position as int]);
        match init_outcome(s, service, service_config) {
            (after, Ok(None)) => {
                only_enabled_services_are_asked_for(after, position + 1, service_config);
            },
            _ => {},
        }
    }
}

/// Going through the enabled services changes nothing in the container but the Service Bus client,
/// and that only where Service Bus is enabled.
pub proof fn only_enabled_services_are_initialized<B, Q, C, K>(
    s: ServicesView<B, Q, C, K>,
    position: nat,
    service_config: Option<ServiceBusConfigView>,
)
    ensures
        advanced(s, position, service_config).0 == (ServicesView {
            servicebus: advanced(s, position, service_config).0.servicebus,
            ..s
        }),
        s.servicebus is Some || !s.config.enables("servicebus"@) ==> advanced(
            s,
            position,
            service_config,
        ).0 == s,
    decreases s.config.enabled_services.len() - position,
{
    if position < s.config.enabled_services.len() {
        let service = service_of(s.config.enabled_services[position as int]);
        match init_outcome(s, service, service_config) {
            (after, Ok(None)) => {
                only_enabled_services_are_initialized(after, position + 1, service_config);
            },
            _ => {},
        }
    }
}

/// Where nothing more is asked for, every enabled service that is known is initialized, provided
/// those before the position were.
pub proof fn finished_means_initialized<B, Q, C, K>(
    s: ServicesView<B, Q, C, K>,
    position: nat,
    service_config: Option<ServiceBusConfigView>,
)
    requires
        initialized_before(s, position),
    ensures
        advanced(s, position, service_config).1 matches Ok((_, None)) ==> initialized_before(
            advanced(s, position, service_config).0,
            s.config.enabled_services.len(),
        ),
    decreases s.config.enabled_services.len() - position,
{
    if position < s.config.enabled_services.len() {
        let service = service_of(s.config.enabled_services[position as int]);
        match init_outcome(s, service, service_config) {
            (after, Ok(None)) => {
                assert(after.config == s.config);
                assert(initialized_before(after, position + 1)) by {
                    assert forall|i: int|
                        0 <= i < position + 1 && i < after.config.enabled_services.len() implies (
                    service_of(
                        #[trigger] after.config.enabled_services[i],
                    ) matches Some(service) ==> initialized(after, service)) by {
                        if i < position {
                            assert(service_of(s.config.enabled_services[i]) matches Some(service)
                                ==> initialized(s, service));
                        }
                    }
                }
                finished_means_initialized(after, position + 1, service_config);
            },
            _ => {},
        }
    }
}

/// Once every enabled service is initialized, going through them again asks for nothing and changes
/// nothing.
pub proof fn initialization_is_idempotent<B, Q, C, K>(
    s: ServicesView<B, Q, C, K>,
    position: nat,
    service_config: Option<ServiceBusConfigView>,
)
    requires
        initialized_before(s, s.config.enabled_services.len()),
        position <= s.config.enabled_services.len(),
    ensures
        advanced(s, position, service_config).0 == s,
        advanced(s, position, service_config).1 == Ok::<(nat, Option<ClientRequestView>), ErrorView>(
            (s.config.enabled_services.len(), None),
        ),
    decreases s.config.enabled_services.len() - position,
{
    if position < s.config.enabled_services.len() {
        assert(service_of(s.config.enabled_services[position as int]) matches Some(service)
            ==> initialized(s, service));
        initialization_is_idempotent(s, position + 1, service_config);
    }
}

/// The name of a service.
pub open spec fn service_name(service: Service) -> Seq<char> {
    match service {
        Service::Blob => "blob"@,
        Service::Queue => "queue"@,
        Service::Cosmos => "cosmos"@,
        Service::ServiceBus => "servicebus"@,
        Service::KeyVault => "keyvault"@,
    }
}

/// Each service has a name of its own.
pub proof fn services_have_names(service: Service, name: Seq<char>)
    ensures
        service_of(name) == Some(service) <==> name == service_name(service),
{
    reveal_strlit("blob");
    reveal_strlit("queue");
    reveal_strlit("cosmos");
    reveal_strlit("servicebus");
    reveal_strlit("keyvault");
    assert("blob"@.len() == 4);
    assert("queue"@.len() == 5);
    assert("cosmos"@.len() == 6);
    assert("servicebus"@.len() == 10);
    assert("keyvault"@.len() == 8);
}

/// Whether the client of a service can be had under a configuration: what it needs is configured,
/// and building it succeeds.
pub open spec fn available<B, Q, C, K>(
    config: ConfigView,
    service: Service,
    service_config: Option<ServiceBusConfigView>,
    builds: Builds<B, Q, C, K>,
) -> bool {
    &&& init_outcome(no_services::<B, Q, C, K>(config), Some(service), service_config).1 is Ok
    &&& match service {
        Service::Blob => builds.blob is Ok,
        Service::Queue => builds.queue is Ok,
        Service::Cosmos => builds.cosmos is Ok,
        Service::ServiceBus => true,
        Service::KeyVault => builds.keyvault is Ok,
    }
}

/// Whether every enabled service that is known can be had, from a position on.
pub open spec fn available_from<B, Q, C, K>(
    config: ConfigView,
    position: nat,
    service_config: Option<ServiceBusConfigView>,
    builds: Builds<B, Q, C, K>,
) -> bool {
    forall|i: int|
        position <= i < config.enabled_services.len() ==> (service_of(
            #[trigger] config.enabled_services[i],
        ) matches Some(service) ==> available(config, service, service_config, builds))
}

/// The client that was built, where it is wanted.
pub open spec fn wanted<T>(enabled: bool, built: std::result::Result<T, Seq<char>>) -> Option<T> {
    if enabled {
        Some(built->Ok_0)
    } else {
        None
    }
}

/// The container that holds the client of each enabled service, and no other.
pub open spec fn enabled_clients<B, Q, C, K>(
    config: ConfigView,
    service_config: Option<ServiceBusConfigView>,
    builds: Builds<B, Q, C, K>,
) -> ServicesView<B, Q, C, K> {
    ServicesView {
        config,
        blob: wanted(config.enables("blob"@), builds.blob),
        queue: wanted(config.enables("queue"@), builds.queue),
        cosmos: wanted(config.enables("cosmos"@), builds.cosmos),
        servicebus: if config.enables("servicebus"@) {
            Some(servicebus_client(config, service_config)->Ok_0)
        } else {
            None
        },
        keyvault: wanted(config.enables("keyvault"@), builds.keyvault),
    }
}

/// Whether a container holds only clients of enabled services, each as it was built.
spec fn sound<B, Q, C, K>(
    s: ServicesView<B, Q, C, K>,
    service_config: Option<ServiceBusConfigView>,
    builds: Builds<B, Q, C, K>,
) -> bool {
    &&& s.blob matches Some(client) ==> builds.blob == Ok::<B, Seq<char>>(client)
    &&& s.queue matches Some(client) ==> builds.queue == Ok::<Q, Seq<char>>(client)
    &&& s.cosmos matches Some(client) ==> builds.cosmos == Ok::<C, Seq<char>>(client)
    &&& s.servicebus matches Some(client) ==> servicebus_client(s.config, service_config) == Ok::<
        ClientView,
        ErrorView,
    >(client)
    &&& s.keyvault matches Some(client) ==> builds.keyvault == Ok::<K, Seq<char>>(client)
    &&& forall|service: Service| #[trigger]
        initialized(s, service) ==> s.config.enables(service_name(service)) && available(
            s.config,
            service,
            service_config,
            builds,
        )
}

/// The container after the service at a position has been initialized and its client, if one was
/// asked for, has been stored.
spec fn after_one<B, Q, C, K>(
    s: ServicesView<B, Q, C, K>,
    position: nat,
    service_config: Option<ServiceBusConfigView>,
    builds: Builds<B, Q, C, K>,
) -> std::result::Result<ServicesView<B, Q, C, K>, ErrorView> {
    match init_outcome(s, service_of(s.config.enabled_services[position as int]), service_config) {
        (_, Err(e)) => Err(e),
        (after, Ok(None)) => Ok(after),
        (after, Ok(Some(request))) => stored(after, request, builds),
    }
}

/// Initialization takes one service after the other.
proof fn lemma_completed_step<B, Q, C, K>(
    s: ServicesView<B, Q, C, K>,
    position: nat,
    service_config: Option<ServiceBusConfigView>,
    builds: Builds<B, Q, C, K>,
)
    requires
        position < s.config.enabled_services.len(),
    ensures
        completed(s, position, service_config, builds) == (match after_one(
            s,
            position,
            service_config,
            builds,
        ) {
            Err(e) => Err(e),
            Ok(after) => completed(after, position + 1, service_config, builds),
        }),
{
    reveal_with_fuel(advanced, 2);
    reveal_with_fuel(completed, 2);
}

proof fn lemma_completed<B, Q, C, K>(
    s: ServicesView<B, Q, C, K>,
    position: nat,
    service_config: Option<ServiceBusConfigView>,
    builds: Builds<B, Q, C, K>,
)
    requires
        sound(s, service_config, builds),
        initialized_before(s, position),
        position <= s.config.enabled_services.len(),
    ensures
        completed(s, position, service_config, builds) is Ok <==> available_from(
            s.config,
            position,
            service_config,
            builds,
        ),
        completed(s, position, service_config, builds) matches Ok(end) ==> end.config == s.config
            && sound(end, service_config, builds) && initialized_before(
            end,
            s.config.enabled_services.len(),
        ),
    decreases s.config.enabled_services.len() - position,
{
    let all = s.config.enabled_services;
    if position < all.len() {
        lemma_completed_step(s, position, service_config, builds);
        let name = all[position as int];
        let service = service_of(name);
        if service is Some {
            services_have_names(service->0, name);
            assert(s.config.enables(name));
        }
        let one = after_one(s, position, service_config, builds);
        assert(one is Ok <==> (service matches Some(known) ==> available(
            s.config,
            known,
            service_config,
            builds,
        ))) by {
            if service is Some {
                assert(initialized(s, service->0) ==> available(
                    s.config,
                    service->0,
                    service_config,
                    builds,
                ));
            }
        }
        if one is Ok {
            let after = one->Ok_0;
            assert(after.config == s.config);
            assert forall|other: Service| #[trigger] initialized(after, other) <==> initialized(
                s,
                other,
            ) || service == Some(other) by {}
            assert(initialized_before(after, position + 1)) by {
                assert forall|i: int|
                    0 <= i < position + 1 && i < after.config.enabled_services.len() implies (
                service_of(#[trigger] after.config.enabled_services[i]) matches Some(known)
                    ==> initialized(after, known)) by {
                    if i < position {
                        assert(service_of(s.config.enabled_services[i]) matches Some(known)
                            ==> initialized(s, known));
                    }
                }
            }
            lemma_completed(after, position + 1, service_config, builds);
        }
        assert(available_from(s.config, position, service_config, builds) <==> (
        service matches Some(known) ==> available(s.config, known, service_config, builds))
            && available_from(s.config, position + 1, service_config, builds)) by {
            if available_from(s.config, position, service_config, builds) {
                assert(service_of(all[position as int]) == service);
            }
        }
    }
}

/// Initializing a fresh container succeeds exactly when every enabled service that is known can be
/// had. It then holds the client of a service if and only if that service is enabled, and each
/// client as it was built.
pub proof fn clients_are_stored_if_enabled<B, Q, C, K>(
    config: ConfigView,
    service_config: Option<ServiceBusConfigView>,
    builds: Builds<B, Q, C, K>,
)
    ensures
        completed(no_services::<B, Q, C, K>(config), 0, service_config, builds) is Ok
            <==> available_from(config, 0, service_config, builds),
        completed(no_services::<B, Q, C, K>(config), 0, service_config, builds) matches Ok(end) ==> {
            &&& end == enabled_clients(config, service_config, builds)
            &&& forall|service: Service| #[trigger]
                initialized(end, service) <==> config.enables(service_name(service))
        },
{
    let start = no_services::<B, Q, C, K>(config);
    assert forall|service: Service| !#[trigger] initialized(start, service) by {}
    lemma_completed(start, 0, service_config, builds);
    let r = completed(start, 0, service_config, builds);
    if r is Ok {
        let end = r->Ok_0;
        assert forall|service: Service| #[trigger] initialized(end, service) <==> config.enables(
            service_name(service),
        ) by {
            if config.enables(service_name(service)) {
                let i = config.enabled_services.index_of(service_name(service));
                services_have_names(service, config.enabled_services[i]);
                assert(service_of(end.config.enabled_services[i]) == Some(service));
            }
        }
        assert(initialized(end, Service::Blob) <==> config.enables("blob"@));
        assert(initialized(end, Service::Queue) <==> config.enables("queue"@));
        assert(initialized(end, Service::Cosmos) <==> config.enables("cosmos"@));
        assert(initialized(end, Service::ServiceBus) <==> config.enables("servicebus"@));
        assert(initialized(end, Service::KeyVault) <==> config.enables("keyvault"@));
    }
}

/// The order in which services were enabled matters neither to whether initialization succeeds nor
/// to the clients that are then there.
pub proof fn services_may_be_enabled_in_any_order<B, Q, C, K>(
    config: ConfigView,
    other: ConfigView,
    service_config: Option<ServiceBusConfigView>,
    builds: Builds<B, Q, C, K>,
)
    requires
        other == (ConfigView { enabled_services: other.enabled_services, ..config }),
        forall|name: Seq<char>| #[trigger] config.enables(name) <==> other.enables(name),
    ensures
        completed(no_services::<B, Q, C, K>(config), 0, service_config, builds) is Ok <==> completed(
            no_services::<B, Q, C, K>(other),
            0,
            service_config,
            builds,
        ) is Ok,
        completed(no_services::<B, Q, C, K>(config), 0, service_config, builds) matches Ok(a) ==> (
        completed(no_services::<B, Q, C, K>(other), 0, service_config, builds) matches Ok(b) ==> b
            == (ServicesView { config: other, ..a })),
{
    clients_are_stored_if_enabled(config, service_config, builds);
    clients_are_stored_if_enabled(other, service_config, builds);
    if available_from(config, 0, service_config, builds) {
        lemma_available_alike(config, other, service_config, builds);
    }
    if available_from(other, 0, service_config, builds) {
        lemma_available_alike(other, config, service_config, builds);
    }
}

proof fn lemma_available_alike<B, Q, C, K>(
    config: ConfigView,
    other: ConfigView,
    service_config: Option<ServiceBusConfigView>,
    builds: Builds<B, Q, C, K>,
)
    requires
        other == (ConfigView { enabled_services: other.enabled_services, ..config }),
        forall|name: Seq<char>| #[trigger] config.enables(name) <==> other.enables(name),
        available_from(config, 0, service_config, builds),
    ensures
        available_from(other, 0, service_config, builds),
{
    assert forall|i: int| 0 <= i < other.enabled_services.len() implies (service_of(
        #[trigger] other.enabled_services[i],
    ) matches Some(service) ==> available(other, service, service_config, builds)) by {
        let name = other.enabled_services[i];
        assert(other.enables(name));
        assert(config.enables(name));
        let j = config.enabled_services.index_of(name);
        assert(config.enabled_services[j] == name);
    }
}

/// What is asked for where an endpoint is read as a URL, and the error where it is not.
pub open spec fn asked(
    request: ClientRequestView,
    read: std::result::Result<UrlView, Seq<char>>,
) -> std::result::Result<Option<ClientRequestView>, ErrorView> {
    match read {
        Ok(_) => Ok(Some(request)),
        Err(e) => Err(ErrorView::Config(e)),
    }
}

/// The Blob Storage client of an account is asked for at `https://`, the whole name of the account
/// and `.blob.core.windows.net/`, with the credential; that of the emulator at
/// `http://127.0.0.1:10000/` and the whole name of the account, without it. Nothing is asked for
/// where the client is there, and it is an error that there is no account.
pub proof fn blob_clients_are_those_of_the_account<B, Q, C, K>(
    s: ServicesView<B, Q, C, K>,
    account: Seq<char>,
)
    ensures
        s.blob is Some ==> blob_outcome(s) == Ok::<Option<ClientRequestView>, ErrorView>(None),
        s.blob is None && s.config.storage_account is None ==> blob_outcome(s) == Err::<
            Option<ClientRequestView>,
            ErrorView,
        >(ErrorView::StorageAccountNotSpecified),
        s.blob is None && s.config.storage_account == Some(account) && !s.config.use_emulator
            ==> blob_outcome(s) == asked(
            ClientRequestView::Blob {
                endpoint: "https://"@ + account + ".blob.core.windows.net/"@,
                authenticated: true,
            },
            url_parse("https://"@ + account + ".blob.core.windows.net/"@),
        ),
        s.blob is None && s.config.storage_account == Some(account) && s.config.use_emulator
            ==> blob_outcome(s) == asked(
            ClientRequestView::Blob {
                endpoint: "http://127.0.0.1:10000/"@ + account,
                authenticated: false,
            },
            url_parse("http://127.0.0.1:10000/"@ + account),
        ),
{
    reveal_strlit("https://");
    reveal_strlit(".");
    reveal_strlit("blob");
    reveal_strlit(".core.windows.net/");
    reveal_strlit(".blob.core.windows.net/");
    reveal_strlit("http://127.0.0.1:");
    reveal_strlit("10000");
    reveal_strlit("/");
    reveal_strlit("http://127.0.0.1:10000/");
    assert(storage_endpoint(account, false, "10000"@, "blob"@) =~= "https://"@ + account
        + ".blob.core.windows.net/"@);
    assert(storage_endpoint(account, true, "10000"@, "blob"@) =~= "http://127.0.0.1:10000/"@
        + account);
}

/// The Queue Storage client of an account is asked for at `https://`, the whole name of the account
/// and `.queue.core.windows.net/`, with the credential; that of the emulator at
/// `http://127.0.0.1:10001/` and the whole name of the account, without it. Nothing is asked for
/// where the client is there, and it is an error that there is no account.
pub proof fn queue_clients_are_those_of_the_account<B, Q, C, K>(
    s: ServicesView<B, Q, C, K>,
    account: Seq<char>,
)
    ensures
        s.queue is Some ==> queue_outcome(s) == Ok::<Option<ClientRequestView>, ErrorView>(None),
        s.queue is None && s.config.storage_account is None ==> queue_outcome(s) == Err::<
            Option<ClientRequestView>,
            ErrorView,
        >(ErrorView::StorageAccountNotSpecified),
        s.queue is None && s.config.storage_account == Some(account) && !s.config.use_emulator
            ==> queue_outcome(s) == asked(
            ClientRequestView::Queue {
                endpoint: "https://"@ + account + ".queue.core.windows.net/"@,
                authenticated: true,
            },
            url_parse("https://"@ + account + ".queue.core.windows.net/"@),
        ),
        s.queue is None && s.config.storage_account == Some(account) && s.config.use_emulator
            ==> queue_outcome(s) == asked(
            ClientRequestView::Queue {
                endpoint: "http://127.0.0.1:10001/"@ + account,
                authenticated: false,
            },
            url_parse("http://127.0.0.1:10001/"@ + account),
        ),
{
    reveal_strlit("https://");
    reveal_strlit(".");
    reveal_strlit("queue");
    reveal_strlit(".core.windows.net/");
    reveal_strlit(".queue.core.windows.net/");
    reveal_strlit("http://127.0.0.1:");
    reveal_strlit("10001");
    reveal_strlit("/");
    reveal_strlit("http://127.0.0.1:10001/");
    assert(storage_endpoint(account, false, "10001"@, "queue"@) =~= "https://"@ + account
        + ".queue.core.windows.net/"@);
    assert(storage_endpoint(account, true, "10001"@, "queue"@) =~= "http://127.0.0.1:10001/"@
        + account);
}

/// Different accounts have different endpoints, with the emulator and without, so that no client is
/// that of another account.
pub proof fn different_accounts_have_different_endpoints<B, Q, C, K>(
    s: ServicesView<B, Q, C, K>,
    t: ServicesView<B, Q, C, K>,
    a: Seq<char>,
    b: Seq<char>,
)
    requires
        s.config.storage_account == Some(a),
        t.config.storage_account == Some(b),
        s.config.use_emulator == t.config.use_emulator,
        s.blob is None && t.blob is None && blob_outcome(s) is Ok && blob_outcome(s)
            == blob_outcome(t) || s.queue is None && t.queue is None && queue_outcome(s) is Ok
            && queue_outcome(s) == queue_outcome(t),
    ensures
        a == b,
{
    blob_clients_are_those_of_the_account(s, a);
    blob_clients_are_those_of_the_account(t, b);
    queue_clients_are_those_of_the_account(s, a);
    queue_clients_are_those_of_the_account(t, b);
    if s.config.use_emulator {
        let blobs = "http://127.0.0.1:10000/"@;
        let queues = "http://127.0.0.1:10001/"@;
        if blobs + a == blobs + b {
            lemma_behind(blobs, a, b, seq![]);
        }
        if queues + a == queues + b {
            lemma_behind(queues, a, b, seq![]);
        }
    } else {
        let front = "https://"@;
        let blobs = ".blob.core.windows.net/"@;
        let queues = ".queue.core.windows.net/"@;
        if front + a + blobs == front + b + blobs {
            lemma_behind(front, a, b, blobs);
        }
        if front + a + queues == front + b + queues {
            lemma_behind(front, a, b, queues);
        }
    }
}

proof fn lemma_behind(front: Seq<char>, a: Seq<char>, b: Seq<char>, back: Seq<char>)
    requires
        front + a + back == front + b + back || front + a == front + b,
    ensures
        a == b,
{
    let x = front + a;
    let y = front + b;
    assert((x + back).len() == x.len() + back.len());
    assert((y + back).len() == y.len() + back.len());
    assert(x.len() == y.len());
    assert forall|i: int| 0 <= i < a.len() implies a[i] == b[i] by {
        assert(x[front.len() + i] == a[i]);
        assert(y[front.len() + i] == b[i]);
        assert((x + back)[front.len() + i] == a[i]);
        assert((y + back)[front.len() + i] == b[i]);
    }
    assert(a =~= b);
}

/// A storage client at an endpoint is asked for at that endpoint, with the credential unless it is
/// the emulator's; a Cosmos DB client is asked for at its endpoint. The error is that of reading the
/// endpoint.
pub proof fn clients_are_asked_for_at_their_endpoint(
    endpoint: Seq<char>,
    emulator: bool,
    read: std::result::Result<UrlView, Seq<char>>,
    e: Seq<char>,
)
    ensures
        blob_request(endpoint, emulator, read) == asked(
            ClientRequestView::Blob { endpoint, authenticated: !emulator },
            read,
        ),
        queue_request(endpoint, emulator, read) == asked(
            ClientRequestView::Queue { endpoint, authenticated: !emulator },
            read,
        ),
        account_outcome(endpoint, Ok(())) == Ok::<Option<ClientRequestView>, ErrorView>(
            Some(ClientRequestView::Cosmos { endpoint }),
        ),
        account_outcome(endpoint, Err(e)) == Err::<Option<ClientRequestView>, ErrorView>(
            ErrorView::Config(e),
        ),
{
}

/// The Cosmos DB client is asked for at the configured endpoint, where that is a URL, and the Key
/// Vault client at the configured URL, as they stand. Nothing is asked for where the client is there.
pub proof fn cosmos_and_key_vault_clients_are_those_configured<B, Q, C, K>(
    s: ServicesView<B, Q, C, K>,
    text: Seq<char>,
)
    ensures
        s.cosmos is Some ==> cosmos_outcome(s) == Ok::<Option<ClientRequestView>, ErrorView>(None),
        s.cosmos is None && s.config.cosmos_endpoint is None ==> cosmos_outcome(s) == Err::<
            Option<ClientRequestView>,
            ErrorView,
        >(ErrorView::Config("Cosmos DB endpoint not specified"@)),
        s.cosmos is None && s.config.cosmos_endpoint == Some(text) ==> cosmos_outcome(s) == (
        match url_parse(text) {
            Ok(_) => Ok::<Option<ClientRequestView>, ErrorView>(
                Some(ClientRequestView::Cosmos { endpoint: text }),
            ),
            Err(_) => Err::<Option<ClientRequestView>, ErrorView>(
                ErrorView::Config(
                    "400/20108 (ClientInvalidAccountEndpointUrl): invalid account endpoint URL"@,
                ),
            ),
        }),
        s.keyvault is Some ==> keyvault_outcome(s) == Ok::<Option<ClientRequestView>, ErrorView>(
            None,
        ),
        s.keyvault is None && s.config.keyvault_url is None ==> keyvault_outcome(s) == Err::<
            Option<ClientRequestView>,
            ErrorView,
        >(ErrorView::Config("Key Vault URL not specified"@)),
        s.keyvault is None && s.config.keyvault_url == Some(text) ==> keyvault_outcome(s) == Ok::<
            Option<ClientRequestView>,
            ErrorView,
        >(Some(ClientRequestView::KeyVault { vault_url: text })),
{
}

/// The Service Bus client comes from the connection string where there is one, else from the
/// configuration of the service with its policy and its whole key. The namespace of the service
/// comes before the general one.
pub proof fn service_bus_clients_follow_the_configuration(
    config: ConfigView,
    conn: Seq<char>,
    service: ServiceBusConfigView,
    namespace: Seq<char>,
    service_config: Option<ServiceBusConfigView>,
)
    ensures
        config.servicebus_connection_string == Some(conn) ==> servicebus_client(
            config,
            service_config,
        ) == parsed_connection(conn),
        config.servicebus_connection_string is None && service_config is None ==> servicebus_client(
            config,
            service_config,
        ) == Err::<ClientView, ErrorView>(
            ErrorView::Config(
                "Service Bus requires SAS credentials: set servicebus_connection_string, or a service_config(\"servicebus\") with policy_name + shared_access_key. The azure_messaging_servicebus 0.21 SDK is SAS-based and has no token-credential path."@,
            ),
        ),
        config.servicebus_connection_string is None && service_config == Some(service) && (
        service.namespace == Some(namespace) || service.namespace is None
            && config.servicebus_namespace == Some(namespace)) ==> servicebus_client(
            config,
            service_config,
        ) == Ok::<ClientView, ErrorView>(
            ClientView {
                namespace,
                policy_name: service.policy_name,
                shared_access_key: service.shared_access_key,
                endpoint: "https://"@ + namespace + ".servicebus.windows.net"@,
            },
        ),
        config.servicebus_connection_string is None && service_config == Some(service)
            && service.namespace is None && config.servicebus_namespace is None
            ==> servicebus_client(config, service_config) == Err::<ClientView, ErrorView>(
            ErrorView::Config(
                "Service Bus namespace not specified (set servicebus_namespace or include it in service_config(\"servicebus\"))"@,
            ),
        ),
{
}

/// Initializing a service does what is done for that service and for no other. Service Bus is built
/// at once, and stays where it is there; a service that is not known is passed over.
pub proof fn each_service_is_initialized_by_itself<B, Q, C, K>(
    s: ServicesView<B, Q, C, K>,
    service_config: Option<ServiceBusConfigView>,
)
    ensures
        init_outcome(s, None, service_config) == (
            s,
            Ok::<Option<ClientRequestView>, ErrorView>(None),
        ),
        init_outcome(s, Some(Service::Blob), service_config) == (s, blob_outcome(s)),
        init_outcome(s, Some(Service::Queue), service_config) == (s, queue_outcome(s)),
        init_outcome(s, Some(Service::Cosmos), service_config) == (s, cosmos_outcome(s)),
        init_outcome(s, Some(Service::KeyVault), service_config) == (s, keyvault_outcome(s)),
        s.servicebus is Some ==> servicebus_outcome(s, service_config) == Ok::<
            ServicesView<B, Q, C, K>,
            ErrorView,
        >(s),
        s.servicebus is None ==> servicebus_outcome(s, service_config) == (match servicebus_client(
            s.config,
            service_config,
        ) {
            Ok(client) => Ok::<ServicesView<B, Q, C, K>, ErrorView>(
                ServicesView {
                    config: s.config,
                    blob: s.blob,
                    queue: s.queue,
                    cosmos: s.cosmos,
                    servicebus: Some(client),
                    keyvault: s.keyvault,
                },
            ),
            Err(e) => Err::<ServicesView<B, Q, C, K>, ErrorView>(e),
        }),
        init_outcome(s, Some(Service::ServiceBus), service_config) == (match servicebus_outcome(
            s,
            service_config,
        ) {
            Ok(after) => (after, Ok::<Option<ClientRequestView>, ErrorView>(None)),
            Err(e) => (s, Err::<Option<ClientRequestView>, ErrorView>(e)),
        }),
{
}

/// Going through the enabled services takes one after the other, from the position on: the first
/// error ends it, the first client that is asked for interrupts it just behind its service.
pub proof fn services_are_taken_one_after_the_other<B, Q, C, K>(
    s: ServicesView<B, Q, C, K>,
    position: nat,
    service_config: Option<ServiceBusConfigView>,
)
    ensures
        position >= s.config.enabled_services.len() ==> advanced(s, position, service_config) == (
            s,
            Ok::<(nat, Option<ClientRequestView>), ErrorView>((position, None)),
        ),
        position < s.config.enabled_services.len() ==> {
            let one = init_outcome(
                s,
                service_of(s.config.enabled_services[position as int]),
                service_config,
            );
            &&& one.1 matches Err(e) ==> advanced(s, position, service_config) == (
                one.0,
                Err::<(nat, Option<ClientRequestView>), ErrorView>(e),
            )
            &&& one.1 matches Ok(Some(request)) ==> advanced(s, position, service_config) == (
                one.0,
                Ok::<(nat, Option<ClientRequestView>), ErrorView>((position + 1, Some(request))),
            )
            &&& one.1 matches Ok(None) ==> advanced(s, position, service_config) == advanced(
                one.0,
                position + 1,
                service_config,
            )
        },
{
    reveal_with_fuel(advanced, 2);
}

/// A container starts with its configuration and no client.
pub proof fn containers_start_empty<B, Q, C, K>(config: ConfigView, service: Service)
    ensures
        no_services::<B, Q, C, K>(config).config == config,
        !initialized(no_services::<B, Q, C, K>(config), service),
{
}

/// A client that was built is stored for its own service, and nothing else changes; a Cosmos DB
/// client that is there stays. One that could not be built is an error that says why.
pub proof fn built_clients_are_stored<B, Q, C, K>(
    s: ServicesView<B, Q, C, K>,
    blob: B,
    queue: Q,
    cosmos: C,
    keyvault: K,
    e: Seq<char>,
)
    ensures
        stored_blob(s, Ok(blob)) == Ok::<ServicesView<B, Q, C, K>, ErrorView>(
            ServicesView {
                config: s.config,
                blob: Some(blob),
                queue: s.queue,
                cosmos: s.cosmos,
                servicebus: s.servicebus,
                keyvault: s.keyvault,
            },
        ),
        stored_queue(s, Ok(queue)) == Ok::<ServicesView<B, Q, C, K>, ErrorView>(
            ServicesView {
                config: s.config,
                blob: s.blob,
                queue: Some(queue),
                cosmos: s.cosmos,
                servicebus: s.servicebus,
                keyvault: s.keyvault,
            },
        ),
        stored_cosmos(s, Ok(cosmos)) == Ok::<ServicesView<B, Q, C, K>, ErrorView>(
            ServicesView {
                config: s.config,
                blob: s.blob,
                queue: s.queue,
                cosmos: if s.cosmos is Some {
                    s.cosmos
                } else {
                    Some(cosmos)
                },
                servicebus: s.servicebus,
                keyvault: s.keyvault,
            },
        ),
        stored_keyvault(s, Ok(keyvault)) == Ok::<ServicesView<B, Q, C, K>, ErrorView>(
            ServicesView {
                config: s.config,
                blob: s.blob,
                queue: s.queue,
                cosmos: s.cosmos,
                servicebus: s.servicebus,
                keyvault: Some(keyvault),
            },
        ),
        stored_blob(s, Err(e)) == Err::<ServicesView<B, Q, C, K>, ErrorView>(ErrorView::Service(e)),
        stored_queue(s, Err(e)) == Err::<ServicesView<B, Q, C, K>, ErrorView>(
            ErrorView::Service(e),
        ),
        stored_cosmos(s, Err(e)) == Err::<ServicesView<B, Q, C, K>, ErrorView>(
            ErrorView::Service(e),
        ),
        stored_keyvault(s, Err(e)) == Err::<ServicesView<B, Q, C, K>, ErrorView>(
            ErrorView::Config(e),
        ),
{
}

/// A client is handed out exactly where its service is enabled and the client is there. A service
/// that is not enabled is named in the error; what is missing is said where the client is not there.
pub proof fn clients_are_handed_out_if_enabled<T>(
    config: ConfigView,
    service: Seq<char>,
    client: T,
    missing: Seq<char>,
)
    ensures
        ({
            let enabled = exists|i: int|
                0 <= i < config.enabled_services.len() && #[trigger] config.enabled_services[i]
                    == service;
            &&& config.enables(service) <==> enabled
            &&& accessible(config, service, Some(client), missing) == (if enabled {
                Ok::<T, ErrorView>(client)
            } else {
                Err::<T, ErrorView>(ErrorView::ServiceNotConfigured(service))
            })
            &&& accessible(config, service, None::<T>, missing) == (if enabled {
                Err::<T, ErrorView>(ErrorView::Service(missing))
            } else {
                Err::<T, ErrorView>(ErrorView::ServiceNotConfigured(service))
            })
        }),
{
}

/// The credential that is built is the one of the credentials source, with the whole tenant, client
/// and secret of a service principal.
pub proof fn credentials_are_those_configured(
    tenant_id: Seq<char>,
    client_id: Seq<char>,
    client_secret: Seq<char>,
)
    ensures
        credential_for(CredentialsView::DefaultCredential) == CredentialRequestView::DeveloperTools,
        credential_for(CredentialsView::Environment) == CredentialRequestView::DeveloperTools,
        credential_for(CredentialsView::ManagedIdentity) == CredentialRequestView::ManagedIdentity,
        credential_for(CredentialsView::AzureCli) == CredentialRequestView::AzureCli,
        credential_for(
            CredentialsView::ServicePrincipal { tenant_id, client_id, client_secret },
        ) == (CredentialRequestView::ClientSecret { tenant_id, client_id, client_secret }),
{
}

/// The value that a variable gives a setting: all of it, or none where it is not there.
pub open spec fn value_of(vars: Map<Seq<char>, String>, name: Seq<char>) -> Option<Seq<char>> {
    if vars.contains_key(name) {
        Some(vars[name]@)
    } else {
        None
    }
}

/// Each variable gives its own setting its whole value. The emulator is used where one of its two
/// variables is there, whatever it holds, and nothing else is set.
pub proof fn variables_give_their_settings(vars: Map<Seq<char>, String>)
    ensures
        config_from(vars) == (ConfigView {
            storage_account: value_of(vars, "AZURE_STORAGE_ACCOUNT"@),
            cosmos_endpoint: value_of(vars, "AZURE_COSMOS_ENDPOINT"@),
            cosmos_database: value_of(vars, "AZURE_COSMOS_DATABASE"@),
            servicebus_namespace: value_of(vars, "AZURE_SERVICEBUS_NAMESPACE"@),
            servicebus_connection_string: value_of(vars, "AZURE_SERVICEBUS_CONNECTION_STRING"@),
            keyvault_url: value_of(vars, "AZURE_KEYVAULT_URL"@),
            credentials: CredentialsView::DefaultCredential,
            enabled_services: seq![],
            service_configs: Map::empty(),
            use_emulator: vars.contains_key("AZURITE_ACCOUNTS"@) || vars.contains_key(
                "USE_AZURITE"@,
            ),
        }),
        ConfigView::unset() == (ConfigView {
            storage_account: None,
            cosmos_endpoint: None,
            cosmos_database: None,
            servicebus_namespace: None,
            servicebus_connection_string: None,
            keyvault_url: None,
            credentials: CredentialsView::DefaultCredential,
            enabled_services: seq![],
            service_configs: Map::empty(),
            use_emulator: false,
        }),
{
}

/// Enabling a service puts its whole name behind those that are enabled, once, and changes no other
/// setting.
pub proof fn enabling_keeps_all_else(config: ConfigView, service: Seq<char>)
    ensures
        config.enabling(service) == (ConfigView {
            storage_account: config.storage_account,
            cosmos_endpoint: config.cosmos_endpoint,
            cosmos_database: config.cosmos_database,
            servicebus_namespace: config.servicebus_namespace,
            servicebus_connection_string: config.servicebus_connection_string,
            keyvault_url: config.keyvault_url,
            credentials: config.credentials,
            enabled_services: if config.enabled_services.contains(service) {
                config.enabled_services
            } else {
                config.enabled_services.push(service)
            },
            service_configs: config.service_configs,
            use_emulator: config.use_emulator,
        }),
{
}

} // verus!
