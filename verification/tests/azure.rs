use std::sync::Arc;

use azure_core::http::policies::BearerTokenAuthorizationPolicy;
use bytes::Bytes;

use vector_agent::sinks::azure_common::client::{
    build_client, connection_client, entra_client, open_client, open_token_client, plan_client,
    sign_with, Auth, Authorization, ClientPlan, ContainerClient, ParsedConnectionString,
    STORAGE_VERSION,
};
use vector_agent::sinks::azure_common::config::{
    AzureBlobAuthConfig, AzureBlobEntraAuthMethod, AzureBlobEntraIdConfig, SensitiveString,
};
use vector_agent::sinks::azure_common::container::{HeldCredential, HeldPolicy};
use vector_agent::sinks::azure_common::credential::{
    default_chain, report, report_developer_tools, report_workload_identity, CredentialSource,
    TokenSource,
};
use vector_agent::sinks::azure_common::endpoint::Endpoint;
use vector_agent::sinks::azure_common::healthcheck::{
    build_healthcheck, AzureBlobRetryLogic, HealthcheckError, HealthcheckFailure, RequestError,
};
use vector_agent::sinks::azure_common::http::{HttpTransport, ProxyScope};
use vector_agent::sinks::azure_common::proxy::{plan_proxies, ProxyConfig, ProxyPlan};
use vector_agent::sinks::azure_common::request::{
    AzureBlobMetadata, AzureBlobRequest, AzureBlobResponse, EventStatus, JsonSize,
};
use vector_agent::sinks::azure_common::token_round::{TokenAction, TokenRound};
use vector_agent::sinks::azure_common::transport::{as_transport, build_transport};

fn entra(method: AzureBlobEntraAuthMethod) -> AzureBlobEntraIdConfig {
    AzureBlobEntraIdConfig {
        endpoint: "https://example.blob.core.windows.net".to_string(),
        tenant_id: None,
        client_id: None,
        client_secret: None,
        auth_method: method,
    }
}

fn auth(entra_id: Option<AzureBlobEntraIdConfig>) -> AzureBlobAuthConfig {
    AzureBlobAuthConfig { connection_string: SensitiveString::new(String::new()), entra_id }
}

fn unread(_: &SensitiveString, _: &String) -> Result<ParsedConnectionString, String> {
    panic!("there is no connection string to read")
}

fn unsigned(_: String, _: SensitiveString, _: &'static str) -> Result<HeldPolicy, String> {
    panic!("there is no key to sign with")
}

fn parsed(url: &str, auth: Auth) -> ParsedConnectionString {
    ParsedConnectionString { container_url: Ok(url.to_string()), auth }
}

fn endpoint(text: &str) -> Endpoint {
    accepted(Endpoint::parse(text))
}

fn credential() -> HeldCredential {
    HeldCredential(azure_identity::DeveloperToolsCredential::new(None).unwrap())
}

fn policy() -> HeldPolicy {
    HeldPolicy(Arc::new(BearerTokenAuthorizationPolicy::new(credential().0, ["scope"])))
}

fn transport() -> HttpTransport {
    accepted(build_transport(ProxyPlan::Bypass))
}

fn refusal<T>(result: Result<T, String>) -> String {
    match result {
        Ok(_) => panic!("expected a refusal"),
        Err(message) => message,
    }
}

fn accepted<T>(result: Result<T, String>) -> T {
    match result {
        Ok(value) => value,
        Err(message) => panic!("refused: {}", message),
    }
}

// --- Building clients ---

#[test]
fn build_client_requires_connection_string_or_entra() {
    let result = build_client(
        &AzureBlobAuthConfig {
            connection_string: SensitiveString::new(String::new()),
            entra_id: None,
        },
        "logs".to_string(),
        &ProxyConfig::default(),
        unread,
        unsigned,
    );

    match result {
        Ok(_) => panic!("expected missing auth configuration to fail"),
        Err(error) => {
            assert!(error.to_string().contains("either `connection_string` or `entra_id`"))
        }
    }
}

#[test]
fn entra_client_secret_requires_client_id() {
    let result = build_client(
        &AzureBlobAuthConfig {
            connection_string: SensitiveString::new(String::new()),
            entra_id: Some(AzureBlobEntraIdConfig {
                endpoint: "https://example.blob.core.windows.net".to_string(),
                tenant_id: Some("tenant".to_string()),
                client_id: None,
                client_secret: Some(SensitiveString::new(String::from("secret"))),
                auth_method: AzureBlobEntraAuthMethod::ClientSecret,
            }),
        },
        "logs".to_string(),
        &ProxyConfig::default(),
        unread,
        unsigned,
    );

    match result {
        Ok(_) => panic!("expected incomplete client secret auth config to fail"),
        Err(error) => assert!(error.to_string().contains("`entra_id.client_id` is required")),
    }
}

#[test]
fn connection_string_gives_a_client_of_its_url() {
    let config = AzureBlobAuthConfig {
        connection_string: SensitiveString::new("BlobEndpoint=...".to_string()),
        entra_id: None,
    };
    let built = accepted(build_client(
        &config,
        "logs".to_string(),
        &ProxyConfig::default(),
        |connection_string, container_name| {
            assert_eq!(connection_string.inner(), "BlobEndpoint=...");
            Ok(parsed(
                &format!("HTTPS://Example.com:443/{}?sig=x", container_name),
                Auth::Sas { query: "sig=x".to_string() },
            ))
        },
        unsigned,
    ));
    match built {
        ContainerClient::Opened(container) => {
            assert_eq!(container.url(), "https://example.com/logs?sig=x");
            assert!(container.policies().is_empty());
            assert!(container.transport().routing().system);
            assert_eq!(container.into_client().url().as_str(), "https://example.com/logs?sig=x");
        }
        ContainerClient::NeedsToken(_) => panic!("no token is needed"),
    }
}

#[test]
fn shared_keys_sign_with_one_policy() {
    let signing = policy();
    let handed_over = signing.0.clone();
    let plan = accepted(connection_client(
        Ok(parsed(
            "http://127.0.0.1:10000/devstore/logs",
            Auth::SharedKey {
                account_name: "devstore".to_string(),
                account_key: SensitiveString::new("a2V5".to_string()),
            },
        )),
        "logs".to_string(),
        &ProxyConfig::default(),
        |account_name, account_key, version| {
            assert_eq!(account_name, "devstore");
            assert_eq!(account_key.inner(), "a2V5");
            assert_eq!(version, "2025-11-05");
            Ok(signing)
        },
    ));
    assert_eq!(plan.endpoint.text(), "http://127.0.0.1:10000/devstore/logs");
    assert_eq!(plan.endpoint.host(), Some("127.0.0.1"));
    assert_eq!(plan.endpoint.port(), Some(10000));
    let ClientPlan { endpoint, container_name, authorization, proxies } = plan;
    let built =
        accepted(open_client(endpoint, container_name, authorization, build_transport(proxies)));
    match built {
        ContainerClient::Opened(container) => {
            assert_eq!(container.url(), "http://127.0.0.1:10000/devstore/logs");
            assert_eq!(container.policies().len(), 1);
            assert!(Arc::ptr_eq(&container.policies()[0].0, &handed_over));
        }
        ContainerClient::NeedsToken(_) => panic!("no token is needed"),
    }
    assert_eq!(STORAGE_VERSION, "2025-11-05");
}

#[test]
fn connection_string_takes_precedence_over_entra() {
    let config = AzureBlobAuthConfig {
        connection_string: SensitiveString::new("nonsense".to_string()),
        entra_id: Some(entra(AzureBlobEntraAuthMethod::DeveloperTools)),
    };
    let message = refusal(build_client(
        &config,
        "logs".to_string(),
        &ProxyConfig::default(),
        |_, _| Err("no account".to_string()),
        unsigned,
    ));
    assert_eq!(message, "Invalid connection string: no account");
}

#[test]
fn connection_strings_are_refused_for_each_fault() {
    let proxy = ProxyConfig::default();
    let plan = |parsed: ParsedConnectionString| {
        refusal(connection_client(Ok(parsed), "logs".to_string(), &proxy, |_, _, _| {
            Err("bad key".to_string())
        }))
    };
    let key = || Auth::SharedKey {
        account_name: "devstore".to_string(),
        account_key: SensitiveString::new("?".to_string()),
    };

    let mut no_url = parsed("https://example.com/logs", key());
    no_url.container_url = Err("no endpoint".to_string());
    assert_eq!(plan(no_url), "Failed to build container URL: no endpoint");
    assert_eq!(
        plan(parsed("example", key())),
        "Invalid container URL: relative URL without a base"
    );
    assert_eq!(
        plan(parsed("https://example.com/logs", key())),
        "Failed to create SharedKey policy: bad key"
    );
    assert_eq!(
        sign_with(Err("bad key".to_string())).err(),
        Some("Failed to create SharedKey policy: bad key".to_string())
    );
}

#[test]
fn nothing_is_signed_without_a_key() {
    let plan = accepted(connection_client(
        Ok(parsed("https://example.com/logs", Auth::Anonymous)),
        "logs".to_string(),
        &ProxyConfig::default(),
        unsigned,
    ));
    assert!(matches!(plan.authorization, Authorization::InUrl));
}

#[test]
fn failed_transports_give_no_client() {
    let message = refusal(open_client(
        endpoint("https://example.com/logs"),
        "logs".to_string(),
        Authorization::InUrl,
        Err("no transport".to_string()),
    ));
    assert_eq!(message, "no transport");
}

#[test]
fn entra_gives_a_client_that_needs_a_token() {
    let built = accepted(build_client(
        &auth(Some(entra(AzureBlobEntraAuthMethod::DeveloperTools))),
        "logs".to_string(),
        &ProxyConfig::default(),
        unread,
        unsigned,
    ));
    match built {
        ContainerClient::NeedsToken(container) => {
            assert_eq!(container.endpoint.text(), "https://example.blob.core.windows.net/");
            assert_eq!(container.container_name, "logs");
            assert!(matches!(
                container.source,
                TokenSource::Single(CredentialSource::DeveloperTools(_))
            ));
            let opened = accepted(open_token_client(
                container.endpoint,
                container.container_name,
                credential(),
                container.transport,
            ));
            assert_eq!(opened.url(), "https://example.blob.core.windows.net/logs");
            assert!(opened.policies().is_empty());
        }
        ContainerClient::Opened(_) => panic!("a token is needed"),
    }
}

#[test]
fn tokens_need_https_and_a_path() {
    let open = |text: &str| {
        open_token_client(endpoint(text), "logs".to_string(), credential(), transport())
    };
    assert_eq!(
        refusal(open("http://example.com")),
        "http://example.com/logs must use https"
    );
    assert_eq!(
        refusal(open("https-data:opaque")),
        "Invalid endpoint URL: Failed to parse out path segments from provided endpoint URL."
    );
    assert_eq!(accepted(open("https://example.com/a")).url(), "https://example.com/a/logs");
}

#[test]
fn entra_endpoints_are_checked_after_the_credential() {
    let mut config = entra(AzureBlobEntraAuthMethod::DeveloperTools);
    config.endpoint = "http://[".to_string();
    let message = refusal(plan_client(
        &auth(Some(config)),
        "logs".to_string(),
        &ProxyConfig::default(),
        unread,
        unsigned,
    ));
    assert_eq!(message, "Invalid Entra endpoint URL: invalid IPv6 address");

    let mut config = entra(AzureBlobEntraAuthMethod::ClientSecret);
    config.endpoint = "http://[".to_string();
    let message = refusal(entra_client(
        &config,
        Err("no credential".to_string()),
        "logs".to_string(),
        &ProxyConfig::default(),
    ));
    assert_eq!(message, "no credential");
}

#[test]
fn copied_settings_are_the_same() {
    let mut config = entra(AzureBlobEntraAuthMethod::ManagedIdentity);
    config.client_id = Some("client".to_string());
    config.client_secret = Some(SensitiveString::new("secret".to_string()));
    let mut settings = auth(Some(config));
    settings.connection_string = SensitiveString::new("string".to_string());
    let copy = settings.clone();
    assert_eq!(copy.connection_string.inner(), "string");
    let entra_id = copy.entra_id.unwrap();
    assert_eq!(entra_id.endpoint, "https://example.blob.core.windows.net");
    assert_eq!(entra_id.tenant_id, None);
    assert_eq!(entra_id.client_id, Some("client".to_string()));
    assert_eq!(entra_id.client_secret.unwrap().inner(), "secret");
    assert_eq!(entra_id.auth_method, AzureBlobEntraAuthMethod::ManagedIdentity);
}

// --- Proxies ---

fn through(http: Option<&str>, https: Option<&str>, no_proxy: &str) -> ProxyConfig {
    ProxyConfig {
        enabled: true,
        http: http.map(String::from),
        https: https.map(String::from),
        no_proxy: no_proxy.to_string(),
    }
}

fn is_bypassed(no_proxy: &str, text: &str) -> bool {
    let proxy = through(Some("http://proxy:1"), None, no_proxy);
    matches!(accepted(plan_proxies(&proxy, &endpoint(text))), ProxyPlan::Bypass)
}

#[test]
fn hosts_are_excluded_with_or_without_port() {
    let text = "http://blob.example.com:8080/";
    assert!(!is_bypassed("", text));
    assert!(is_bypassed("*", text));
    assert!(is_bypassed("blob.example.com", text));
    assert!(is_bypassed("other.org,.example.com", text));
    assert!(is_bypassed("blob.example.com:8080", text));
    assert!(!is_bypassed("blob.example.com:8081", text));
    assert!(!is_bypassed("blob.example.com:80", "http://blob.example.com:80/"));
    assert!(!is_bypassed("example.org", text));
    assert!(!is_bypassed("example.org", "data:text"));
}

#[test]
fn proxies_that_are_off_are_bypassed() {
    let mut proxy = through(Some("http://proxy:1"), Some("::"), "");
    proxy.enabled = false;
    let url = endpoint("https://example.com/");
    let plan = accepted(plan_proxies(&proxy, &url));
    assert!(matches!(plan, ProxyPlan::Bypass));
    let transport = accepted(build_transport(plan));
    assert!(!transport.routing().system);
    assert!(transport.routing().proxies.is_empty());
}

#[test]
fn configured_proxies_are_used_in_their_scope() {
    let url = endpoint("https://example.com/");
    let proxy = through(Some("http://one:1"), Some("http://user:pw@two:2"), "");
    let transport = accepted(build_transport(accepted(plan_proxies(&proxy, &url))));
    assert!(!transport.routing().system);
    let used: Vec<(ProxyScope, &str)> =
        transport.routing().proxies.iter().map(|p| (p.scope, p.url.as_str())).collect();
    assert_eq!(
        used,
        vec![(ProxyScope::Http, "http://one:1"), (ProxyScope::Https, "http://user:pw@two:2")]
    );

    let transport =
        accepted(build_transport(accepted(plan_proxies(&through(None, None, ""), &url))));
    assert!(transport.routing().system);
    assert!(transport.routing().proxies.is_empty());
}

#[test]
fn proxy_urls_that_are_none_are_refused() {
    let url = endpoint("https://example.com/");
    let message = refusal(plan_proxies(&through(Some("::"), Some("::"), ""), &url));
    assert!(message.starts_with("Invalid HTTP proxy URL: "), "{}", message);
    let message = refusal(plan_proxies(&through(Some("http://one:1"), Some("::"), ""), &url));
    assert!(message.starts_with("Invalid HTTPS proxy URL: "), "{}", message);
    assert_eq!(
        refusal(as_transport(Err("no resolver".to_string()))),
        "Failed to build reqwest client: no resolver"
    );
}

// --- Credentials ---

fn developer_tools() -> Result<CredentialSource, String> {
    match auth(Some(entra(AzureBlobEntraAuthMethod::DeveloperTools))).token_credential() {
        Ok(TokenSource::Single(source)) => Ok(source),
        _ => panic!("developer tools need nothing"),
    }
}

#[test]
fn default_method_is_the_chain() {
    assert_eq!(
        AzureBlobEntraAuthMethod::default(),
        AzureBlobEntraAuthMethod::DefaultAzureCredential
    );
}

#[test]
fn default_chain_has_the_client_secret_first_and_the_tools_last() {
    let mut config = entra(AzureBlobEntraAuthMethod::DefaultAzureCredential);
    config.tenant_id = Some("tenant".to_string());
    config.client_id = Some("client".to_string());
    config.client_secret = Some(SensitiveString::new("secret".to_string()));
    match auth(Some(config)).token_credential() {
        Ok(TokenSource::Chain(chain)) => {
            match chain.sources.first() {
                Some(CredentialSource::ClientSecret(source)) => {
                    assert_eq!(source.tenant_id(), "tenant");
                    assert_eq!(source.client_id(), "client");
                    assert_eq!(source.client_secret().inner(), "secret");
                }
                _ => panic!("the client secret comes first"),
            }
            assert!(matches!(chain.sources.last(), Some(CredentialSource::DeveloperTools(_))));
        }
        _ => panic!("expected a chain"),
    }

    match auth(Some(entra(AzureBlobEntraAuthMethod::DefaultAzureCredential))).token_credential() {
        Ok(TokenSource::Chain(chain)) => {
            assert!(!matches!(chain.sources[0], CredentialSource::ClientSecret(_)));
        }
        _ => panic!("expected a chain"),
    }
}

#[test]
fn default_chain_is_made_of_what_could_be_made() {
    let none = || Err("none".to_string());
    let message = refusal(default_chain(none(), none(), none(), none()));
    assert_eq!(message, "failed to create any default azure credential source for `entra_id`");
    match default_chain(none(), developer_tools(), none(), developer_tools()) {
        Ok(TokenSource::Chain(chain)) => assert_eq!(chain.sources.len(), 2),
        _ => panic!("expected a chain"),
    }
}

#[test]
fn client_secret_settings_are_complained_of() {
    let complaint = |tenant: bool, client: bool, secret: bool| {
        let mut config = entra(AzureBlobEntraAuthMethod::ClientSecret);
        config.tenant_id = tenant.then_some("tenant".to_string());
        config.client_id = client.then_some("client".to_string());
        config.client_secret = secret.then_some(SensitiveString::new("secret".to_string()));
        refusal(AzureBlobAuthConfig::client_secret_credential(&config))
    };
    let together = "`entra_id.tenant_id` and `entra_id.client_secret` must be provided together";
    let all = "`entra_id.tenant_id`, `entra_id.client_id`, and `entra_id.client_secret` are required for client_secret auth";
    assert_eq!(
        complaint(true, false, true),
        "`entra_id.client_id` is required when using tenant_id and client_secret"
    );
    assert_eq!(complaint(true, true, false), together);
    assert_eq!(complaint(true, false, false), together);
    assert_eq!(complaint(false, true, true), together);
    assert_eq!(complaint(false, false, true), together);
    assert_eq!(complaint(false, true, false), all);
    assert_eq!(complaint(false, false, false), all);
}

#[test]
fn client_secret_values_are_checked() {
    let outcome = |tenant: &str, client: &str, secret: &str| {
        let mut config = entra(AzureBlobEntraAuthMethod::ClientSecret);
        config.tenant_id = Some(tenant.to_string());
        config.client_id = Some(client.to_string());
        config.client_secret = Some(SensitiveString::new(secret.to_string()));
        AzureBlobAuthConfig::client_secret_credential(&config)
    };
    assert!(matches!(
        outcome("contoso.onmicrosoft.com", "client", "secret"),
        Ok(CredentialSource::ClientSecret(_))
    ));
    let prefix = "failed to create Entra client secret credential: ";
    assert!(refusal(outcome("a b", "client", "secret")).starts_with(prefix));
    assert!(refusal(outcome("", "client", "secret")).starts_with(prefix));
    assert!(refusal(outcome("tenant", "", "secret")).starts_with(prefix));
    assert!(refusal(outcome("tenant", "client", "")).starts_with(prefix));
}

#[test]
fn managed_identities_are_selected_by_client_id() {
    let mut config = entra(AzureBlobEntraAuthMethod::ManagedIdentity);
    config.client_id = Some("client".to_string());
    match auth(Some(config)).token_credential() {
        Ok(TokenSource::Single(CredentialSource::ManagedIdentity(source))) => {
            assert_eq!(*source.client_id(), Some("client".to_string()));
        }
        _ => panic!("expected a managed identity"),
    }
}

#[test]
fn workload_identity_needs_its_environment() {
    let config = entra(AzureBlobEntraAuthMethod::WorkloadIdentity);
    match auth(Some(config)).token_credential() {
        Ok(TokenSource::Single(CredentialSource::WorkloadIdentity(_))) => {}
        Ok(_) => panic!("expected a workload identity"),
        Err(message) => {
            assert!(message.starts_with("failed to create workload identity credential: "))
        }
    }
}

#[test]
fn credentials_need_entra_settings() {
    assert_eq!(refusal(auth(None).token_credential()), "missing `entra_id` configuration");
}

#[test]
fn failures_to_make_a_credential_are_reported() {
    assert_eq!(refusal(report("failed: ", Err("why".to_string()))), "failed: why");
    assert!(report("failed: ", developer_tools()).is_ok());
    assert_eq!(
        refusal(report_workload_identity(Err("no tenant".to_string()))),
        "failed to create workload identity credential: no tenant"
    );
    assert_eq!(
        refusal(report_developer_tools(Err("no tools".to_string()))),
        "failed to create developer tools credential: no tools"
    );
    let made = azure_identity::DeveloperToolsCredential::new(None).unwrap();
    match report_developer_tools(Ok(made.clone())) {
        Ok(CredentialSource::DeveloperTools(source)) => {
            assert!(Arc::ptr_eq(&source, &made))
        }
        _ => panic!("expected the credential that was made"),
    }
}

// --- Asking for tokens ---

#[test]
fn first_token_ends_the_round() {
    let mut round = TokenRound::start(3);
    assert!(matches!(round.next(), TokenAction::Ask { source: 0, last: false }));
    let action = round.answered(Err("no secret".to_string()));
    assert!(matches!(action, TokenAction::Ask { source: 1, last: false }));
    assert!(matches!(round.answered(Ok(())), TokenAction::Use { source: 1 }));
}

#[test]
fn round_of_failures_tells_all_of_them() {
    let mut round = TokenRound::start(2);
    let action = round.answered(Err("no secret".to_string()));
    assert!(matches!(action, TokenAction::Ask { source: 1, last: true }));
    match round.answered(Err("no tools".to_string())) {
        TokenAction::Fail { message, cause } => {
            assert_eq!(
                message,
                "all default azure credential sources failed: no secret; no tools"
            );
            assert_eq!(cause, 0);
        }
        _ => panic!("expected a failure"),
    }
}

#[test]
fn single_failure_stands_alone() {
    let mut round = TokenRound::start(1);
    assert!(matches!(round.next(), TokenAction::Ask { source: 0, last: true }));
    match round.answered(Err("no tools".to_string())) {
        TokenAction::Fail { message, .. } => {
            assert_eq!(message, "all default azure credential sources failed: no tools");
        }
        _ => panic!("expected a failure"),
    }
}

// --- Answers of the service ---

#[test]
fn server_errors_and_throttling_are_retried() {
    let retried = |http_status: Option<u16>| {
        AzureBlobRetryLogic.is_retriable_error(&RequestError { http_status })
    };
    assert!(retried(Some(500)));
    assert!(retried(Some(503)));
    assert!(retried(Some(599)));
    assert!(retried(Some(429)));
    assert!(!retried(Some(499)));
    assert!(!retried(Some(600)));
    assert!(!retried(Some(404)));
    assert!(!retried(None));
}

#[test]
fn health_is_told_by_the_status() {
    let health = |properties: Result<(), RequestError>| {
        build_healthcheck("lo\"gs".to_string(), properties)
    };
    let failure = |http_status: Option<u16>| match health(Err(RequestError { http_status })) {
        Ok(()) => panic!("expected a failure"),
        Err(failure) => failure,
    };
    assert!(health(Ok(())).is_ok());
    assert!(matches!(
        failure(Some(403)),
        HealthcheckFailure::Answered(HealthcheckError::InvalidCredentials)
    ));
    assert_eq!(failure(Some(403)).message(), "Invalid connection string specified");
    assert_eq!(failure(Some(404)).message(), "Container: \"lo\\\"gs\" not found");
    let missing = build_healthcheck("logs".to_string(), Err(RequestError { http_status: Some(404) }));
    assert_eq!(missing.unwrap_err().message(), "Container: \"logs\" not found");
    assert_eq!(failure(Some(418)).message(), "Unknown status code: 418");
    assert_eq!(failure(None).message(), "unknown status code");
}

// --- Requests and responses ---

#[test]
fn finalizers_are_taken_once() {
    let mut request = AzureBlobRequest {
        blob_data: Bytes::from_static(b"data"),
        content_encoding: Some("gzip"),
        content_type: "text/plain",
        metadata: AzureBlobMetadata {
            partition_key: "key".to_string(),
            count: 2,
            byte_size: JsonSize { bytes: 10 },
            finalizers: vec![1, 2],
        },
        request_metadata: 7,
    };
    let copy = request.clone();
    assert_eq!(copy.blob_data, Bytes::from_static(b"data"));
    assert_eq!(copy.metadata.finalizers, vec![1, 2]);
    assert_eq!(request.take_finalizers(), vec![1, 2]);
    assert_eq!(request.take_finalizers(), Vec::<i32>::new());
    assert_eq!(request.metadata.partition_key, "key");
    *request.metadata_mut() = 8;
    assert_eq!(*request.get_metadata(), 8);
    assert_eq!(*copy.get_metadata(), 7);
}

#[test]
fn stored_blobs_are_delivered() {
    let response = AzureBlobResponse { events_byte_size: (3, 40), byte_size: 25 };
    assert_eq!(response.event_status(), EventStatus::Delivered);
    assert_eq!(*response.events_sent(), (3, 40));
    assert_eq!(response.bytes_sent(), Some(25));
}
