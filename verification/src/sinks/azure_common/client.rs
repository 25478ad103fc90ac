//! Building a client of a blob container.

use vstd::prelude::*;
use vstd::string::*;

use crate::text;

use super::config::{
    AzureBlobAuthConfig, AzureBlobEntraAuthMethod, AzureBlobEntraIdConfig, SensitiveString,
};
use super::container::{
    default_options, open_container, open_token_container, with_policy, ClientOptions,
    HeldCredential, HeldPolicy, OpenedContainer,
};
use super::credential::TokenSource;
use super::endpoint::{Endpoint, UrlParts};
use super::http::HttpTransport;
use super::proxy::{plan_proxies, ProxyConfig, ProxyPlan, ProxyPlanView};
use super::transport::build_transport;

verus! {

/// The storage service version that requests with a shared key are signed for. Azurite supports
/// it.
pub const STORAGE_VERSION: &'static str = "2025-11-05";

/// How a connection string authenticates.
pub enum Auth {
    /// With a shared access signature, which the container URL holds.
    Sas { query: String },
    /// Not at all.
    Anonymous,
    /// With the key of the account.
    SharedKey { account_name: String, account_key: SensitiveString },
}

/// What a connection string says of a container.
pub struct ParsedConnectionString {
    /// The URL of the container, with the shared access signature where there is one, or why
    /// there is none.
    pub container_url: Result<String, String>,
    /// How to authenticate.
    pub auth: Auth,
}

/// How a client authenticates.
pub enum Authorization {
    /// As the URL says, or not at all.
    InUrl,
    /// By signing each request, which this policy does.
    SharedKey(HeldPolicy),
    /// With tokens of this source.
    Token(TokenSource),
}

/// All that is needed to make a client of a container. The endpoint is the account's where the
/// client authenticates with tokens, and else the container's.
pub struct ClientPlan {
    pub endpoint: Endpoint,
    pub container_name: String,
    pub authorization: Authorization,
    pub proxies: ProxyPlan,
}

/// The plan, as contracts speak of it.
pub struct ClientPlanView {
    pub endpoint: UrlParts,
    pub container_name: Seq<char>,
    pub authorization: Authorization,
    pub proxies: ProxyPlanView,
}

impl View for ClientPlan {
    type V = ClientPlanView;

    open spec fn view(&self) -> ClientPlanView {
        ClientPlanView {
            endpoint: self.endpoint@,
            container_name: self.container_name@,
            authorization: self.authorization,
            proxies: self.proxies@,
        }
    }
}

/// Whether `plan` is the outcome `view`.
pub open spec fn is_plan(
    plan: Result<ClientPlan, String>,
    view: Result<ClientPlanView, Seq<char>>,
) -> bool {
    match (plan, view) {
        (Ok(plan), Ok(view)) => plan@ == view,
        (Err(e), Err(message)) => e@ == message,
        _ => false,
    }
}

/// The policy that requests are signed with, where this is the outcome of making it, or why there
/// is none.
pub open spec fn signed(policy: Result<HeldPolicy, String>) -> Result<Authorization, Seq<char>> {
    match policy {
        Ok(policy) => Ok(Authorization::SharedKey(policy)),
        Err(e) => Err("Failed to create SharedKey policy: "@ + e@),
    }
}

/// How a connection string authenticates a client, or why it cannot. `policy` is the outcome of
/// making the policy that signs, and of no matter without a shared key.
pub open spec fn authorization_for(auth: Auth, policy: Result<HeldPolicy, String>) -> Result<
    Authorization,
    Seq<char>,
> {
    match auth {
        Auth::SharedKey { .. } => signed(policy),
        _ => Ok(Authorization::InUrl),
    }
}

/// The plan for an endpoint, once it is settled how to authenticate.
pub open spec fn finished_plan(
    endpoint: UrlParts,
    container_name: Seq<char>,
    authorization: Authorization,
    proxy: ProxyConfig,
) -> Result<ClientPlanView, Seq<char>> {
    match super::proxy::proxies_for(proxy, endpoint) {
        Ok(proxies) => Ok(
            ClientPlanView { endpoint, container_name, authorization, proxies },
        ),
        Err(e) => Err(e),
    }
}

/// The endpoint of a client with a connection string, or why there is none.
pub open spec fn container_endpoint(parsed: Result<ParsedConnectionString, String>) -> Result<
    UrlParts,
    Seq<char>,
> {
    match parsed {
        Err(e) => Err("Invalid connection string: "@ + e@),
        Ok(parsed) => match parsed.container_url {
            Err(e) => Err("Failed to build container URL: "@ + e@),
            Ok(container_url) => match super::endpoint::parsed_url(container_url@) {
                Err(e) => Err("Invalid container URL: "@ + e),
                Ok(endpoint) => Ok(endpoint),
            },
        },
    }
}

/// The plan for a client with a connection string. `policy` is the outcome of making the policy
/// that signs, and of no matter without a shared key.
pub open spec fn connection_plan(
    parsed: Result<ParsedConnectionString, String>,
    policy: Result<HeldPolicy, String>,
    container_name: Seq<char>,
    proxy: ProxyConfig,
) -> Result<ClientPlanView, Seq<char>> {
    match (container_endpoint(parsed), parsed) {
        (Err(e), _) => Err(e),
        (Ok(endpoint), Ok(parsed)) => match authorization_for(parsed.auth, policy) {
            Err(e) => Err(e),
            Ok(authorization) => finished_plan(endpoint, container_name, authorization, proxy),
        },
        (Ok(_), Err(e)) => Err(e@),
    }
}

/// Whether `sign` can be asked to make a policy.
pub open spec fn can_sign<
    K: FnOnce(String, SensitiveString, &'static str) -> Result<HeldPolicy, String>,
>(sign: K) -> bool {
    forall|account_name: String, account_key: SensitiveString, version: &'static str|
        #[trigger] call_requires(sign, (account_name, account_key, version))
}

/// Whether `policy` can be the outcome of making the policy for the account name and the account
/// key of a connection string and for [`STORAGE_VERSION`]. One is made only for a shared key, and
/// only once the container's URL is known.
pub open spec fn policy_can_be<
    K: FnOnce(String, SensitiveString, &'static str) -> Result<HeldPolicy, String>,
>(
    sign: K,
    parsed: Result<ParsedConnectionString, String>,
    policy: Result<HeldPolicy, String>,
) -> bool {
    match parsed {
        Ok(ParsedConnectionString { auth: Auth::SharedKey { account_name, account_key }, .. }) => {
            container_endpoint(parsed) is Ok ==> call_ensures(
                sign,
                (account_name, account_key, STORAGE_VERSION),
                policy,
            )
        },
        _ => true,
    }
}

/// Whether planning a client with a connection string can give `plan`.
pub open spec fn connection_can_be<
    K: FnOnce(String, SensitiveString, &'static str) -> Result<HeldPolicy, String>,
>(
    sign: K,
    parsed: Result<ParsedConnectionString, String>,
    container_name: Seq<char>,
    proxy: ProxyConfig,
    plan: Result<ClientPlan, String>,
) -> bool {
    exists|policy: Result<HeldPolicy, String>|
        {
            &&& #[trigger] policy_can_be(sign, parsed, policy)
            &&& is_plan(plan, connection_plan(parsed, policy, container_name, proxy))
        }
}

/// The plan for a client with Entra ID, where this is the outcome of making its credential.
pub open spec fn entra_plan(
    entra_id: AzureBlobEntraIdConfig,
    credential: Result<TokenSource, String>,
    container_name: Seq<char>,
    proxy: ProxyConfig,
) -> Result<ClientPlanView, Seq<char>> {
    match credential {
        Err(e) => Err(e@),
        Ok(source) => match super::endpoint::parsed_url(entra_id.endpoint@) {
            Err(e) => Err("Invalid Entra endpoint URL: "@ + e),
            Ok(endpoint) => finished_plan(
                endpoint,
                container_name,
                Authorization::Token(source),
                proxy,
            ),
        },
    }
}

/// Plans a client for an endpoint, once it is settled how to authenticate.
pub fn finish_plan(
    endpoint: Endpoint,
    container_name: String,
    authorization: Authorization,
    proxy: &ProxyConfig,
) -> (plan: Result<ClientPlan, String>)
    ensures
        is_plan(plan, finished_plan(endpoint@, container_name@, authorization, *proxy)),
        plan matches Ok(plan) ==> plan.endpoint == endpoint,
{
    match plan_proxies(proxy, &endpoint) {
        Ok(proxies) => Ok(ClientPlan { endpoint, container_name, authorization, proxies }),
        Err(e) => Err(e),
    }
}

/// Takes the policy that signs requests, or reports why there is none.
pub fn sign_with(policy: Result<HeldPolicy, String>) -> (authorization: Result<
    Authorization,
    String,
>)
    ensures
        match authorization {
            Ok(authorization) => signed(policy) == Ok::<Authorization, Seq<char>>(authorization),
            Err(e) => signed(policy) == Err::<Authorization, Seq<char>>(e@),
        },
{
    match policy {
        Ok(policy) => Ok(Authorization::SharedKey(policy)),
        Err(e) => Err(text::joined("Failed to create SharedKey policy: ", e.as_str())),
    }
}

/// Plans a client with a connection string. `sign` makes a policy that signs requests with an
/// account name and its key for a storage service version.
pub fn connection_client<
    K: FnOnce(String, SensitiveString, &'static str) -> Result<HeldPolicy, String>,
>(
    parsed: Result<ParsedConnectionString, String>,
    container_name: String,
    proxy: &ProxyConfig,
    sign: K,
) -> (plan: Result<ClientPlan, String>)
    requires
        can_sign(sign),
    ensures
        connection_can_be(sign, parsed, container_name@, *proxy, plan),
{
    let ghost given = parsed;
    let ghost mut made: Result<HeldPolicy, String> = arbitrary();
    let string: ParsedConnectionString = match parsed {
        Ok(string) => string,
        Err(e) => {
            assert(policy_can_be(sign, given, made));
            return Err(text::joined("Invalid connection string: ", e.as_str()));
        },
    };
    let container_url: String = match string.container_url {
        Ok(url) => url,
        Err(e) => {
            assert(policy_can_be(sign, given, made));
            return Err(text::joined("Failed to build container URL: ", e.as_str()));
        },
    };
    let endpoint: Endpoint = match Endpoint::parse(container_url.as_str()) {
        Ok(endpoint) => endpoint,
        Err(e) => {
            assert(policy_can_be(sign, given, made));
            return Err(text::joined("Invalid container URL: ", e.as_str()));
        },
    };
    let authorization: Authorization = match string.auth {
        Auth::SharedKey { account_name, account_key } => {
            let policy: Result<HeldPolicy, String> = sign(
                account_name,
                account_key,
                STORAGE_VERSION,
            );
            proof {
                made = policy;
                assert(policy_can_be(sign, given, made));
            }
            match sign_with(policy) {
                Ok(authorization) => authorization,
                Err(e) => {
                    return Err(e);
                },
            }
        },
        // No extra policy; SAS is in the URL already (or anonymous)
        Auth::Sas { .. } | Auth::Anonymous => Authorization::InUrl,
    };
    assert(policy_can_be(sign, given, made));
    finish_plan(endpoint, container_name, authorization, proxy)
}

/// Plans a client with Entra ID, given the outcome of making its credential.
pub fn entra_client(
    entra_id: &AzureBlobEntraIdConfig,
    credential: Result<TokenSource, String>,
    container_name: String,
    proxy: &ProxyConfig,
) -> (plan: Result<ClientPlan, String>)
    ensures
        is_plan(plan, entra_plan(*entra_id, credential, container_name@, *proxy)),
{
    let source: TokenSource = match credential {
        Ok(source) => source,
        Err(e) => {
            return Err(e);
        },
    };
    match Endpoint::parse(entra_id.endpoint.as_str()) {
        Ok(endpoint) => finish_plan(endpoint, container_name, Authorization::Token(source), proxy),
        Err(e) => Err(text::joined("Invalid Entra endpoint URL: ", e.as_str())),
    }
}

/// Whether `parse` can be asked to read a connection string.
pub open spec fn can_parse<
    P: FnOnce(&SensitiveString, &String) -> Result<ParsedConnectionString, String>,
>(parse: P) -> bool {
    forall|connection_string: &SensitiveString, container_name: &String|
        #[trigger] call_requires(parse, (connection_string, container_name))
}

/// Whether planning a client can give `plan`.
pub open spec fn plan_can_be<
    P: FnOnce(&SensitiveString, &String) -> Result<ParsedConnectionString, String>,
    K: FnOnce(String, SensitiveString, &'static str) -> Result<HeldPolicy, String>,
>(
    auth: AzureBlobAuthConfig,
    container_name: String,
    proxy: ProxyConfig,
    parse: P,
    sign: K,
    plan: Result<ClientPlan, String>,
) -> bool {
    if auth.connection_string@.len() > 0 {
        exists|parsed: Result<ParsedConnectionString, String>|
            {
                &&& call_ensures(parse, (&auth.connection_string, &container_name), parsed)
                &&& #[trigger] connection_can_be(sign, parsed, container_name@, proxy, plan)
            }
    } else {
        match auth.entra_id {
            None => plan matches Err(e) && e@
                == "either `connection_string` or `entra_id` must be configured"@,
            Some(entra_id) => exists|credential: Result<TokenSource, String>|
                {
                    &&& super::credential::token_can_give(entra_id, credential)
                    &&& is_plan(
                        plan,
                        #[trigger] entra_plan(entra_id, credential, container_name@, proxy),
                    )
                },
        }
    }
}

/// Plans a client of the container. `parse` reads what a connection string says of a container,
/// and `sign` makes a policy that signs requests, as [`connection_client`] has it.
pub fn plan_client<
    P: FnOnce(&SensitiveString, &String) -> Result<ParsedConnectionString, String>,
    K: FnOnce(String, SensitiveString, &'static str) -> Result<HeldPolicy, String>,
>(
    auth: &AzureBlobAuthConfig,
    container_name: String,
    proxy: &ProxyConfig,
    parse: P,
    sign: K,
) -> (plan: Result<ClientPlan, String>)
    requires
        can_parse(parse),
        can_sign(sign),
    ensures
        plan_can_be(*auth, container_name, *proxy, parse, sign, plan),
{
    if !auth.connection_string.inner().is_empty() {
        let parsed: Result<ParsedConnectionString, String> = parse(
            &auth.connection_string,
            &container_name,
        );
        let ghost given = parsed;
        let plan: Result<ClientPlan, String> = connection_client(
            parsed,
            container_name,
            proxy,
            sign,
        );
        assert(connection_can_be(sign, given, container_name@, *proxy, plan));
        return plan;
    }
    match &auth.entra_id {
        Some(entra_id) => {
            let credential: Result<TokenSource, String> = auth.token_credential();
            let ghost made = credential;
            let plan: Result<ClientPlan, String> = entra_client(
                entra_id,
                credential,
                container_name,
                proxy,
            );
            assert(is_plan(plan, entra_plan(*entra_id, made, container_name@, *proxy)));
            plan
        },
        None => Err("either `connection_string` or `entra_id` must be configured".to_owned()),
    }
}

/// All that is needed to make a client of a container but the credential itself.
pub struct TokenContainer {
    /// The URL of the account.
    pub endpoint: Endpoint,
    pub container_name: String,
    pub source: TokenSource,
    pub transport: HttpTransport,
}

/// A client of a container.
pub enum ContainerClient {
    /// It is made.
    Opened(OpenedContainer),
    /// It authenticates with tokens. [`open_token_client`] makes it, once the source can be asked
    /// for them.
    NeedsToken(TokenContainer),
}

/// Whether `container` is a client of the container at this URL, with these policies and through
/// this transport, without a credential.
pub open spec fn is_direct(
    container: OpenedContainer,
    endpoint: Endpoint,
    policies: Seq<HeldPolicy>,
    transport: HttpTransport,
) -> bool {
    &&& container.spec_url() == endpoint@.text
    &&& container@.endpoint == endpoint
    &&& container@.container_name is None
    &&& container@.credential is None
    &&& container@.policies == policies
    &&& container@.transport == transport
}

/// Whether these, with this outcome of making the transport, give the client `built`.
pub open spec fn opens(
    endpoint: Endpoint,
    container_name: Seq<char>,
    authorization: Authorization,
    transport: Result<HttpTransport, String>,
    built: Result<ContainerClient, String>,
) -> bool {
    match transport {
        Err(e) => built matches Err(message) && message@ == e@,
        Ok(transport) => match authorization {
            Authorization::InUrl => {
                built matches Ok(ContainerClient::Opened(container)) && is_direct(
                    container,
                    endpoint,
                    Seq::empty(),
                    transport,
                )
            },
            Authorization::SharedKey(policy) => {
                built matches Ok(ContainerClient::Opened(container)) && is_direct(
                    container,
                    endpoint,
                    seq![policy],
                    transport,
                )
            },
            Authorization::Token(source) => {
                built matches Ok(ContainerClient::NeedsToken(container)) && {
                    &&& container.endpoint == endpoint
                    &&& container.container_name@ == container_name
                    &&& container.source == source
                    &&& container.transport == transport
                }
            },
        },
    }
}

/// Makes the planned client, given the outcome of making its transport.
pub fn open_client(
    endpoint: Endpoint,
    container_name: String,
    authorization: Authorization,
    transport: Result<HttpTransport, String>,
) -> (built: Result<ContainerClient, String>)
    ensures
        opens(endpoint, container_name@, authorization, transport, built),
{
    let transport: HttpTransport = match transport {
        Ok(transport) => transport,
        Err(e) => {
            return Err(e);
        },
    };
    let options: ClientOptions = match authorization {
        Authorization::Token(source) => {
            return Ok(
                ContainerClient::NeedsToken(
                    TokenContainer { endpoint, container_name, source, transport },
                ),
            );
        },
        Authorization::InUrl => default_options(),
        Authorization::SharedKey(policy) => {
            let options: ClientOptions = with_policy(default_options(), policy);
            assert(options@ =~= seq![policy]);
            options
        },
    };
    match open_container(endpoint, options, transport) {
        Ok(container) => Ok(ContainerClient::Opened(container)),
        Err(e) => Err(e),
    }
}

/// Whether a client that authenticates with tokens of this credential, for the container of this
/// name at the account's URL, gives `opened`.
pub open spec fn opens_with_token(
    endpoint: Endpoint,
    container_name: Seq<char>,
    credential: HeldCredential,
    transport: HttpTransport,
    opened: Result<OpenedContainer, String>,
) -> bool {
    let named = super::container::token_container(endpoint@.text, container_name);
    &&& opened is Ok <==> super::container::takes_tokens(endpoint@.text)
    &&& match opened {
        Ok(container) => {
            &&& named == Ok::<Seq<char>, Seq<char>>(container.spec_url())
            &&& container@.endpoint == endpoint
            &&& container@.container_name == Some(container_name)
            &&& container@.credential == Some(credential)
            &&& container@.policies.len() == 0
            &&& container@.transport == transport
        },
        Err(e) => named == Err::<Seq<char>, Seq<char>>(e@),
    }
}

/// Makes a client that authenticates with tokens. `credential` asks the source of the container's
/// tokens for them.
pub fn open_token_client(
    endpoint: Endpoint,
    container_name: String,
    credential: HeldCredential,
    transport: HttpTransport,
) -> (opened: Result<OpenedContainer, String>)
    ensures
        opens_with_token(endpoint, container_name@, credential, transport, opened),
{
    open_token_container(endpoint, container_name, credential, default_options(), transport)
}

/// Whether building the planned client can give `built`.
pub open spec fn built_from(
    plan: Result<ClientPlan, String>,
    built: Result<ContainerClient, String>,
) -> bool {
    match plan {
        Err(e) => built matches Err(message) && message@ == e@,
        Ok(plan) => exists|transport: Result<HttpTransport, String>|
            {
                &&& super::transport::transport_can_be(plan.proxies@, transport)
                &&& #[trigger] opens(
                    plan.endpoint,
                    plan.container_name@,
                    plan.authorization,
                    transport,
                    built,
                )
            },
    }
}

/// Whether building a client can give `built`.
pub open spec fn client_can_be<
    P: FnOnce(&SensitiveString, &String) -> Result<ParsedConnectionString, String>,
    K: FnOnce(String, SensitiveString, &'static str) -> Result<HeldPolicy, String>,
>(
    auth: AzureBlobAuthConfig,
    container_name: String,
    proxy: ProxyConfig,
    parse: P,
    sign: K,
    built: Result<ContainerClient, String>,
) -> bool {
    exists|plan: Result<ClientPlan, String>|
        {
            &&& #[trigger] plan_can_be(auth, container_name, proxy, parse, sign, plan)
            &&& built_from(plan, built)
        }
}

/// Builds a client of the container. `parse` reads what a connection string says of a container,
/// and `sign` makes a policy that signs requests, as [`connection_client`] has it.
pub fn build_client<
    P: FnOnce(&SensitiveString, &String) -> Result<ParsedConnectionString, String>,
    K: FnOnce(String, SensitiveString, &'static str) -> Result<HeldPolicy, String>,
>(
    auth: &AzureBlobAuthConfig,
    container_name: String,
    proxy: &ProxyConfig,
    parse: P,
    sign: K,
) -> (built: Result<ContainerClient, String>)
    requires
        can_parse(parse),
        can_sign(sign),
    ensures
        client_can_be(*auth, container_name, *proxy, parse, sign, built),
{
    let planned: Result<ClientPlan, String> = plan_client(
        auth,
        container_name,
        proxy,
        parse,
        sign,
    );
    let ghost outcome = planned;
    let plan: ClientPlan = match planned {
        Ok(plan) => plan,
        Err(e) => {
            return Err(e);
        },
    };
    let ghost whole = plan;
    let transport: Result<HttpTransport, String> = build_transport(plan.proxies);
    let ghost made = transport;
    let built: Result<ContainerClient, String> = open_client(
        plan.endpoint,
        plan.container_name,
        plan.authorization,
        transport,
    );
    assert(opens(whole.endpoint, whole.container_name@, whole.authorization, made, built));
    assert(built_from(outcome, built));
    built
}

/// Without a connection string and without Entra ID there is no client.
pub proof fn unconfigured_client_is_refused<
    P: FnOnce(&SensitiveString, &String) -> Result<ParsedConnectionString, String>,
    K: FnOnce(String, SensitiveString, &'static str) -> Result<HeldPolicy, String>,
>(
    auth: AzureBlobAuthConfig,
    container_name: String,
    proxy: ProxyConfig,
    parse: P,
    sign: K,
    built: Result<ContainerClient, String>,
)
    requires
        auth.connection_string@.len() == 0,
        auth.entra_id is None,
        client_can_be(auth, container_name, proxy, parse, sign, built),
    ensures
        built matches Err(message) && message@
            == "either `connection_string` or `entra_id` must be configured"@,
{
}

/// Without a connection string, and with client secret authentication that lacks one of tenant ID,
/// client ID and secret, there is no client, whatever the machine is like.
pub proof fn incomplete_client_is_refused<
    P: FnOnce(&SensitiveString, &String) -> Result<ParsedConnectionString, String>,
    K: FnOnce(String, SensitiveString, &'static str) -> Result<HeldPolicy, String>,
>(
    auth: AzureBlobAuthConfig,
    entra_id: AzureBlobEntraIdConfig,
    container_name: String,
    proxy: ProxyConfig,
    parse: P,
    sign: K,
    built: Result<ContainerClient, String>,
)
    requires
        auth.connection_string@.len() == 0,
        auth.entra_id == Some(entra_id),
        entra_id.auth_method == AzureBlobEntraAuthMethod::ClientSecret,
        entra_id.tenant_id is None || entra_id.client_id is None || entra_id.client_secret is None,
        client_can_be(auth, container_name, proxy, parse, sign, built),
    ensures
        built matches Err(message) && Some(message@)
            == super::credential::client_secret_complaint(entra_id),
{
}

/// A connection string takes precedence: what the Entra ID settings say is then of no matter, and
/// no credential is asked for tokens.
pub proof fn connection_string_takes_precedence<
    P: FnOnce(&SensitiveString, &String) -> Result<ParsedConnectionString, String>,
    K: FnOnce(String, SensitiveString, &'static str) -> Result<HeldPolicy, String>,
>(
    auth: AzureBlobAuthConfig,
    other: AzureBlobAuthConfig,
    container_name: String,
    proxy: ProxyConfig,
    parse: P,
    sign: K,
    built: Result<ContainerClient, String>,
)
    requires
        auth.connection_string@.len() > 0,
        other.connection_string == auth.connection_string,
        client_can_be(auth, container_name, proxy, parse, sign, built),
    ensures
        client_can_be(other, container_name, proxy, parse, sign, built),
        built matches Ok(client) ==> (client matches ContainerClient::Opened(container)
            && container@.credential is None),
{
    let plan = choose|plan: Result<ClientPlan, String>|
        {
            &&& #[trigger] plan_can_be(auth, container_name, proxy, parse, sign, plan)
            &&& built_from(plan, built)
        };
    assert(plan_can_be(other, container_name, proxy, parse, sign, plan));
}

/// A client with a connection string is one of the container's URL that the string gives. It has
/// exactly one policy, which was made from the string's account name and key, where the string
/// has a shared key, and else none.
pub proof fn connection_strings_authenticate<
    P: FnOnce(&SensitiveString, &String) -> Result<ParsedConnectionString, String>,
    K: FnOnce(String, SensitiveString, &'static str) -> Result<HeldPolicy, String>,
>(
    auth: AzureBlobAuthConfig,
    container_name: String,
    proxy: ProxyConfig,
    parse: P,
    sign: K,
    container: OpenedContainer,
) -> (parsed: ParsedConnectionString)
    requires
        auth.connection_string@.len() > 0,
        client_can_be(
            auth,
            container_name,
            proxy,
            parse,
            sign,
            Ok(ContainerClient::Opened(container)),
        ),
    ensures
        call_ensures(parse, (&auth.connection_string, &container_name), Ok(parsed)),
        container_endpoint(Ok(parsed)) == Ok::<UrlParts, Seq<char>>(container@.endpoint@),
        container.spec_url() == container@.endpoint@.text,
        match parsed.auth {
            Auth::SharedKey { account_name, account_key } => {
                &&& container@.policies.len() == 1
                &&& call_ensures(
                    sign,
                    (account_name, account_key, STORAGE_VERSION),
                    Ok(container@.policies[0]),
                )
            },
            _ => container@.policies.len() == 0,
        },
{
    let built = Ok::<ContainerClient, String>(ContainerClient::Opened(container));
    let plan = choose|plan: Result<ClientPlan, String>|
        {
            &&& #[trigger] plan_can_be(auth, container_name, proxy, parse, sign, plan)
            &&& built_from(plan, built)
        };
    let parsed = choose|parsed: Result<ParsedConnectionString, String>|
        {
            &&& call_ensures(parse, (&auth.connection_string, &container_name), parsed)
            &&& #[trigger] connection_can_be(sign, parsed, container_name@, proxy, plan)
        };
    parsed->Ok_0
}

/// Where there is no connection string, a client that is built authenticates with tokens of the
/// source that the Entra ID settings ask for.
pub proof fn entra_clients_use_tokens<
    P: FnOnce(&SensitiveString, &String) -> Result<ParsedConnectionString, String>,
    K: FnOnce(String, SensitiveString, &'static str) -> Result<HeldPolicy, String>,
>(
    auth: AzureBlobAuthConfig,
    entra_id: AzureBlobEntraIdConfig,
    container_name: String,
    proxy: ProxyConfig,
    parse: P,
    sign: K,
    client: ContainerClient,
)
    requires
        auth.connection_string@.len() == 0,
        auth.entra_id == Some(entra_id),
        client_can_be(auth, container_name, proxy, parse, sign, Ok(client)),
    ensures
        client matches ContainerClient::NeedsToken(container) && {
            &&& super::credential::token_can_give(entra_id, Ok(container.source))
            &&& container.container_name@ == container_name@
            &&& super::endpoint::parsed_url(entra_id.endpoint@) == Ok::<UrlParts, Seq<char>>(
                container.endpoint@,
            )
        },
{
}

/// No client sends tokens to an account's URL that is not one of HTTPS.
pub proof fn tokens_need_https(
    endpoint: Endpoint,
    container_name: Seq<char>,
    credential: HeldCredential,
    transport: HttpTransport,
    opened: Result<OpenedContainer, String>,
)
    requires
        opens_with_token(endpoint, container_name, credential, transport, opened),
        super::endpoint::parsed_url(endpoint@.text) matches Ok(parts) ==> !"https"@.is_prefix_of(
            parts.scheme,
        ),
    ensures
        opened is Err,
{
}

/// A plan for a client with a connection string fails for the first of these that is at fault, and
/// says so: the string, the container's URL that it gives, that URL as such, the policy that signs
/// where it has a shared key, and the proxies. Else it is for that URL, that container and those
/// proxies, and signs with that policy where the string has a shared key.
pub proof fn connection_plans_are_exact(
    parsed: Result<ParsedConnectionString, String>,
    policy: Result<HeldPolicy, String>,
    container_name: Seq<char>,
    proxy: ProxyConfig,
    plan: Result<ClientPlan, String>,
)
    requires
        is_plan(plan, connection_plan(parsed, policy, container_name, proxy)),
    ensures
        match parsed {
            Err(e) => plan matches Err(message) && message@ == "Invalid connection string: "@ + e@,
            Ok(string) => match string.container_url {
                Err(e) => plan matches Err(message) && message@
                    == "Failed to build container URL: "@ + e@,
                Ok(url) => match super::endpoint::parsed_url(url@) {
                    Err(e) => plan matches Err(message) && message@ == "Invalid container URL: "@
                        + e,
                    Ok(parts) => if string.auth is SharedKey && policy is Err {
                        plan matches Err(message) && message@
                            == "Failed to create SharedKey policy: "@ + policy->Err_0@
                    } else {
                        match super::proxy::proxies_for(proxy, parts) {
                            Err(e) => plan matches Err(message) && message@ == e,
                            Ok(proxies) => plan matches Ok(plan) && {
                                &&& plan.endpoint@ == parts
                                &&& plan.container_name@ == container_name
                                &&& plan.proxies@ == proxies
                                &&& string.auth is SharedKey ==> plan.authorization
                                    == Authorization::SharedKey(policy->Ok_0)
                                &&& !(string.auth is SharedKey) ==> plan.authorization is InUrl
                            },
                        }
                    },
                },
            },
        },
{
}

/// A plan for a client with Entra ID fails for the first of these that is at fault, and says so:
/// the credential, the endpoint of the settings, and the proxies. Else it is for that endpoint, that
/// container and those proxies, with tokens of that credential.
pub proof fn entra_plans_are_exact(
    entra_id: AzureBlobEntraIdConfig,
    credential: Result<TokenSource, String>,
    container_name: Seq<char>,
    proxy: ProxyConfig,
    plan: Result<ClientPlan, String>,
)
    requires
        is_plan(plan, entra_plan(entra_id, credential, container_name, proxy)),
    ensures
        match credential {
            Err(e) => plan matches Err(message) && message@ == e@,
            Ok(source) => match super::endpoint::parsed_url(entra_id.endpoint@) {
                Err(e) => plan matches Err(message) && message@ == "Invalid Entra endpoint URL: "@
                    + e,
                Ok(parts) => match super::proxy::proxies_for(proxy, parts) {
                    Err(e) => plan matches Err(message) && message@ == e,
                    Ok(proxies) => plan matches Ok(plan) && {
                        &&& plan.endpoint@ == parts
                        &&& plan.container_name@ == container_name
                        &&& plan.proxies@ == proxies
                        &&& plan.authorization == Authorization::Token(source)
                    },
                },
            },
        },
{
}

/// A client is made for the endpoint that is handed in and through the transport that is handed
/// in, if there is one. It has the policy that signs where there is one, and no other. One that
/// authenticates with tokens is left to make with all that it takes.
pub proof fn clients_are_made_as_asked(
    endpoint: Endpoint,
    container_name: Seq<char>,
    authorization: Authorization,
    transport: Result<HttpTransport, String>,
    built: Result<ContainerClient, String>,
)
    requires
        opens(endpoint, container_name, authorization, transport, built),
    ensures
        transport is Ok <==> built is Ok,
        transport matches Err(e) ==> built->Err_0@ == e@,
        transport matches Ok(transport) ==> (authorization matches Authorization::Token(source) ==> (
        built->Ok_0 matches ContainerClient::NeedsToken(container) && {
            &&& container.endpoint == endpoint
            &&& container.container_name@ == container_name
            &&& container.source == source
            &&& container.transport == transport
        })),
        transport matches Ok(transport) ==> (!(authorization is Token) ==> (
        built->Ok_0 matches ContainerClient::Opened(container) && {
            &&& container.spec_url() == endpoint@.text
            &&& container@.endpoint == endpoint
            &&& container@.container_name is None
            &&& container@.credential is None
            &&& container@.transport == transport
            &&& authorization is InUrl ==> container@.policies.len() == 0
            &&& authorization matches Authorization::SharedKey(policy) ==> container@.policies
                == seq![policy]
        })),
{
}

/// A client that authenticates with tokens is made exactly where the account's URL is one of HTTPS
/// to which a path can be added. It asks that credential for tokens, for that container, through
/// that transport, and signs nothing.
pub proof fn token_clients_are_made_as_asked(
    endpoint: Endpoint,
    container_name: Seq<char>,
    credential: HeldCredential,
    transport: HttpTransport,
    opened: Result<OpenedContainer, String>,
)
    requires
        opens_with_token(endpoint, container_name, credential, transport, opened),
    ensures
        opened is Ok <==> (super::endpoint::parsed_url(endpoint@.text) matches Ok(parts) && {
            &&& !parts.cannot_be_a_base
            &&& parts.scheme.len() >= 5
            &&& parts.scheme.take(5) == seq!['h', 't', 't', 'p', 's']
        }),
        opened matches Ok(container) ==> {
            &&& super::container::token_container(endpoint@.text, container_name) == Ok::<
                Seq<char>,
                Seq<char>,
            >(container.spec_url())
            &&& container@.endpoint == endpoint
            &&& container@.container_name == Some(container_name)
            &&& container@.credential == Some(credential)
            &&& container@.policies.len() == 0
            &&& container@.transport == transport
        },
        opened matches Err(e) ==> super::container::token_container(endpoint@.text, container_name)
            == Err::<Seq<char>, Seq<char>>(e@),
{
    reveal_strlit("https");
    let https = seq!['h', 't', 't', 'p', 's'];
    assert("https"@ =~= https);
    if let Ok(parts) = super::endpoint::parsed_url(endpoint@.text) {
        if parts.scheme.len() >= 5 {
            assert(parts.scheme.take(5) =~= parts.scheme.subrange(0, 5));
        }
    }
}

/// What a client with a connection string comes to: the string and the container's name are read,
/// a policy is asked for where the string has a shared key and its URL can be parsed, with the
/// string's account name and key and the storage service version, and an HTTP client is asked for
/// where nothing was at fault until then. The first fault is reported, and else the client is made
/// of all these.
pub proof fn connection_clients_are_exact<
    P: FnOnce(&SensitiveString, &String) -> Result<ParsedConnectionString, String>,
    K: FnOnce(String, SensitiveString, &'static str) -> Result<HeldPolicy, String>,
>(
    auth: AzureBlobAuthConfig,
    container_name: String,
    proxy: ProxyConfig,
    parse: P,
    sign: K,
    built: Result<ContainerClient, String>,
) -> (steps: (
    Result<ParsedConnectionString, String>,
    Result<HeldPolicy, String>,
    Result<ClientPlan, String>,
    Result<HttpTransport, String>,
))
    requires
        auth.connection_string@.len() > 0,
        client_can_be(auth, container_name, proxy, parse, sign, built),
    ensures
        call_ensures(parse, (&auth.connection_string, &container_name), steps.0),
        steps.0 matches Ok(string) ==> (string.container_url matches Ok(url)
            ==> (super::endpoint::parsed_url(url@) is Ok ==> (string.auth matches Auth::SharedKey {
            account_name,
            account_key,
        } ==> call_ensures(sign, (account_name, account_key, "2025-11-05"), steps.1)))),
        is_plan(steps.2, connection_plan(steps.0, steps.1, container_name@, proxy)),
        steps.2 matches Err(e) ==> built matches Err(message) && message@ == e@,
        steps.2 matches Ok(plan) ==> super::transport::transport_can_be(plan.proxies@, steps.3)
            && opens(
            plan.endpoint,
            container_name@,
            plan.authorization,
            steps.3,
            built,
        ),
{
    let plan = choose|plan: Result<ClientPlan, String>|
        {
            &&& #[trigger] plan_can_be(auth, container_name, proxy, parse, sign, plan)
            &&& built_from(plan, built)
        };
    let parsed = choose|parsed: Result<ParsedConnectionString, String>|
        {
            &&& call_ensures(parse, (&auth.connection_string, &container_name), parsed)
            &&& #[trigger] connection_can_be(sign, parsed, container_name@, proxy, plan)
        };
    let policy = choose|policy: Result<HeldPolicy, String>|
        {
            &&& #[trigger] policy_can_be(sign, parsed, policy)
            &&& is_plan(plan, connection_plan(parsed, policy, container_name@, proxy))
        };
    let transport = lemma_transport(plan, built);
    (parsed, policy, plan, transport)
}

proof fn lemma_transport(
    plan: Result<ClientPlan, String>,
    built: Result<ContainerClient, String>,
) -> (transport: Result<HttpTransport, String>)
    requires
        built_from(plan, built),
    ensures
        plan matches Err(e) ==> built matches Err(message) && message@ == e@,
        plan matches Ok(plan) ==> super::transport::transport_can_be(plan.proxies@, transport)
            && opens(
            plan.endpoint,
            plan.container_name@,
            plan.authorization,
            transport,
            built,
        ),
{
    if let Ok(whole) = plan {
        choose|transport: Result<HttpTransport, String>|
            {
                &&& super::transport::transport_can_be(whole.proxies@, transport)
                &&& #[trigger] opens(
                    whole.endpoint,
                    whole.container_name@,
                    whole.authorization,
                    transport,
                    built,
                )
            }
    } else {
        arbitrary()
    }
}

/// What a client with Entra ID comes to: the credential that the settings ask for is asked for, and
/// an HTTP client where nothing was at fault until then. The first fault is reported, and else the
/// client is to be made of all these.
pub proof fn entra_clients_are_exact<
    P: FnOnce(&SensitiveString, &String) -> Result<ParsedConnectionString, String>,
    K: FnOnce(String, SensitiveString, &'static str) -> Result<HeldPolicy, String>,
>(
    auth: AzureBlobAuthConfig,
    entra_id: AzureBlobEntraIdConfig,
    container_name: String,
    proxy: ProxyConfig,
    parse: P,
    sign: K,
    built: Result<ContainerClient, String>,
) -> (steps: (
    Result<TokenSource, String>,
    Result<ClientPlan, String>,
    Result<HttpTransport, String>,
))
    requires
        auth.connection_string@.len() == 0,
        auth.entra_id == Some(entra_id),
        client_can_be(auth, container_name, proxy, parse, sign, built),
    ensures
        super::credential::token_can_give(entra_id, steps.0),
        is_plan(steps.1, entra_plan(entra_id, steps.0, container_name@, proxy)),
        steps.1 matches Err(e) ==> built matches Err(message) && message@ == e@,
        steps.1 matches Ok(plan) ==> super::transport::transport_can_be(plan.proxies@, steps.2)
            && opens(
            plan.endpoint,
            container_name@,
            plan.authorization,
            steps.2,
            built,
        ),
{
    let plan = choose|plan: Result<ClientPlan, String>|
        {
            &&& #[trigger] plan_can_be(auth, container_name, proxy, parse, sign, plan)
            &&& built_from(plan, built)
        };
    let credential = choose|credential: Result<TokenSource, String>|
        {
            &&& super::credential::token_can_give(entra_id, credential)
            &&& is_plan(
                plan,
                #[trigger] entra_plan(entra_id, credential, container_name@, proxy),
            )
        };
    let transport = lemma_transport(plan, built);
    (credential, plan, transport)
}

}
