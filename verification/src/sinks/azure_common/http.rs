//! HTTP clients and their proxies.

use std::sync::Arc;

use vstd::prelude::*;

verus! {

/// A proxy of an HTTP client. It is only carried.
#[verifier::external_type_specification]
#[verifier::external_body]
pub struct ExProxy(reqwest::Proxy);

/// An HTTP client that is being set up. It is only carried.
#[verifier::external_type_specification]
#[verifier::external_body]
pub struct ExClientBuilder(reqwest::ClientBuilder);

/// An HTTP client. It is only carried.
#[verifier::external_type_specification]
#[verifier::external_body]
pub struct ExClient(reqwest::Client);

/// What requests are sent with. It is only carried.
#[verifier::external_type_specification]
#[verifier::external_body]
pub struct ExTransport(azure_core::http::Transport);

/// Which requests a proxy is for.
#[derive(Clone, Copy, Debug, PartialEq, Eq, Structural)]
pub enum ProxyScope {
    /// Those of plain HTTP.
    Http,
    /// Those of HTTPS.
    Https,
}

/// A proxy, as contracts speak of it.
pub struct ProxyView {
    pub scope: ProxyScope,
    pub url: Seq<char>,
}

/// A proxy, and what it was made from.
pub struct ProxyEndpoint {
    scope: ProxyScope,
    url: String,
    proxy: reqwest::Proxy,
}

impl View for ProxyEndpoint {
    type V = ProxyView;

    closed spec fn view(&self) -> ProxyView {
        ProxyView { scope: self.scope, url: self.url@ }
    }
}

/// What `reqwest::Proxy::http` finds wrong with a proxy URL. None where it takes it.
pub uninterp spec fn http_proxy_error(url: Seq<char>) -> Option<Seq<char>>;

/// What `reqwest::Proxy::https` finds wrong with a proxy URL. None where it takes it.
pub uninterp spec fn https_proxy_error(url: Seq<char>) -> Option<Seq<char>>;

/// `reqwest::Proxy::http`: a proxy for plain HTTP with exactly this URL, or why there is none,
/// which is left to the name.
#[verifier::external_body]
pub(crate) fn open_http_proxy(url: &str) -> (opened: Result<ProxyEndpoint, String>)
    ensures
        match opened {
            Ok(proxy) => {
                &&& http_proxy_error(url@) is None
                &&& proxy@ == (ProxyView { scope: ProxyScope::Http, url: url@ })
            },
            Err(e) => http_proxy_error(url@) == Some(e@),
        },
{
    reqwest::Proxy::http(url)
        .map(|proxy| ProxyEndpoint { scope: ProxyScope::Http, url: url.to_owned(), proxy })
        .map_err(|e| e.to_string())
}

/// `reqwest::Proxy::https`: a proxy for HTTPS with exactly this URL, or why there is none, which
/// is left to the name.
#[verifier::external_body]
pub(crate) fn open_https_proxy(url: &str) -> (opened: Result<ProxyEndpoint, String>)
    ensures
        match opened {
            Ok(proxy) => {
                &&& https_proxy_error(url@) is None
                &&& proxy@ == (ProxyView { scope: ProxyScope::Https, url: url@ })
            },
            Err(e) => https_proxy_error(url@) == Some(e@),
        },
{
    reqwest::Proxy::https(url)
        .map(|proxy| ProxyEndpoint { scope: ProxyScope::Https, url: url.to_owned(), proxy })
        .map_err(|e| e.to_string())
}

/// A proxy that an HTTP client uses.
#[derive(Debug)]
pub struct ProxyUse {
    pub scope: ProxyScope,
    pub url: String,
}

impl View for ProxyUse {
    type V = ProxyView;

    open spec fn view(&self) -> ProxyView {
        ProxyView { scope: self.scope, url: self.url@ }
    }
}

/// The proxies of an HTTP client.
#[derive(Debug)]
pub struct Routing {
    /// Whether it uses the proxies that the system names.
    pub system: bool,
    /// The other proxies that it uses.
    pub proxies: Vec<ProxyUse>,
}

/// The proxies of an HTTP client, as contracts speak of them.
#[verifier::ext_equal]
pub struct RoutingView {
    pub system: bool,
    pub proxies: Seq<ProxyView>,
}

impl View for Routing {
    type V = RoutingView;

    open spec fn view(&self) -> RoutingView {
        RoutingView {
            system: self.system,
            proxies: self.proxies@.map_values(|proxy: ProxyUse| proxy@),
        }
    }
}

/// An HTTP client that is being set up, and its proxies so far.
pub struct HttpSetup {
    builder: reqwest::ClientBuilder,
    routing: Routing,
}

impl View for HttpSetup {
    type V = RoutingView;

    closed spec fn view(&self) -> RoutingView {
        self.routing@
    }
}

/// An HTTP client, and its proxies.
pub struct HttpClient {
    client: reqwest::Client,
    routing: Routing,
}

impl View for HttpClient {
    type V = RoutingView;

    closed spec fn view(&self) -> RoutingView {
        self.routing@
    }
}

/// What requests are sent with, and the proxies that they go through.
pub struct HttpTransport {
    transport: azure_core::http::Transport,
    routing: Routing,
}

impl View for HttpTransport {
    type V = RoutingView;

    closed spec fn view(&self) -> RoutingView {
        self.routing@
    }
}

impl HttpTransport {
    /// The proxies.
    pub fn routing(&self) -> (routing: &Routing)
        ensures
            routing@ == self@,
    {
        &self.routing
    }

    /// What requests are sent with, as contracts speak of it.
    pub closed spec fn spec_transport(&self) -> azure_core::http::Transport {
        self.transport
    }

    /// What requests are sent with.
    pub fn transport(&self) -> (transport: &azure_core::http::Transport)
        ensures
            *transport == self.spec_transport(),
    {
        &self.transport
    }
}

/// `reqwest::ClientBuilder::new`: a client with no proxies but those of the system.
#[verifier::external_body]
pub(crate) fn new_setup() -> (setup: HttpSetup)
    ensures
        setup@ == (RoutingView { system: true, proxies: Seq::empty() }),
{
    let routing = Routing { system: true, proxies: Vec::new() };
    HttpSetup { builder: reqwest::ClientBuilder::new(), routing }
}

/// `reqwest::ClientBuilder::no_proxy`: the client then uses no proxy, not even one of the system.
#[verifier::external_body]
pub(crate) fn without_proxies(setup: HttpSetup) -> (bare: HttpSetup)
    ensures
        bare@ == (RoutingView { system: false, proxies: Seq::empty() }),
{
    let routing = Routing { system: false, proxies: Vec::new() };
    HttpSetup { builder: setup.builder.no_proxy(), routing }
}

/// `reqwest::ClientBuilder::proxy`: the client then uses this proxy after those it has, and none
/// of the system.
#[verifier::external_body]
pub(crate) fn with_proxy(setup: HttpSetup, proxy: ProxyEndpoint) -> (added: HttpSetup)
    ensures
        added@ == (RoutingView { system: false, proxies: setup@.proxies.push(proxy@) }),
{
    let mut proxies = setup.routing.proxies;
    proxies.push(ProxyUse { scope: proxy.scope, url: proxy.url });
    let routing = Routing { system: false, proxies };
    HttpSetup { builder: setup.builder.proxy(proxy.proxy), routing }
}

/// `reqwest::ClientBuilder::build`: a client with the proxies that were set up. Whether one is
/// made rests on the machine, and nothing is claimed of the text of an error.
#[verifier::external_body]
pub(crate) fn build_http(setup: HttpSetup) -> (built: Result<HttpClient, String>)
    ensures
        built matches Ok(client) ==> client@ == setup@,
{
    let routing = setup.routing;
    setup.builder.build().map(|client| HttpClient { client, routing }).map_err(|e| e.to_string())
}

/// `azure_core::http::Transport::new`: requests are sent with this client.
#[verifier::external_body]
pub(crate) fn transport_through(client: HttpClient) -> (transport: HttpTransport)
    ensures
        transport@ == client@,
{
    let transport = azure_core::http::Transport::new(Arc::new(client.client));
    HttpTransport { transport, routing: client.routing }
}

/// Whether `built` is what came back when this client was to be made.
pub closed spec fn http_built(setup: HttpSetup, built: Result<HttpClient, String>) -> bool {
    call_ensures(build_http, (setup,), built)
}

/// Makes the client that was set up.
pub(crate) fn make_http(setup: HttpSetup) -> (built: Result<HttpClient, String>)
    ensures
        http_built(setup, built),
        built matches Ok(client) ==> client@ == setup@,
{
    build_http(setup)
}

/// The proxies of clients are seen in full.
pub proof fn proxies_are_seen_in_full(routing: Routing)
    ensures
        routing@.system == routing.system,
        routing@.proxies.len() == routing.proxies@.len(),
        forall|i: int|
            0 <= i < routing.proxies@.len() ==> (#[trigger] routing@.proxies[i]) == (ProxyView {
                scope: routing.proxies@[i].scope,
                url: routing.proxies@[i].url@,
            }),
{
}

/// What handles were made from is seen in full.
proof fn lemma_views_are_whole(
    proxy: ProxyEndpoint,
    setup: HttpSetup,
    client: HttpClient,
    transport: HttpTransport,
)
    ensures
        proxy@ == (ProxyView { scope: proxy.scope, url: proxy.url@ }),
        setup@ == setup.routing@,
        client@ == client.routing@,
        transport@ == transport.routing@,
        transport.spec_transport() == transport.transport,
{
}

}
