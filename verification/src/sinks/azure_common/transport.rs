//! The HTTP client that a client of the storage service sends its requests with.

use vstd::prelude::*;

use crate::text;

use super::endpoint::UrlParts;
use super::http::{
    make_http, new_setup, transport_through, with_proxy, without_proxies, HttpClient, HttpSetup,
    HttpTransport, ProxyScope, ProxyView, RoutingView,
};
use super::proxy::{ProxyConfig, ProxyPlan, ProxyPlanView};

verus! {

/// An optional proxy as a list.
pub open spec fn listed(proxy: Option<ProxyView>) -> Seq<ProxyView> {
    match proxy {
        Some(proxy) => seq![proxy],
        None => Seq::empty(),
    }
}

/// The proxies that a client uses by a plan.
pub open spec fn routing_for(plan: ProxyPlanView) -> RoutingView {
    match plan {
        ProxyPlanView::Bypass => RoutingView { system: false, proxies: Seq::empty() },
        ProxyPlanView::Through { http, https } => RoutingView {
            system: http is None && https is None,
            proxies: listed(http) + listed(https),
        },
    }
}

/// What becomes of an attempt to make an HTTP client.
pub open spec fn transport_made(
    built: Result<HttpClient, String>,
    made: Result<HttpTransport, String>,
) -> bool {
    match (built, made) {
        (Ok(client), Ok(transport)) => transport@ == client@,
        (Err(e), Err(message)) => message@ == "Failed to build reqwest client: "@ + e@,
        _ => false,
    }
}

/// Whether setting up the transport by a plan can give `made`.
pub open spec fn transport_can_be(
    plan: ProxyPlanView,
    made: Result<HttpTransport, String>,
) -> bool {
    exists|setup: HttpSetup, built: Result<HttpClient, String>|
        {
            &&& setup@ == routing_for(plan)
            &&& #[trigger] super::http::http_built(setup, built)
            &&& transport_made(built, made)
            &&& made matches Ok(transport) ==> transport@ == routing_for(plan)
        }
}

fn set_up(plan: ProxyPlan) -> (setup: HttpSetup)
    ensures
        setup@ == routing_for(plan@),
{
    let setup: HttpSetup = new_setup();
    match plan {
        // Ensure no proxy (and disable any potential system proxy auto-detection)
        ProxyPlan::Bypass => without_proxies(setup),
        ProxyPlan::Through { http, https } => {
            // If credentials are embedded in a proxy URL, reqwest will handle them.
            let setup: HttpSetup = match http {
                Some(proxy) => with_proxy(setup, proxy),
                None => setup,
            };
            let setup: HttpSetup = match https {
                Some(proxy) => with_proxy(setup, proxy),
                None => setup,
            };
            assert(setup@ =~= routing_for(plan@));
            setup
        },
    }
}

/// Takes the HTTP client that was made as transport, or reports why none was.
pub fn as_transport(built: Result<HttpClient, String>) -> (made: Result<HttpTransport, String>)
    ensures
        transport_made(built, made),
{
    match built {
        Ok(client) => Ok(transport_through(client)),
        Err(e) => Err(text::joined("Failed to build reqwest client: ", e.as_str())),
    }
}

/// Makes the transport for a plan of proxies.
pub fn build_transport(plan: ProxyPlan) -> (made: Result<HttpTransport, String>)
    ensures
        transport_can_be(plan@, made),
{
    let setup: HttpSetup = set_up(plan);
    let ghost given = setup;
    let built: Result<HttpClient, String> = make_http(setup);
    let ghost outcome = built;
    let made: Result<HttpTransport, String> = as_transport(built);
    assert(super::http::http_built(given, outcome));
    made
}

/// Where proxies are switched off, or the settings say to reach an endpoint without one, none is
/// used, not even one that the system names.
pub proof fn bypassed_proxies_are_not_used(
    proxy: ProxyConfig,
    endpoint: UrlParts,
    plan: ProxyPlanView,
    made: HttpTransport,
)
    requires
        !proxy.enabled || super::proxy::bypasses(proxy, endpoint),
        super::proxy::proxies_for(proxy, endpoint) == Ok::<ProxyPlanView, Seq<char>>(plan),
        transport_can_be(plan, Ok(made)),
    ensures
        !made@.system,
        made@.proxies.len() == 0,
{
}

/// Elsewhere the configured proxies are used, each for its scope, and the system's exactly where
/// none is configured.
pub proof fn configured_proxies_are_used(
    proxy: ProxyConfig,
    endpoint: UrlParts,
    plan: ProxyPlanView,
    made: HttpTransport,
    scope: ProxyScope,
    url: Seq<char>,
)
    requires
        proxy.enabled,
        !super::proxy::bypasses(proxy, endpoint),
        super::proxy::proxies_for(proxy, endpoint) == Ok::<ProxyPlanView, Seq<char>>(plan),
        transport_can_be(plan, Ok(made)),
    ensures
        made@.proxies.contains(ProxyView { scope, url }) <==> match scope {
            ProxyScope::Http => proxy.http matches Some(configured) && configured@ == url,
            ProxyScope::Https => proxy.https matches Some(configured) && configured@ == url,
        },
        made@.system <==> proxy.http is None && proxy.https is None,
{
    let wanted = ProxyView { scope, url };
    let http = super::proxy::configured(ProxyScope::Http, proxy.http);
    let https = super::proxy::configured(ProxyScope::Https, proxy.https);
    let used = listed(http) + listed(https);
    assert(made@.proxies == used);
    if http == Some(wanted) {
        assert(used[0] == wanted);
    }
    if https == Some(wanted) {
        assert(used[listed(http).len() as int] == wanted);
    }
}

/// Where proxies are off, or the list of hosts without proxy covers the host of an endpoint or its
/// host and port, no proxy is used, not even one that the system names.
pub proof fn excluded_hosts_use_no_proxy(
    proxy: ProxyConfig,
    endpoint: UrlParts,
    host: Seq<char>,
    plan: ProxyPlanView,
    made: HttpTransport,
)
    requires
        endpoint.host == Some(host) || endpoint.host is None && host.len() == 0,
        !proxy.enabled || super::proxy::no_proxy_match(proxy.no_proxy@, host) || (
        endpoint.port is Some && super::proxy::no_proxy_match(
            proxy.no_proxy@,
            host + seq![':'] + text::decimal(endpoint.port->0 as nat),
        )),
        super::proxy::proxies_for(proxy, endpoint) == Ok::<ProxyPlanView, Seq<char>>(plan),
        transport_can_be(plan, Ok(made)),
    ensures
        !made@.system,
        made@.proxies.len() == 0,
{
    super::proxy::listed_hosts_are_reached_without_proxy(proxy, endpoint, host);
}

/// A configured proxy, for this scope.
pub open spec fn used(scope: ProxyScope, url: Option<String>) -> ProxyView {
    ProxyView { scope, url: url->0@ }
}

/// Elsewhere the configured proxies are used and no others, each with its URL and for its scope,
/// that for plain HTTP first, and the system's exactly where none is configured.
pub proof fn proxies_are_used_in_their_scope(
    proxy: ProxyConfig,
    endpoint: UrlParts,
    host: Seq<char>,
    plan: ProxyPlanView,
    made: HttpTransport,
)
    requires
        endpoint.host == Some(host) || endpoint.host is None && host.len() == 0,
        proxy.enabled,
        !super::proxy::no_proxy_match(proxy.no_proxy@, host),
        endpoint.port matches Some(port) ==> !super::proxy::no_proxy_match(
            proxy.no_proxy@,
            host + seq![':'] + text::decimal(port as nat),
        ),
        super::proxy::proxies_for(proxy, endpoint) == Ok::<ProxyPlanView, Seq<char>>(plan),
        transport_can_be(plan, Ok(made)),
    ensures
        made@.system <==> proxy.http is None && proxy.https is None,
        proxy.http is Some && proxy.https is Some ==> made@.proxies == seq![
            used(ProxyScope::Http, proxy.http),
            used(ProxyScope::Https, proxy.https),
        ],
        proxy.http is Some && proxy.https is None ==> made@.proxies == seq![
            used(ProxyScope::Http, proxy.http),
        ],
        proxy.http is None && proxy.https is Some ==> made@.proxies == seq![
            used(ProxyScope::Https, proxy.https),
        ],
        proxy.http is None && proxy.https is None ==> made@.proxies.len() == 0,
{
    super::proxy::listed_hosts_are_reached_without_proxy(proxy, endpoint, host);
    super::proxy::configured_proxies_are_planned(proxy, endpoint);
    let http = used(ProxyScope::Http, proxy.http);
    let https = used(ProxyScope::Https, proxy.https);
    if proxy.http is Some && proxy.https is Some {
        assert(made@.proxies =~= seq![http, https]);
    } else if proxy.http is Some {
        assert(made@.proxies =~= seq![http]);
    } else if proxy.https is Some {
        assert(made@.proxies =~= seq![https]);
    }
}

/// An HTTP client is asked for with the proxies of the plan, and what came back is used: the client
/// with those proxies, or why there is none, after a fixed text.
pub proof fn http_clients_are_asked_for(
    plan: ProxyPlanView,
    made: Result<HttpTransport, String>,
) -> (asked: (HttpSetup, Result<HttpClient, String>))
    requires
        transport_can_be(plan, made),
    ensures
        asked.0@ == routing_for(plan),
        super::http::http_built(asked.0, asked.1),
        asked.1 is Ok <==> made is Ok,
        asked.1 matches Ok(client) ==> made->Ok_0@ == client@ && made->Ok_0@ == routing_for(plan),
        asked.1 matches Err(e) ==> made->Err_0@ == "Failed to build reqwest client: "@ + e@,
{
    choose|setup: HttpSetup, built: Result<HttpClient, String>|
        {
            &&& setup@ == routing_for(plan)
            &&& #[trigger] super::http::http_built(setup, built)
            &&& transport_made(built, made)
            &&& made matches Ok(transport) ==> transport@ == routing_for(plan)
        }
}

}
