//! Which proxies a client goes through.

use vstd::prelude::*;

use crate::text;

use super::endpoint::{Endpoint, UrlParts};
use super::http::{open_http_proxy, open_https_proxy, ProxyEndpoint, ProxyScope, ProxyView};

verus! {

/// Proxy settings.
pub struct ProxyConfig {
    /// Whether proxies are used at all.
    pub enabled: bool,
    /// The proxy for plain HTTP.
    pub http: Option<String>,
    /// The proxy for HTTPS.
    pub https: Option<String>,
    /// The hosts that are reached without a proxy, separated by commas.
    pub no_proxy: String,
}

impl Default for ProxyConfig {
    fn default() -> (proxy: ProxyConfig)
        ensures
            proxy.enabled,
            proxy.http is None,
            proxy.https is None,
            proxy.no_proxy@ == Seq::<char>::empty(),
    {
        ProxyConfig { enabled: true, http: None, https: None, no_proxy: String::new() }
    }
}

/// Whether a list of hosts without proxy covers a host, as `no_proxy::NoProxy::matches` has it.
pub uninterp spec fn no_proxy_match(list: Seq<char>, host: Seq<char>) -> bool;

/// `no_proxy::NoProxy::matches` on the list that `no_proxy::NoProxy::from` makes of a text. An
/// empty list covers nothing, and `*` everything.
#[verifier::external_body]
fn no_proxy_matches(list: &str, host: &str) -> (matched: bool)
    ensures
        matched == no_proxy_match(list@, host@),
        list@.len() == 0 ==> !matched,
        list@ == seq!['*'] ==> matched,
{
    no_proxy::NoProxy::from(list).matches(host)
}

/// The proxies of a client.
pub enum ProxyPlan {
    /// No proxy, not even one that the system would name.
    Bypass,
    /// These proxies, or else those that the system names.
    Through { http: Option<ProxyEndpoint>, https: Option<ProxyEndpoint> },
}

/// The proxies of a client, as contracts speak of them.
pub enum ProxyPlanView {
    Bypass,
    Through { http: Option<ProxyView>, https: Option<ProxyView> },
}

/// The view of an optional proxy.
pub open spec fn proxy_view(proxy: Option<ProxyEndpoint>) -> Option<ProxyView> {
    match proxy {
        Some(proxy) => Some(proxy@),
        None => None,
    }
}

/// The proxy of a scope that the settings name, if any.
pub open spec fn configured(scope: ProxyScope, url: Option<String>) -> Option<ProxyView> {
    match url {
        Some(url) => Some(ProxyView { scope, url: url@ }),
        None => None,
    }
}

impl View for ProxyPlan {
    type V = ProxyPlanView;

    open spec fn view(&self) -> ProxyPlanView {
        match *self {
            ProxyPlan::Bypass => ProxyPlanView::Bypass,
            ProxyPlan::Through { http, https } => ProxyPlanView::Through {
                http: proxy_view(http),
                https: proxy_view(https),
            },
        }
    }
}

/// The host of a URL, empty where it has none.
pub open spec fn host_of(parts: UrlParts) -> Seq<char> {
    match parts.host {
        Some(host) => host,
        None => Seq::empty(),
    }
}

/// Whether the settings say to reach this URL without a proxy: by its host, or by its host and
/// port.
pub open spec fn bypasses(proxy: ProxyConfig, parts: UrlParts) -> bool {
    ||| no_proxy_match(proxy.no_proxy@, host_of(parts))
    ||| parts.port matches Some(port) && no_proxy_match(
        proxy.no_proxy@,
        host_of(parts) + ":"@ + text::decimal(port as nat),
    )
}

/// The proxies to reach a URL through, or what is wrong with them.
pub open spec fn proxies_for(proxy: ProxyConfig, parts: UrlParts) -> Result<
    ProxyPlanView,
    Seq<char>,
> {
    if bypasses(proxy, parts) || !proxy.enabled {
        Ok(ProxyPlanView::Bypass)
    } else if proxy.http matches Some(url) && super::http::http_proxy_error(url@) is Some {
        Err(
            "Invalid HTTP proxy URL: "@ + super::http::http_proxy_error(
                proxy.http.unwrap()@,
            ).unwrap(),
        )
    } else if proxy.https matches Some(url) && super::http::https_proxy_error(url@) is Some {
        Err(
            "Invalid HTTPS proxy URL: "@ + super::http::https_proxy_error(
                proxy.https.unwrap()@,
            ).unwrap(),
        )
    } else {
        Ok(
            ProxyPlanView::Through {
                http: configured(ProxyScope::Http, proxy.http),
                https: configured(ProxyScope::Https, proxy.https),
            },
        )
    }
}

fn bypass_proxy(proxy: &ProxyConfig, endpoint: &Endpoint) -> (bypass: bool)
    ensures
        bypass == bypasses(*proxy, endpoint@),
{
    let host: &str = match endpoint.host() {
        Some(host) => host,
        None => {
            proof {
                reveal_strlit("");
                assert(""@ =~= Seq::<char>::empty());
            }
            ""
        },
    };
    if no_proxy_matches(proxy.no_proxy.as_str(), host) {
        return true;
    }
    match endpoint.port() {
        Some(port) => {
            let number: String = text::decimal_text(port as u64);
            let name: String = text::joined(text::joined(host, ":").as_str(), number.as_str());
            no_proxy_matches(proxy.no_proxy.as_str(), name.as_str())
        },
        None => false,
    }
}

/// Settles the proxies to reach an endpoint through.
pub fn plan_proxies(proxy: &ProxyConfig, endpoint: &Endpoint) -> (plan: Result<ProxyPlan, String>)
    ensures
        match plan {
            Ok(plan) => proxies_for(*proxy, endpoint@) == Ok::<ProxyPlanView, Seq<char>>(plan@),
            Err(e) => proxies_for(*proxy, endpoint@) == Err::<ProxyPlanView, Seq<char>>(e@),
        },
{
    if bypass_proxy(proxy, endpoint) || !proxy.enabled {
        return Ok(ProxyPlan::Bypass);
    }
    let http: Option<ProxyEndpoint> = match &proxy.http {
        Some(url) => match open_http_proxy(url.as_str()) {
            Ok(proxy) => Some(proxy),
            Err(e) => {
                return Err(text::joined("Invalid HTTP proxy URL: ", e.as_str()));
            },
        },
        None => None,
    };
    let https: Option<ProxyEndpoint> = match &proxy.https {
        Some(url) => match open_https_proxy(url.as_str()) {
            Ok(proxy) => Some(proxy),
            Err(e) => {
                return Err(text::joined("Invalid HTTPS proxy URL: ", e.as_str()));
            },
        },
        None => None,
    };
    Ok(ProxyPlan::Through { http, https })
}

/// An endpoint is reached without a proxy exactly where proxies are off, or the list of hosts
/// without proxy covers its host, whether or not its URL has a port, or covers its host and port.
/// A URL without a host has the empty one.
pub proof fn listed_hosts_are_reached_without_proxy(
    proxy: ProxyConfig,
    parts: UrlParts,
    host: Seq<char>,
)
    requires
        parts.host == Some(host) || parts.host is None && host.len() == 0,
    ensures
        proxies_for(proxy, parts) == Ok::<ProxyPlanView, Seq<char>>(ProxyPlanView::Bypass) <==> {
            ||| !proxy.enabled
            ||| no_proxy_match(proxy.no_proxy@, host)
            ||| parts.port matches Some(port) && no_proxy_match(
                proxy.no_proxy@,
                host + seq![':'] + text::decimal(port as nat),
            )
        },
{
    reveal_strlit(":");
    assert(":"@ =~= seq![':']);
    assert(host_of(parts) =~= host);
}

/// Elsewhere the proxy that is configured for plain HTTP and the one for HTTPS are used with their
/// URLs, and the first of these URLs that cannot be taken is complained of.
pub proof fn configured_proxies_are_planned(proxy: ProxyConfig, parts: UrlParts)
    requires
        proxies_for(proxy, parts) != Ok::<ProxyPlanView, Seq<char>>(ProxyPlanView::Bypass),
    ensures
        ({
            let http_fault = match proxy.http {
                Some(url) => super::http::http_proxy_error(url@),
                None => None,
            };
            let https_fault = match proxy.https {
                Some(url) => super::http::https_proxy_error(url@),
                None => None,
            };
            match proxies_for(proxy, parts) {
                Ok(ProxyPlanView::Through { http, https }) => {
                    &&& http_fault is None
                    &&& https_fault is None
                    &&& proxy.http is None <==> http is None
                    &&& proxy.http matches Some(url) ==> http == Some(
                        ProxyView { scope: ProxyScope::Http, url: url@ },
                    )
                    &&& proxy.https is None <==> https is None
                    &&& proxy.https matches Some(url) ==> https == Some(
                        ProxyView { scope: ProxyScope::Https, url: url@ },
                    )
                },
                Ok(ProxyPlanView::Bypass) => false,
                Err(message) => {
                    ||| http_fault matches Some(e) && message == "Invalid HTTP proxy URL: "@ + e
                    ||| http_fault is None && (https_fault matches Some(e) && message
                        == "Invalid HTTPS proxy URL: "@ + e)
                },
            }
        }),
{
}

/// A plan is seen as it is.
pub proof fn plans_are_seen_in_full(plan: ProxyPlan)
    ensures
        plan is Bypass <==> plan@ is Bypass,
        plan matches ProxyPlan::Through { http, https } ==> {
            &&& http is None <==> plan@->http is None
            &&& http matches Some(proxy) ==> plan@->http == Some(proxy@)
            &&& https is None <==> plan@->https is None
            &&& https matches Some(proxy) ==> plan@->https == Some(proxy@)
        },
{
}

/// A plan that was made does without proxies exactly where proxies are off, or the list of hosts
/// without proxy covers the endpoint's host, whether or not its URL has a port, or covers its host
/// and port.
pub proof fn made_plans_bypass_listed_hosts(
    proxy: ProxyConfig,
    endpoint: Endpoint,
    host: Seq<char>,
    plan: Result<ProxyPlan, String>,
)
    requires
        call_ensures(plan_proxies, (&proxy, &endpoint), plan),
        endpoint@.host == Some(host) || endpoint@.host is None && host.len() == 0,
    ensures
        (plan matches Ok(plan) && plan is Bypass) <==> (!proxy.enabled || no_proxy_match(
            proxy.no_proxy@,
            host,
        ) || (endpoint@.port matches Some(port) && no_proxy_match(
            proxy.no_proxy@,
            host + seq![':'] + text::decimal(port as nat),
        ))),
{
    listed_hosts_are_reached_without_proxy(proxy, endpoint@, host);
}

}
