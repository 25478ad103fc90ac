//! URLs to connect to.

use vstd::prelude::*;

verus! {

/// A URL. It is only carried.
#[verifier::external_type_specification]
#[verifier::external_body]
pub struct ExUrl(azure_core::http::Url);

/// What is read of a URL, as contracts speak of it.
pub struct UrlParts {
    /// The URL as text, in its normal form.
    pub text: Seq<char>,
    pub scheme: Seq<char>,
    pub host: Option<Seq<char>>,
    /// The port, where the URL has one that is not its scheme's default.
    pub port: Option<u16>,
    /// Whether the URL has no path to which segments could be added.
    pub cannot_be_a_base: bool,
}

/// What `url::Url::parse` makes of a text: the parts of the URL, or why it is none.
pub uninterp spec fn parsed_url(input: Seq<char>) -> Result<UrlParts, Seq<char>>;

/// A URL to connect to, and what is read of it.
pub struct Endpoint {
    url: azure_core::http::Url,
    text: String,
    scheme: String,
    host: Option<String>,
    port: Option<u16>,
    cannot_be_a_base: bool,
}

impl View for Endpoint {
    type V = UrlParts;

    closed spec fn view(&self) -> UrlParts {
        UrlParts {
            text: self.text@,
            scheme: self.scheme@,
            host: crate::text::view_of(self.host),
            port: self.port,
            cannot_be_a_base: self.cannot_be_a_base,
        }
    }
}

/// `url::Url::parse`, and of the URL its text, its scheme, its host, its port and whether it can
/// be a base. What a text parses to is left to the name.
#[verifier::external_body]
fn parse_url(input: &str) -> (parsed: Result<Endpoint, String>)
    ensures
        match parsed {
            Ok(endpoint) => parsed_url(input@) == Ok::<UrlParts, Seq<char>>(endpoint@),
            Err(e) => parsed_url(input@) == Err::<UrlParts, Seq<char>>(e@),
        },
{
    let url = azure_core::http::Url::parse(input).map_err(|e| e.to_string())?;
    let text = url.as_str().to_owned();
    let scheme = url.scheme().to_owned();
    let host = url.host_str().map(str::to_owned);
    let port = url.port();
    let cannot_be_a_base = url.cannot_be_a_base();
    Ok(Endpoint { url, text, scheme, host, port, cannot_be_a_base })
}

impl Endpoint {
    /// Reads a URL.
    pub fn parse(input: &str) -> (parsed: Result<Endpoint, String>)
        ensures
            match parsed {
                Ok(endpoint) => parsed_url(input@) == Ok::<UrlParts, Seq<char>>(endpoint@),
                Err(e) => parsed_url(input@) == Err::<UrlParts, Seq<char>>(e@),
            },
    {
        parse_url(input)
    }

    /// The URL itself, as contracts speak of it.
    pub closed spec fn spec_url(&self) -> azure_core::http::Url {
        self.url
    }

    /// The URL itself.
    pub fn url(&self) -> (url: &azure_core::http::Url)
        ensures
            *url == self.spec_url(),
    {
        &self.url
    }

    /// The URL as text.
    pub fn text(&self) -> (text: &str)
        ensures
            text@ == self@.text,
    {
        self.text.as_str()
    }

    /// The host, where the URL has one.
    pub fn host(&self) -> (host: Option<&str>)
        ensures
            match host {
                Some(host) => self@.host == Some(host@),
                None => self@.host is None,
            },
    {
        match &self.host {
            Some(host) => Some(host.as_str()),
            None => None,
        }
    }

    /// The port, where the URL has one that is not its scheme's default.
    pub fn port(&self) -> (port: Option<u16>)
        ensures
            port == self@.port,
    {
        self.port
    }
}

/// What was read of a URL is seen in full.
proof fn lemma_view_is_whole(endpoint: Endpoint)
    ensures
        endpoint@.text == endpoint.text@,
        endpoint@.scheme == endpoint.scheme@,
        endpoint.host is None <==> endpoint@.host is None,
        endpoint.host matches Some(host) ==> endpoint@.host == Some(host@),
        endpoint@.port == endpoint.port,
        endpoint@.cannot_be_a_base == endpoint.cannot_be_a_base,
        endpoint.spec_url() == endpoint.url,
{
}

}
