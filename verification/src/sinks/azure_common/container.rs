//! Clients of blob containers.

use std::sync::Arc;

use azure_core::credentials::TokenCredential;
use azure_core::http::policies::Policy;
use azure_storage_blob::{BlobContainerClient, BlobContainerClientOptions};

use vstd::prelude::*;

use super::endpoint::Endpoint;
use super::http::HttpTransport;

verus! {

/// A client of a container. It is only carried.
#[verifier::external_type_specification]
#[verifier::external_body]
pub struct ExBlobContainerClient(azure_storage_blob::BlobContainerClient);

/// Options of a client of a container. They are only carried.
#[verifier::external_type_specification]
#[verifier::external_body]
pub struct ExBlobContainerClientOptions(azure_storage_blob::BlobContainerClientOptions);

/// A credential that can be asked for tokens. It is only carried.
#[verifier::external_body]
pub struct HeldCredential(pub Arc<dyn TokenCredential>);

/// A policy that requests pass through before they are sent. It is only carried.
#[verifier::external_body]
pub struct HeldPolicy(pub Arc<dyn Policy>);

/// Options of a client, and the policies that were added to them.
pub struct ClientOptions {
    options: BlobContainerClientOptions,
    policies: Vec<HeldPolicy>,
}

impl View for ClientOptions {
    type V = Seq<HeldPolicy>;

    closed spec fn view(&self) -> Seq<HeldPolicy> {
        self.policies@
    }
}

/// `azure_storage_blob::BlobContainerClientOptions::default`: options without policies.
#[verifier::external_body]
pub(crate) fn default_options() -> (made: ClientOptions)
    ensures
        made@ == Seq::<HeldPolicy>::empty(),
{
    ClientOptions { options: BlobContainerClientOptions::default(), policies: Vec::new() }
}

/// `Vec::push` on the options' `per_call_policies`: requests pass through this policy too, after
/// those that were added before.
#[verifier::external_body]
pub(crate) fn with_policy(options: ClientOptions, policy: HeldPolicy) -> (added: ClientOptions)
    ensures
        added@ == options@.push(policy),
{
    let ClientOptions { mut options, mut policies } = options;
    options.client_options.per_call_policies.push(policy.0.clone());
    policies.push(policy);
    ClientOptions { options, policies }
}

/// What a client of a container was made from.
pub struct ClientOrigin {
    /// The URL that was handed in.
    pub endpoint: Endpoint,
    /// The name of the container, where it is not in that URL.
    pub container_name: Option<Seq<char>>,
    /// The credential that tokens are asked of.
    pub credential: Option<HeldCredential>,
    /// The policies that requests pass through.
    pub policies: Seq<HeldPolicy>,
    /// What requests are sent with.
    pub transport: HttpTransport,
}

/// A client of a container, and what it was made from.
pub struct OpenedContainer {
    client: BlobContainerClient,
    url: String,
    endpoint: Endpoint,
    container_name: Option<String>,
    credential: Option<HeldCredential>,
    policies: Vec<HeldPolicy>,
    transport: HttpTransport,
}

impl View for OpenedContainer {
    type V = ClientOrigin;

    closed spec fn view(&self) -> ClientOrigin {
        ClientOrigin {
            endpoint: self.endpoint,
            container_name: crate::text::view_of(self.container_name),
            credential: self.credential,
            policies: self.policies@,
            transport: self.transport,
        }
    }
}

impl OpenedContainer {
    /// The URL of the container, as contracts speak of it.
    pub closed spec fn spec_url(&self) -> Seq<char> {
        self.url@
    }

    /// The URL of the container.
    pub fn url(&self) -> (url: &str)
        ensures
            url@ == self.spec_url(),
    {
        self.url.as_str()
    }

    /// The policies that requests pass through.
    pub fn policies(&self) -> (policies: &Vec<HeldPolicy>)
        ensures
            policies@ == self@.policies,
    {
        &self.policies
    }

    /// What requests are sent with.
    pub fn transport(&self) -> (transport: &HttpTransport)
        ensures
            *transport == self@.transport,
    {
        &self.transport
    }

    /// The client itself, as contracts speak of it.
    pub closed spec fn spec_client(self) -> BlobContainerClient {
        self.client
    }

    /// The client itself.
    pub fn into_client(self) -> (client: BlobContainerClient)
        ensures
            client == self.spec_client(),
    {
        self.client
    }
}

/// `azure_storage_blob::BlobContainerClient::from_url` without a credential: a client of the
/// container at exactly this URL, with these policies and this transport. It is always made.
#[verifier::external_body]
pub(crate) fn open_container(
    endpoint: Endpoint,
    options: ClientOptions,
    transport: HttpTransport,
) -> (opened: Result<OpenedContainer, String>)
    ensures
        opened is Ok,
        opened matches Ok(container) ==> {
            &&& container.spec_url() == endpoint@.text
            &&& container@.endpoint == endpoint
            &&& container@.container_name is None
            &&& container@.credential is None
            &&& container@.policies == options@
            &&& container@.transport == transport
        },
{
    let ClientOptions { mut options, policies } = options;
    options.client_options.transport = Some(transport.transport().clone());
    let client = BlobContainerClient::from_url(endpoint.url().clone(), None, Some(options))
        .map_err(|e| e.to_string())?;
    let url = client.url().as_str().to_owned();
    let (container_name, credential) = (None, None);
    Ok(OpenedContainer { client, url, endpoint, container_name, credential, policies, transport })
}

/// The URL of the container's client that `azure_storage_blob::BlobContainerClient::new` makes with
/// a credential, from the URL of the account and the name of the container, or why it makes none.
pub uninterp spec fn token_container(endpoint: Seq<char>, container_name: Seq<char>) -> Result<
    Seq<char>,
    Seq<char>,
>;

/// Whether a client that authenticates with tokens is made for the account at this URL: it has to
/// be one of HTTPS, to which the name of the container can be added.
pub open spec fn takes_tokens(endpoint: Seq<char>) -> bool {
    match super::endpoint::parsed_url(endpoint) {
        Ok(parts) => !parts.cannot_be_a_base && "https"@.is_prefix_of(parts.scheme),
        Err(_) => false,
    }
}

/// `azure_storage_blob::BlobContainerClient::new` with a credential: a client of the container of
/// this name at the account's URL, which asks this credential for tokens, with these policies and
/// this transport. It is made exactly where the URL, parsed again from its text, is one of HTTPS
/// and can be a base. The URL of the container, and why no client is made, are left to the name.
#[verifier::external_body]
pub(crate) fn open_token_container(
    endpoint: Endpoint,
    container_name: String,
    credential: HeldCredential,
    options: ClientOptions,
    transport: HttpTransport,
) -> (opened: Result<OpenedContainer, String>)
    ensures
        opened is Ok <==> takes_tokens(endpoint@.text),
        match opened {
            Ok(container) => {
                &&& token_container(endpoint@.text, container_name@) == Ok::<Seq<char>, Seq<char>>(
                    container.spec_url(),
                )
                &&& container@.endpoint == endpoint
                &&& container@.container_name == Some(container_name@)
                &&& container@.credential == Some(credential)
                &&& container@.policies == options@
                &&& container@.transport == transport
            },
            Err(e) => token_container(endpoint@.text, container_name@) == Err::<
                Seq<char>,
                Seq<char>,
            >(e@),
        },
{
    let ClientOptions { mut options, policies } = options;
    options.client_options.transport = Some(transport.transport().clone());
    let (url, asked) = (endpoint.url().as_str(), Some(credential.0.clone()));
    let client = BlobContainerClient::new(url, &container_name, asked, Some(options))
        .map_err(|e| e.to_string())?;
    let url = client.url().as_str().to_owned();
    let (container_name, credential) = (Some(container_name), Some(credential));
    Ok(OpenedContainer { client, url, endpoint, container_name, credential, policies, transport })
}

/// What clients and their options were made from is seen in full.
proof fn lemma_views_are_whole(options: ClientOptions, container: OpenedContainer)
    ensures
        options@ == options.policies@,
        container@.endpoint == container.endpoint,
        container.container_name is None <==> container@.container_name is None,
        container.container_name matches Some(name) ==> container@.container_name == Some(name@),
        container@.credential == container.credential,
        container@.policies == container.policies@,
        container@.transport == container.transport,
        container.spec_url() == container.url@,
        container.spec_client() == container.client,
{
}

}
