//! Credentials for Microsoft Entra ID.

use std::sync::Arc;

use vstd::prelude::*;
use vstd::string::*;

use crate::text;

use super::config::{AzureBlobAuthConfig, AzureBlobEntraAuthMethod, AzureBlobEntraIdConfig};
use super::identity::{
    ask_client_secret, ask_developer_tools, ask_managed_identity, ask_workload_identity,
    ClientSecretSource, ManagedIdentitySource,
};

verus! {

/// A credential that tokens can be asked of.
pub enum CredentialSource {
    ClientSecret(ClientSecretSource),
    WorkloadIdentity(Arc<azure_identity::WorkloadIdentityCredential>),
    ManagedIdentity(ManagedIdentitySource),
    DeveloperTools(Arc<azure_identity::DeveloperToolsCredential>),
}

/// Credentials to ask one after the other.
pub struct AzureBlobDefaultCredentialChain {
    pub sources: Vec<CredentialSource>,
}

/// Where tokens come from.
pub enum TokenSource {
    /// One credential.
    Single(CredentialSource),
    /// The default chain of credentials.
    Chain(AzureBlobDefaultCredentialChain),
}

/// What is wrong with the settings for client secret authentication, if anything is.
pub open spec fn client_secret_complaint(entra_id: AzureBlobEntraIdConfig) -> Option<Seq<char>> {
    match (entra_id.tenant_id, entra_id.client_id, entra_id.client_secret) {
        (Some(_), Some(_), Some(_)) => None,
        (Some(_), None, Some(_)) => Some(
            "`entra_id.client_id` is required when using tenant_id and client_secret"@,
        ),
        (Some(_), _, None) => Some(
            "`entra_id.tenant_id` and `entra_id.client_secret` must be provided together"@,
        ),
        (None, _, Some(_)) => Some(
            "`entra_id.tenant_id` and `entra_id.client_secret` must be provided together"@,
        ),
        (None, _, None) => Some(
            "`entra_id.tenant_id`, `entra_id.client_id`, and `entra_id.client_secret` are required for client_secret auth"@,
        ),
    }
}

/// What a failure to make a credential is reported as.
pub open spec fn reported_as(
    prefix: Seq<char>,
    outcome: Result<CredentialSource, String>,
    reported: Result<CredentialSource, String>,
) -> bool {
    match (outcome, reported) {
        (Ok(made), Ok(given)) => given == made,
        (Err(e), Err(message)) => message@ == prefix + e@,
        _ => false,
    }
}

/// Whether a client secret credential is the one that the settings ask for.
pub open spec fn asked_client_secret(
    entra_id: AzureBlobEntraIdConfig,
    source: ClientSecretSource,
) -> bool {
    &&& entra_id.tenant_id matches Some(tenant_id) && source@.tenant_id == tenant_id@
    &&& entra_id.client_id matches Some(client_id) && source@.client_id == client_id@
    &&& entra_id.client_secret matches Some(secret) && source@.client_secret == secret@
    &&& super::identity::plausible_tenant(source@.tenant_id)
    &&& source@.client_id.len() > 0
    &&& source@.client_secret.len() > 0
}

/// Whether asking for a client secret credential can give `given`.
pub open spec fn client_secret_can_give(
    entra_id: AzureBlobEntraIdConfig,
    given: Result<CredentialSource, String>,
) -> bool {
    match client_secret_complaint(entra_id) {
        Some(complaint) => given matches Err(message) && message@ == complaint,
        None => exists|opened: Result<ClientSecretSource, String>|
            {
                &&& super::identity::client_secret_opened(
                    entra_id.tenant_id->0@,
                    entra_id.client_id->0@,
                    entra_id.client_secret->0,
                    opened,
                )
                &&& #[trigger] client_secret_reported(opened, given)
                &&& given matches Ok(CredentialSource::ClientSecret(source)) ==> asked_client_secret(
                    entra_id,
                    source,
                )
            },
    }
}

/// What becomes of an attempt to make a client secret credential.
pub open spec fn client_secret_reported(
    opened: Result<ClientSecretSource, String>,
    given: Result<CredentialSource, String>,
) -> bool {
    match (opened, given) {
        (Ok(credential), Ok(CredentialSource::ClientSecret(source))) => source == credential,
        (Err(e), Err(message)) => message@ == "failed to create Entra client secret credential: "@
            + e@,
        _ => false,
    }
}

/// What becomes of an attempt to make a managed identity credential.
pub open spec fn managed_identity_reported(
    opened: Result<ManagedIdentitySource, String>,
    given: Result<CredentialSource, String>,
) -> bool {
    match (opened, given) {
        (Ok(credential), Ok(CredentialSource::ManagedIdentity(source))) => source == credential,
        (Err(e), Err(message)) => message@ == "failed to create managed identity credential: "@
            + e@,
        _ => false,
    }
}

/// Whether asking for a managed identity credential can give `given`.
pub open spec fn managed_identity_can_give(
    entra_id: AzureBlobEntraIdConfig,
    given: Result<CredentialSource, String>,
) -> bool {
    exists|opened: Result<ManagedIdentitySource, String>|
        {
            &&& super::identity::managed_identity_opened(entra_id.client_id, opened)
            &&& #[trigger] managed_identity_reported(opened, given)
            &&& given matches Ok(CredentialSource::ManagedIdentity(source)) ==> source@
                == text::view_of(entra_id.client_id)
        }
}

/// Whether asking for a workload identity credential can give `given`.
pub open spec fn workload_identity_can_give(given: Result<CredentialSource, String>) -> bool {
    exists|opened: Result<Arc<azure_identity::WorkloadIdentityCredential>, String>|
        {
            &&& super::identity::workload_identity_opened(opened)
            &&& #[trigger] workload_identity_reported(opened, given)
        }
}

/// Whether asking for a developer tools credential can give `given`. It never fails.
pub open spec fn developer_tools_can_give(given: Result<CredentialSource, String>) -> bool {
    exists|opened: Result<Arc<azure_identity::DeveloperToolsCredential>, String>|
        {
            &&& super::identity::developer_tools_opened(opened)
            &&& opened is Ok
            &&& #[trigger] developer_tools_reported(opened, given)
        }
}

/// A credential that was made.
pub open spec fn made(outcome: Result<CredentialSource, String>) -> Seq<CredentialSource> {
    match outcome {
        Ok(source) => seq![source],
        Err(_) => Seq::empty(),
    }
}

/// The credentials of the default chain, in the order in which they are asked.
pub open spec fn chain_sources(
    client_secret: Result<CredentialSource, String>,
    workload_identity: Result<CredentialSource, String>,
    managed_identity: Result<CredentialSource, String>,
    developer_tools: Result<CredentialSource, String>,
) -> Seq<CredentialSource> {
    made(client_secret) + made(workload_identity) + made(managed_identity) + made(developer_tools)
}

/// Whether one credential can be given as the source of tokens.
pub open spec fn gives_single(
    outcome: Result<CredentialSource, String>,
    given: Result<TokenSource, String>,
) -> bool {
    match (outcome, given) {
        (Ok(made), Ok(TokenSource::Single(source))) => source == made,
        (Err(e), Err(message)) => message@ == e@,
        _ => false,
    }
}

/// Whether these outcomes give this source of tokens, as the default chain.
pub open spec fn gives_chain(
    client_secret: Result<CredentialSource, String>,
    workload_identity: Result<CredentialSource, String>,
    managed_identity: Result<CredentialSource, String>,
    developer_tools: Result<CredentialSource, String>,
    given: Result<TokenSource, String>,
) -> bool {
    let sources = chain_sources(
        client_secret,
        workload_identity,
        managed_identity,
        developer_tools,
    );
    match given {
        Ok(TokenSource::Chain(chain)) => chain.sources@ == sources && sources.len() > 0,
        Ok(_) => false,
        Err(message) => {
            &&& sources.len() == 0
            &&& message@
                == "failed to create any default azure credential source for `entra_id`"@
        },
    }
}

/// Whether asking for the source of tokens can give `given`.
pub open spec fn token_can_give(
    entra_id: AzureBlobEntraIdConfig,
    given: Result<TokenSource, String>,
) -> bool {
    match entra_id.auth_method {
        AzureBlobEntraAuthMethod::ClientSecret => exists|outcome: Result<CredentialSource, String>|
            client_secret_can_give(entra_id, outcome) && #[trigger] gives_single(outcome, given),
        AzureBlobEntraAuthMethod::ManagedIdentity => exists|
            outcome: Result<CredentialSource, String>,
        |
            managed_identity_can_give(entra_id, outcome) && #[trigger] gives_single(outcome, given),
        AzureBlobEntraAuthMethod::WorkloadIdentity => exists|
            outcome: Result<CredentialSource, String>,
        |
            workload_identity_can_give(outcome) && #[trigger] gives_single(outcome, given),
        AzureBlobEntraAuthMethod::DeveloperTools => exists|
            outcome: Result<CredentialSource, String>,
        |
            developer_tools_can_give(outcome) && #[trigger] gives_single(outcome, given),
        AzureBlobEntraAuthMethod::DefaultAzureCredential => exists|
            client_secret: Result<CredentialSource, String>,
            workload_identity: Result<CredentialSource, String>,
            managed_identity: Result<CredentialSource, String>,
            developer_tools: Result<CredentialSource, String>,
        |
            {
                &&& client_secret_can_give(entra_id, client_secret)
                &&& workload_identity_can_give(workload_identity)
                &&& managed_identity_can_give(entra_id, managed_identity)
                &&& developer_tools_can_give(developer_tools)
                &&& #[trigger] gives_chain(
                    client_secret,
                    workload_identity,
                    managed_identity,
                    developer_tools,
                    given,
                )
            },
    }
}

/// Puts `prefix` in front of the error of a credential that was not made.
pub fn report(prefix: &str, outcome: Result<CredentialSource, String>) -> (reported: Result<
    CredentialSource,
    String,
>)
    ensures
        reported_as(prefix@, outcome, reported),
{
    match outcome {
        Ok(source) => Ok(source),
        Err(e) => Err(text::joined(prefix, e.as_str())),
    }
}

/// What becomes of an attempt to make a workload identity credential.
pub open spec fn workload_identity_reported(
    opened: Result<Arc<azure_identity::WorkloadIdentityCredential>, String>,
    given: Result<CredentialSource, String>,
) -> bool {
    match (opened, given) {
        (Ok(credential), Ok(CredentialSource::WorkloadIdentity(source))) => source == credential,
        (Err(e), Err(message)) => message@
            == "failed to create workload identity credential: "@ + e@,
        _ => false,
    }
}

/// What becomes of an attempt to make a developer tools credential.
pub open spec fn developer_tools_reported(
    opened: Result<Arc<azure_identity::DeveloperToolsCredential>, String>,
    given: Result<CredentialSource, String>,
) -> bool {
    match (opened, given) {
        (Ok(credential), Ok(CredentialSource::DeveloperTools(source))) => source == credential,
        (Err(e), Err(message)) => message@ == "failed to create developer tools credential: "@
            + e@,
        _ => false,
    }
}

/// Takes the workload identity credential that was made, or reports why none was.
pub fn report_workload_identity(
    opened: Result<Arc<azure_identity::WorkloadIdentityCredential>, String>,
) -> (given: Result<CredentialSource, String>)
    ensures
        workload_identity_reported(opened, given),
{
    let outcome: Result<CredentialSource, String> = match opened {
        Ok(credential) => Ok(CredentialSource::WorkloadIdentity(credential)),
        Err(e) => Err(e),
    };
    report("failed to create workload identity credential: ", outcome)
}

/// Takes the developer tools credential that was made, or reports why none was.
pub fn report_developer_tools(
    opened: Result<Arc<azure_identity::DeveloperToolsCredential>, String>,
) -> (given: Result<CredentialSource, String>)
    ensures
        developer_tools_reported(opened, given),
{
    let outcome: Result<CredentialSource, String> = match opened {
        Ok(credential) => Ok(CredentialSource::DeveloperTools(credential)),
        Err(e) => Err(e),
    };
    report("failed to create developer tools credential: ", outcome)
}

/// Makes the default chain of the credentials that could be made.
pub fn default_chain(
    client_secret: Result<CredentialSource, String>,
    workload_identity: Result<CredentialSource, String>,
    managed_identity: Result<CredentialSource, String>,
    developer_tools: Result<CredentialSource, String>,
) -> (given: Result<TokenSource, String>)
    ensures
        gives_chain(client_secret, workload_identity, managed_identity, developer_tools, given),
{
    let mut sources: Vec<CredentialSource> = Vec::new();
    if let Ok(source) = client_secret {
        sources.push(source);
    }
    assert(sources@ =~= made(client_secret));
    if let Ok(source) = workload_identity {
        sources.push(source);
    }
    assert(sources@ =~= made(client_secret) + made(workload_identity));
    if let Ok(source) = managed_identity {
        sources.push(source);
    }
    assert(sources@ =~= made(client_secret) + made(workload_identity) + made(managed_identity));
    if let Ok(source) = developer_tools {
        sources.push(source);
    }
    assert(sources@ =~= chain_sources(
        client_secret,
        workload_identity,
        managed_identity,
        developer_tools,
    ));
    if sources.len() == 0 {
        return Err(
            "failed to create any default azure credential source for `entra_id`".to_owned(),
        );
    }
    Ok(TokenSource::Chain(AzureBlobDefaultCredentialChain { sources }))
}

fn single(outcome: Result<CredentialSource, String>) -> (given: Result<TokenSource, String>)
    ensures
        gives_single(outcome, given),
{
    match outcome {
        Ok(source) => Ok(TokenSource::Single(source)),
        Err(e) => Err(e),
    }
}

impl AzureBlobAuthConfig {
    /// Makes the credential of the configured service principal.
    pub fn client_secret_credential(entra_id: &AzureBlobEntraIdConfig) -> (given: Result<
        CredentialSource,
        String,
    >)
        ensures
            client_secret_can_give(*entra_id, given),
    {
        match (&entra_id.tenant_id, &entra_id.client_id, &entra_id.client_secret) {
            (Some(tenant_id), Some(client_id), Some(client_secret)) => {
                let opened: Result<ClientSecretSource, String> = ask_client_secret(
                    tenant_id.as_str(),
                    client_id.as_str(),
                    client_secret,
                );
                let ghost made = opened;
                let outcome: Result<CredentialSource, String> = match opened {
                    Ok(source) => Ok(CredentialSource::ClientSecret(source)),
                    Err(e) => Err(e),
                };
                let given: Result<CredentialSource, String> = report(
                    "failed to create Entra client secret credential: ",
                    outcome,
                );
                assert(client_secret_reported(made, given));
                given
            },
            (Some(_), None, Some(_)) => Err(
                "`entra_id.client_id` is required when using tenant_id and client_secret".to_owned(),
            ),
            (Some(_), _, None) | (None, _, Some(_)) => Err(
                "`entra_id.tenant_id` and `entra_id.client_secret` must be provided together".to_owned(),
            ),
            _ => Err(
                "`entra_id.tenant_id`, `entra_id.client_id`, and `entra_id.client_secret` are required for client_secret auth".to_owned(),
            ),
        }
    }

    /// Makes the credential of the managed identity.
    pub fn managed_identity_credential(entra_id: &AzureBlobEntraIdConfig) -> (given: Result<
        CredentialSource,
        String,
    >)
        ensures
            managed_identity_can_give(*entra_id, given),
    {
        let opened: Result<ManagedIdentitySource, String> = ask_managed_identity(
            &entra_id.client_id,
        );
        let ghost made = opened;
        let outcome: Result<CredentialSource, String> = match opened {
            Ok(source) => Ok(CredentialSource::ManagedIdentity(source)),
            Err(e) => Err(e),
        };
        let given: Result<CredentialSource, String> = report(
            "failed to create managed identity credential: ",
            outcome,
        );
        assert(managed_identity_reported(made, given));
        given
    }

    fn workload_identity_credential() -> (given: Result<CredentialSource, String>)
        ensures
            workload_identity_can_give(given),
    {
        let opened: Result<
            Arc<azure_identity::WorkloadIdentityCredential>,
            String,
        > = ask_workload_identity();
        report_workload_identity(opened)
    }

    fn developer_tools_credential() -> (given: Result<CredentialSource, String>)
        ensures
            developer_tools_can_give(given),
    {
        let opened: Result<
            Arc<azure_identity::DeveloperToolsCredential>,
            String,
        > = ask_developer_tools();
        report_developer_tools(opened)
    }

    /// Makes the source of tokens that the Entra ID settings ask for.
    pub fn token_credential(&self) -> (given: Result<TokenSource, String>)
        ensures
            match self.entra_id {
                Some(entra_id) => token_can_give(entra_id, given),
                None => given matches Err(message) && message@
                    == "missing `entra_id` configuration"@,
            },
    {
        let entra_id: &AzureBlobEntraIdConfig = match &self.entra_id {
            Some(entra_id) => entra_id,
            None => {
                return Err("missing `entra_id` configuration".to_owned());
            },
        };
        match entra_id.auth_method {
            AzureBlobEntraAuthMethod::ClientSecret => single(
                AzureBlobAuthConfig::client_secret_credential(entra_id),
            ),
            AzureBlobEntraAuthMethod::ManagedIdentity => single(
                AzureBlobAuthConfig::managed_identity_credential(entra_id),
            ),
            AzureBlobEntraAuthMethod::WorkloadIdentity => single(
                AzureBlobAuthConfig::workload_identity_credential(),
            ),
            AzureBlobEntraAuthMethod::DeveloperTools => single(
                AzureBlobAuthConfig::developer_tools_credential(),
            ),
            AzureBlobEntraAuthMethod::DefaultAzureCredential => default_chain(
                AzureBlobAuthConfig::client_secret_credential(entra_id),
                AzureBlobAuthConfig::workload_identity_credential(),
                AzureBlobAuthConfig::managed_identity_credential(entra_id),
                AzureBlobAuthConfig::developer_tools_credential(),
            ),
        }
    }
}

/// The default chain asks the client secret, the workload identity, the managed identity and the
/// developer tools in this order, as far as they could be made.
pub proof fn default_chain_order(
    client_secret: Result<CredentialSource, String>,
    workload_identity: Result<CredentialSource, String>,
    managed_identity: Result<CredentialSource, String>,
    developer_tools: Result<CredentialSource, String>,
    chain: AzureBlobDefaultCredentialChain,
    i: int,
    j: int,
)
    requires
        client_secret matches Ok(source) ==> source is ClientSecret,
        workload_identity matches Ok(source) ==> source is WorkloadIdentity,
        managed_identity matches Ok(source) ==> source is ManagedIdentity,
        developer_tools matches Ok(source) ==> source is DeveloperTools,
        gives_chain(
            client_secret,
            workload_identity,
            managed_identity,
            developer_tools,
            Ok(TokenSource::Chain(chain)),
        ),
        0 <= i < j < chain.sources@.len(),
    ensures
        rank(chain.sources@[i]) < rank(chain.sources@[j]),
{
}

/// The place of a credential in the default chain.
pub open spec fn rank(source: CredentialSource) -> int {
    match source {
        CredentialSource::ClientSecret(_) => 0,
        CredentialSource::WorkloadIdentity(_) => 1,
        CredentialSource::ManagedIdentity(_) => 2,
        CredentialSource::DeveloperTools(_) => 3,
    }
}

/// With the default chain there is always a credential to ask, the developer tools last.
pub proof fn default_chain_is_never_empty(
    entra_id: AzureBlobEntraIdConfig,
    given: Result<TokenSource, String>,
)
    requires
        entra_id.auth_method == AzureBlobEntraAuthMethod::DefaultAzureCredential,
        token_can_give(entra_id, given),
    ensures
        given matches Ok(TokenSource::Chain(chain)) && chain.sources@.len() > 0
            && chain.sources@.last() is DeveloperTools,
{
}

/// Settings that lack one of tenant ID, client ID and secret give no client secret credential,
/// whatever the machine is like.
pub proof fn incomplete_client_secret_is_refused(
    entra_id: AzureBlobEntraIdConfig,
    given: Result<TokenSource, String>,
)
    requires
        entra_id.auth_method == AzureBlobEntraAuthMethod::ClientSecret,
        entra_id.tenant_id is None || entra_id.client_id is None || entra_id.client_secret is None,
        token_can_give(entra_id, given),
    ensures
        given matches Err(message) && Some(message@) == client_secret_complaint(entra_id),
{
}

/// One where a credential could be made, and else none.
pub open spec fn how_many(outcome: Result<CredentialSource, String>) -> int {
    if outcome is Ok {
        1
    } else {
        0
    }
}

/// Every credential that could be made is in the default chain, at the place after those that come
/// before it and could be made, and nothing else is in it. Where none could be made, there is no
/// chain.
pub proof fn default_chain_has_all_that_could_be_made(
    client_secret: Result<CredentialSource, String>,
    workload_identity: Result<CredentialSource, String>,
    managed_identity: Result<CredentialSource, String>,
    developer_tools: Result<CredentialSource, String>,
    given: Result<TokenSource, String>,
)
    requires
        gives_chain(client_secret, workload_identity, managed_identity, developer_tools, given),
    ensures
        ({
            let before_workload = how_many(client_secret);
            let before_managed = before_workload + how_many(workload_identity);
            let before_tools = before_managed + how_many(managed_identity);
            let all = before_tools + how_many(developer_tools);
            match given {
                Ok(TokenSource::Chain(chain)) => {
                    &&& chain.sources@.len() == all
                    &&& all > 0
                    &&& client_secret matches Ok(source) ==> chain.sources@[0] == source
                    &&& workload_identity matches Ok(source)
                        ==> chain.sources@[before_workload] == source
                    &&& managed_identity matches Ok(source)
                        ==> chain.sources@[before_managed] == source
                    &&& developer_tools matches Ok(source) ==> chain.sources@[before_tools]
                        == source
                },
                Ok(TokenSource::Single(_)) => false,
                Err(message) => {
                    &&& all == 0
                    &&& message@
                        == "failed to create any default azure credential source for `entra_id`"@
                },
            }
        }),
{
}

/// What is wrong with client secret settings depends on just which of the three are there: nothing
/// where all are, and else what is said for those that are missing.
pub proof fn complaints_name_what_is_missing(entra_id: AzureBlobEntraIdConfig)
    ensures
        ({
            let tenant = entra_id.tenant_id is Some;
            let client = entra_id.client_id is Some;
            let secret = entra_id.client_secret is Some;
            let complaint = client_secret_complaint(entra_id);
            &&& complaint is None <==> tenant && client && secret
            &&& tenant && secret && !client ==> complaint == Some(
                "`entra_id.client_id` is required when using tenant_id and client_secret"@,
            )
            &&& tenant != secret ==> complaint == Some(
                "`entra_id.tenant_id` and `entra_id.client_secret` must be provided together"@,
            )
            &&& !tenant && !secret ==> complaint == Some(
                "`entra_id.tenant_id`, `entra_id.client_id`, and `entra_id.client_secret` are required for client_secret auth"@,
            )
        }),
{
}

/// A client secret credential is asked for with the tenant ID, client ID and secret of the
/// settings, where all are there, and what came back is given: the credential, made from those
/// values, or why there is none, after a fixed text. Else it is not asked for.
pub proof fn client_secrets_are_asked_for(
    entra_id: AzureBlobEntraIdConfig,
    given: Result<CredentialSource, String>,
) -> (opened: Result<ClientSecretSource, String>)
    requires
        client_secret_can_give(entra_id, given),
    ensures
        match (entra_id.tenant_id, entra_id.client_id, entra_id.client_secret) {
            (Some(tenant), Some(client), Some(secret)) => {
                &&& super::identity::client_secret_opened(tenant@, client@, secret, opened)
                &&& opened is Ok <==> given is Ok
                &&& opened matches Ok(source) ==> {
                    &&& given == Ok::<CredentialSource, String>(
                        CredentialSource::ClientSecret(source),
                    )
                    &&& source@.tenant_id == tenant@
                    &&& source@.client_id == client@
                    &&& source@.client_secret == secret@
                }
                &&& opened matches Err(e) ==> given->Err_0@
                    == "failed to create Entra client secret credential: "@ + e@
            },
            _ => given is Err,
        },
{
    choose|opened: Result<ClientSecretSource, String>|
        {
            &&& super::identity::client_secret_opened(
                entra_id.tenant_id->0@,
                entra_id.client_id->0@,
                entra_id.client_secret->0,
                opened,
            )
            &&& #[trigger] client_secret_reported(opened, given)
            &&& given matches Ok(CredentialSource::ClientSecret(source)) ==> asked_client_secret(
                entra_id,
                source,
            )
        }
}

/// A managed identity's credential is asked for with the client ID of the settings, and what came
/// back is given: the credential for that identity, or why there is none, after a fixed text.
pub proof fn managed_identities_are_asked_for(
    entra_id: AzureBlobEntraIdConfig,
    given: Result<CredentialSource, String>,
) -> (opened: Result<ManagedIdentitySource, String>)
    requires
        managed_identity_can_give(entra_id, given),
    ensures
        super::identity::managed_identity_opened(entra_id.client_id, opened),
        opened is Ok <==> given is Ok,
        opened matches Ok(source) ==> given == Ok::<CredentialSource, String>(
            CredentialSource::ManagedIdentity(source),
        ),
        opened matches Ok(source) ==> (entra_id.client_id is None ==> source@ is None),
        opened matches Ok(source) ==> (entra_id.client_id matches Some(id) ==> source@ == Some(id@)),
        opened matches Err(e) ==> given->Err_0@ == "failed to create managed identity credential: "@
            + e@,
{
    choose|opened: Result<ManagedIdentitySource, String>|
        {
            &&& super::identity::managed_identity_opened(entra_id.client_id, opened)
            &&& #[trigger] managed_identity_reported(opened, given)
            &&& given matches Ok(CredentialSource::ManagedIdentity(source)) ==> source@
                == text::view_of(entra_id.client_id)
        }
}

/// A workload identity's credential is asked for, and what came back is given: the credential, or
/// why there is none, after a fixed text.
pub proof fn workload_identities_are_asked_for(given: Result<CredentialSource, String>) -> (opened:
    Result<Arc<azure_identity::WorkloadIdentityCredential>, String>)
    requires
        workload_identity_can_give(given),
    ensures
        super::identity::workload_identity_opened(opened),
        opened is Ok <==> given is Ok,
        opened matches Ok(source) ==> given == Ok::<CredentialSource, String>(
            CredentialSource::WorkloadIdentity(source),
        ),
        opened matches Err(e) ==> given->Err_0@
            == "failed to create workload identity credential: "@ + e@,
{
    choose|opened: Result<Arc<azure_identity::WorkloadIdentityCredential>, String>|
        {
            &&& super::identity::workload_identity_opened(opened)
            &&& #[trigger] workload_identity_reported(opened, given)
        }
}

/// A credential of developer tools is asked for, and is given.
pub proof fn developer_tools_are_asked_for(given: Result<CredentialSource, String>) -> (opened:
    Result<Arc<azure_identity::DeveloperToolsCredential>, String>)
    requires
        developer_tools_can_give(given),
    ensures
        super::identity::developer_tools_opened(opened),
        opened matches Ok(source) && given == Ok::<CredentialSource, String>(
            CredentialSource::DeveloperTools(source),
        ),
{
    choose|opened: Result<Arc<azure_identity::DeveloperToolsCredential>, String>|
        {
            &&& super::identity::developer_tools_opened(opened)
            &&& opened is Ok
            &&& #[trigger] developer_tools_reported(opened, given)
        }
}

proof fn lemma_prefix(prefix: Seq<char>, rest: Seq<char>)
    ensures
        prefix.is_prefix_of(prefix + rest),
{
    assert(prefix =~= (prefix + rest).subrange(0, prefix.len() as int));
}

/// Every failure to make a credential says in its first words which credential could not be made,
/// where it was asked for.
pub proof fn failures_say_what_failed(
    entra_id: AzureBlobEntraIdConfig,
    given: Result<CredentialSource, String>,
    message: String,
)
    requires
        given == Err::<CredentialSource, String>(message),
    ensures
        client_secret_can_give(entra_id, given) && client_secret_complaint(entra_id) is None
            ==> "failed to create Entra client secret credential: "@.is_prefix_of(message@),
        managed_identity_can_give(entra_id, given)
            ==> "failed to create managed identity credential: "@.is_prefix_of(message@),
        workload_identity_can_give(given)
            ==> "failed to create workload identity credential: "@.is_prefix_of(message@),
        !developer_tools_can_give(given),
{
    if client_secret_can_give(entra_id, given) && client_secret_complaint(entra_id) is None {
        let opened = client_secrets_are_asked_for(entra_id, given);
        lemma_prefix("failed to create Entra client secret credential: "@, opened->Err_0@);
    }
    if managed_identity_can_give(entra_id, given) {
        let opened = managed_identities_are_asked_for(entra_id, given);
        lemma_prefix("failed to create managed identity credential: "@, opened->Err_0@);
    }
    if workload_identity_can_give(given) {
        let opened = workload_identities_are_asked_for(given);
        lemma_prefix("failed to create workload identity credential: "@, opened->Err_0@);
    }
}

/// An outcome is passed on as it is, but for what is put in front of an error.
pub proof fn outcomes_are_passed_on(
    prefix: Seq<char>,
    outcome: Result<CredentialSource, String>,
    reported: Result<CredentialSource, String>,
    given: Result<TokenSource, String>,
)
    ensures
        reported_as(prefix, outcome, reported) ==> {
            &&& outcome is Ok <==> reported is Ok
            &&& outcome is Ok ==> reported == outcome
            &&& outcome matches Err(e) ==> reported->Err_0@ == prefix + e@
        },
        gives_single(outcome, given) ==> {
            &&& outcome is Ok <==> given is Ok
            &&& outcome matches Ok(source) ==> given == Ok::<TokenSource, String>(
                TokenSource::Single(source),
            )
            &&& outcome matches Err(e) ==> given->Err_0@ == e@
        },
{
}

/// The method of the settings decides which credentials are asked for. With the default method it
/// is all four, and those that could be made are the chain; with any other it is that one, and it
/// alone is the source of tokens.
pub proof fn the_method_decides(
    entra_id: AzureBlobEntraIdConfig,
    given: Result<TokenSource, String>,
) -> (outcomes: (
    Result<CredentialSource, String>,
    Result<CredentialSource, String>,
    Result<CredentialSource, String>,
    Result<CredentialSource, String>,
))
    requires
        token_can_give(entra_id, given),
    ensures
        entra_id.auth_method is ClientSecret ==> client_secret_can_give(entra_id, outcomes.0)
            && gives_single(outcomes.0, given),
        entra_id.auth_method is WorkloadIdentity ==> workload_identity_can_give(outcomes.1)
            && gives_single(outcomes.1, given),
        entra_id.auth_method is ManagedIdentity ==> managed_identity_can_give(
            entra_id,
            outcomes.2,
        ) && gives_single(outcomes.2, given),
        entra_id.auth_method is DeveloperTools ==> developer_tools_can_give(outcomes.3)
            && gives_single(outcomes.3, given),
        entra_id.auth_method is DefaultAzureCredential ==> {
            &&& client_secret_can_give(entra_id, outcomes.0)
            &&& workload_identity_can_give(outcomes.1)
            &&& managed_identity_can_give(entra_id, outcomes.2)
            &&& developer_tools_can_give(outcomes.3)
            &&& gives_chain(outcomes.0, outcomes.1, outcomes.2, outcomes.3, given)
        },
{
    match entra_id.auth_method {
        AzureBlobEntraAuthMethod::ClientSecret => {
            let outcome = choose|outcome: Result<CredentialSource, String>|
                client_secret_can_give(entra_id, outcome) && #[trigger] gives_single(
                    outcome,
                    given,
                );
            (outcome, outcome, outcome, outcome)
        },
        AzureBlobEntraAuthMethod::ManagedIdentity => {
            let outcome = choose|outcome: Result<CredentialSource, String>|
                managed_identity_can_give(entra_id, outcome) && #[trigger] gives_single(
                    outcome,
                    given,
                );
            (outcome, outcome, outcome, outcome)
        },
        AzureBlobEntraAuthMethod::WorkloadIdentity => {
            let outcome = choose|outcome: Result<CredentialSource, String>|
                workload_identity_can_give(outcome) && #[trigger] gives_single(outcome, given);
            (outcome, outcome, outcome, outcome)
        },
        AzureBlobEntraAuthMethod::DeveloperTools => {
            let outcome = choose|outcome: Result<CredentialSource, String>|
                developer_tools_can_give(outcome) && #[trigger] gives_single(outcome, given);
            (outcome, outcome, outcome, outcome)
        },
        AzureBlobEntraAuthMethod::DefaultAzureCredential => {
            choose|
                client_secret: Result<CredentialSource, String>,
                workload_identity: Result<CredentialSource, String>,
                managed_identity: Result<CredentialSource, String>,
                developer_tools: Result<CredentialSource, String>,
            |
                {
                    &&& client_secret_can_give(entra_id, client_secret)
                    &&& workload_identity_can_give(workload_identity)
                    &&& managed_identity_can_give(entra_id, managed_identity)
                    &&& developer_tools_can_give(developer_tools)
                    &&& #[trigger] gives_chain(
                        client_secret,
                        workload_identity,
                        managed_identity,
                        developer_tools,
                        given,
                    )
                }
        },
    }
}

/// Without an identity to sign in with there is no credential, and the message says so.
pub proof fn missing_identities_are_refused(
    auth: AzureBlobAuthConfig,
    given: Result<TokenSource, String>,
)
    requires
        call_ensures(AzureBlobAuthConfig::token_credential, (&auth,), given),
    ensures
        auth.entra_id is None ==> given is Err && given->Err_0@
            == "missing `entra_id` configuration"@,
        auth.entra_id matches Some(entra_id) ==> token_can_give(entra_id, given),
{
}

/// A chain that was given holds each credential that could be made and no more, in the order of
/// the client secret, the workload identity, the managed identity and the developer tools.
pub proof fn given_chains_are_whole(
    client_secret: Result<CredentialSource, String>,
    workload_identity: Result<CredentialSource, String>,
    managed_identity: Result<CredentialSource, String>,
    developer_tools: Result<CredentialSource, String>,
    given: Result<TokenSource, String>,
)
    requires
        call_ensures(
            default_chain,
            (client_secret, workload_identity, managed_identity, developer_tools),
            given,
        ),
    ensures
        ({
            let before_workload = how_many(client_secret);
            let before_managed = before_workload + how_many(workload_identity);
            let before_tools = before_managed + how_many(managed_identity);
            let all = before_tools + how_many(developer_tools);
            &&& given is Ok <==> all > 0
            &&& given matches Ok(source) ==> source is Chain && source->Chain_0.sources@.len()
                == all
            &&& client_secret matches Ok(source) ==> given->Ok_0->Chain_0.sources@[0] == source
            &&& workload_identity matches Ok(source)
                ==> given->Ok_0->Chain_0.sources@[before_workload] == source
            &&& managed_identity matches Ok(source)
                ==> given->Ok_0->Chain_0.sources@[before_managed] == source
            &&& developer_tools matches Ok(source)
                ==> given->Ok_0->Chain_0.sources@[before_tools] == source
        }),
{
    default_chain_has_all_that_could_be_made(
        client_secret,
        workload_identity,
        managed_identity,
        developer_tools,
        given,
    );
}

}
