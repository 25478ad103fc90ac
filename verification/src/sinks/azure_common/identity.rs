//! The single credentials for Microsoft Entra ID.

use std::sync::Arc;

use vstd::prelude::*;

use super::config::SensitiveString;

verus! {

/// A service principal's credential. It is only carried.
#[verifier::external_type_specification]
#[verifier::external_body]
pub struct ExClientSecretCredential(azure_identity::ClientSecretCredential);

/// A managed identity's credential. It is only carried.
#[verifier::external_type_specification]
#[verifier::external_body]
pub struct ExManagedIdentityCredential(azure_identity::ManagedIdentityCredential);

/// A workload identity's credential. It is only carried.
#[verifier::external_type_specification]
#[verifier::external_body]
pub struct ExWorkloadIdentityCredential(azure_identity::WorkloadIdentityCredential);

/// A credential of developer tools. It is only carried.
#[verifier::external_type_specification]
#[verifier::external_body]
pub struct ExDeveloperToolsCredential(azure_identity::DeveloperToolsCredential);

/// A service principal's credential, and what it was made from.
pub struct ClientSecretSource {
    tenant_id: String,
    client_id: String,
    client_secret: SensitiveString,
    credential: Arc<azure_identity::ClientSecretCredential>,
}

/// What a service principal's credential was made from, as contracts speak of it.
pub struct ClientSecretView {
    pub tenant_id: Seq<char>,
    pub client_id: Seq<char>,
    pub client_secret: Seq<char>,
}

impl View for ClientSecretSource {
    type V = ClientSecretView;

    closed spec fn view(&self) -> ClientSecretView {
        ClientSecretView {
            tenant_id: self.tenant_id@,
            client_id: self.client_id@,
            client_secret: self.client_secret@,
        }
    }
}

impl ClientSecretSource {
    /// The tenant ID.
    pub fn tenant_id(&self) -> (tenant_id: &str)
        ensures
            tenant_id@ == self@.tenant_id,
    {
        self.tenant_id.as_str()
    }

    /// The client ID.
    pub fn client_id(&self) -> (client_id: &str)
        ensures
            client_id@ == self@.client_id,
    {
        self.client_id.as_str()
    }

    /// The secret.
    pub fn client_secret(&self) -> (client_secret: &SensitiveString)
        ensures
            client_secret@ == self@.client_secret,
    {
        &self.client_secret
    }

    /// The credential itself, as contracts speak of it.
    pub closed spec fn spec_credential(self) -> Arc<azure_identity::ClientSecretCredential> {
        self.credential
    }

    /// The credential itself.
    pub fn into_credential(self) -> (credential: Arc<azure_identity::ClientSecretCredential>)
        ensures
            credential == self.spec_credential(),
    {
        self.credential
    }
}

/// A managed identity's credential, and which identity it is for: the user-assigned one with
/// this client ID, or else the system-assigned one.
pub struct ManagedIdentitySource {
    client_id: Option<String>,
    credential: Arc<azure_identity::ManagedIdentityCredential>,
}

impl View for ManagedIdentitySource {
    type V = Option<Seq<char>>;

    closed spec fn view(&self) -> Option<Seq<char>> {
        crate::text::view_of(self.client_id)
    }
}

impl ManagedIdentitySource {
    /// The client ID of a user-assigned identity.
    pub fn client_id(&self) -> (client_id: &Option<String>)
        ensures
            crate::text::view_of(*client_id) == self@,
    {
        &self.client_id
    }

    /// The credential itself, as contracts speak of it.
    pub closed spec fn spec_credential(self) -> Arc<azure_identity::ManagedIdentityCredential> {
        self.credential
    }

    /// The credential itself.
    pub fn into_credential(self) -> (credential: Arc<azure_identity::ManagedIdentityCredential>)
        ensures
            credential == self.spec_credential(),
    {
        self.credential
    }
}

/// A text that can be a tenant ID: some characters, and no ASCII ones but letters, digits, dots
/// and hyphens.
pub open spec fn plausible_tenant(tenant_id: Seq<char>) -> bool {
    &&& tenant_id.len() > 0
    &&& forall|i: int|
        0 <= i < tenant_id.len() ==> {
            ||| 'a' <= #[trigger] tenant_id[i] <= 'z'
            ||| 'A' <= tenant_id[i] <= 'Z'
            ||| '0' <= tenant_id[i] <= '9'
            ||| tenant_id[i] == '.'
            ||| tenant_id[i] == '-'
            ||| tenant_id[i] as u32 >= 128
        }
}

/// `azure_identity::ClientSecretCredential::new`, with its default options. A credential is made
/// for exactly the values that are handed in, and only where the tenant ID can be one and the
/// client ID and the secret are not empty. Whether it is made then rests on the environment,
/// which may name an authority host, and nothing is claimed of the text of an error. It panics on
/// a machine where no HTTP client can be made, which no argument decides.
#[verifier::external_body]
pub(crate) fn open_client_secret(tenant_id: &str, client_id: &str, client_secret: &SensitiveString) -> (opened:
    Result<ClientSecretSource, String>)
    ensures
        opened matches Ok(source) ==> {
            &&& source@.tenant_id == tenant_id@
            &&& source@.client_id == client_id@
            &&& source@.client_secret == client_secret@
            &&& plausible_tenant(tenant_id@)
            &&& client_id@.len() > 0
            &&& client_secret@.len() > 0
        },
{
    let secret = azure_core::credentials::Secret::new(client_secret.inner().to_owned());
    azure_identity::ClientSecretCredential::new(tenant_id, client_id.to_owned(), secret, None)
        .map(|credential| ClientSecretSource {
            tenant_id: tenant_id.to_owned(),
            client_id: client_id.to_owned(),
            client_secret: client_secret.clone(),
            credential,
        })
        .map_err(|e| e.to_string())
}

/// `azure_identity::ManagedIdentityCredential::new`, for the user-assigned identity with the
/// client ID or else for the system-assigned one. Whether a credential is made rests on the
/// environment, and nothing is claimed of the text of an error. It panics on a machine where no
/// HTTP client can be made, which no argument decides.
#[verifier::external_body]
pub(crate) fn open_managed_identity(client_id: &Option<String>) -> (opened: Result<
    ManagedIdentitySource,
    String,
>)
    ensures
        opened matches Ok(source) ==> source@ == crate::text::view_of(*client_id),
{
    let options = client_id.clone().map(|id| azure_identity::ManagedIdentityCredentialOptions {
        user_assigned_id: Some(azure_identity::UserAssignedId::ClientId(id)),
        ..Default::default()
    });
    azure_identity::ManagedIdentityCredential::new(options)
        .map(|credential| ManagedIdentitySource { client_id: client_id.clone(), credential })
        .map_err(|e| e.to_string())
}

/// `azure_identity::WorkloadIdentityCredential::new`, with its default options. What comes back
/// rests on the environment and on a file that it names, so nothing is claimed of it. It panics on
/// a machine where no HTTP client can be made.
#[verifier::external_body]
pub(crate) fn open_workload_identity() -> (opened: Result<
    Arc<azure_identity::WorkloadIdentityCredential>,
    String,
>) {
    azure_identity::WorkloadIdentityCredential::new(None).map_err(|e| e.to_string())
}

/// `azure_identity::DeveloperToolsCredential::new`, with its default options. These name no
/// tenant and no subscription that could be refused, so a credential is always made.
#[verifier::external_body]
pub(crate) fn open_developer_tools() -> (opened: Result<
    Arc<azure_identity::DeveloperToolsCredential>,
    String,
>)
    ensures
        opened is Ok,
{
    azure_identity::DeveloperToolsCredential::new(None).map_err(|e| e.to_string())
}

/// Whether `opened` is what came back when a service principal's credential was asked for with
/// these values.
pub closed spec fn client_secret_opened(
    tenant_id: Seq<char>,
    client_id: Seq<char>,
    client_secret: SensitiveString,
    opened: Result<ClientSecretSource, String>,
) -> bool {
    exists|tenant: &str, client: &str|
        {
            &&& tenant@ == tenant_id
            &&& client@ == client_id
            &&& #[trigger] call_ensures(
                open_client_secret,
                (tenant, client, &client_secret),
                opened,
            )
        }
}

/// Whether `opened` is what came back when a managed identity's credential was asked for with this
/// client ID.
pub closed spec fn managed_identity_opened(
    client_id: Option<String>,
    opened: Result<ManagedIdentitySource, String>,
) -> bool {
    call_ensures(open_managed_identity, (&client_id,), opened)
}

/// Whether `opened` is what came back when a workload identity's credential was asked for.
pub closed spec fn workload_identity_opened(
    opened: Result<Arc<azure_identity::WorkloadIdentityCredential>, String>,
) -> bool {
    call_ensures(open_workload_identity, (), opened)
}

/// Whether `opened` is what came back when a credential of developer tools was asked for.
pub closed spec fn developer_tools_opened(
    opened: Result<Arc<azure_identity::DeveloperToolsCredential>, String>,
) -> bool {
    call_ensures(open_developer_tools, (), opened)
}

/// Asks for a service principal's credential.
pub(crate) fn ask_client_secret(
    tenant_id: &str,
    client_id: &str,
    client_secret: &SensitiveString,
) -> (opened: Result<ClientSecretSource, String>)
    ensures
        client_secret_opened(tenant_id@, client_id@, *client_secret, opened),
        opened matches Ok(source) ==> {
            &&& source@.tenant_id == tenant_id@
            &&& source@.client_id == client_id@
            &&& source@.client_secret == client_secret@
            &&& plausible_tenant(tenant_id@)
            &&& client_id@.len() > 0
            &&& client_secret@.len() > 0
        },
{
    open_client_secret(tenant_id, client_id, client_secret)
}

/// Asks for a managed identity's credential.
pub(crate) fn ask_managed_identity(client_id: &Option<String>) -> (opened: Result<
    ManagedIdentitySource,
    String,
>)
    ensures
        managed_identity_opened(*client_id, opened),
        opened matches Ok(source) ==> source@ == crate::text::view_of(*client_id),
{
    open_managed_identity(client_id)
}

/// Asks for a workload identity's credential.
pub(crate) fn ask_workload_identity() -> (opened: Result<
    Arc<azure_identity::WorkloadIdentityCredential>,
    String,
>)
    ensures
        workload_identity_opened(opened),
{
    open_workload_identity()
}

/// Asks for a credential of developer tools.
pub(crate) fn ask_developer_tools() -> (opened: Result<
    Arc<azure_identity::DeveloperToolsCredential>,
    String,
>)
    ensures
        developer_tools_opened(opened),
        opened is Ok,
{
    open_developer_tools()
}

/// A text can be a tenant ID exactly where it is not empty and no ASCII character in it is other
/// than a letter, a digit, a dot or a hyphen.
pub proof fn plausible_tenants(tenant_id: Seq<char>)
    ensures
        plausible_tenant(tenant_id) <==> tenant_id.len() > 0 && forall|c: char| #[trigger]
            tenant_id.contains(c) && (c as u32) < 128 ==> ('a' <= c <= 'z' || 'A' <= c <= 'Z' || '0'
                <= c <= '9' || c == '.' || c == '-'),
{
    if tenant_id.len() > 0 && forall|c: char| #[trigger]
        tenant_id.contains(c) && (c as u32) < 128 ==> ('a' <= c <= 'z' || 'A' <= c <= 'Z' || '0'
            <= c <= '9' || c == '.' || c == '-') {
        assert forall|i: int| 0 <= i < tenant_id.len() implies {
            ||| 'a' <= #[trigger] tenant_id[i] <= 'z'
            ||| 'A' <= tenant_id[i] <= 'Z'
            ||| '0' <= tenant_id[i] <= '9'
            ||| tenant_id[i] == '.'
            ||| tenant_id[i] == '-'
            ||| tenant_id[i] as u32 >= 128
        } by {
            assert(tenant_id.contains(tenant_id[i]));
        }
    }
}

/// What a credential was made from is seen in full.
proof fn lemma_views_are_whole(secret: ClientSecretSource, managed: ManagedIdentitySource)
    ensures
        secret@.tenant_id == secret.tenant_id@,
        secret@.client_id == secret.client_id@,
        secret@.client_secret == secret.client_secret@,
        managed.client_id is None <==> managed@ is None,
        managed.client_id matches Some(id) ==> managed@ == Some(id@),
        secret.spec_credential() == secret.credential,
        managed.spec_credential() == managed.credential,
{
}

}
