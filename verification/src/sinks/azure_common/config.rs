//! Settings of Azure Blob Storage sinks.

use vstd::prelude::*;

use crate::text;

verus! {

/// A text that must not be shown.
pub struct SensitiveString {
    inner: String,
}

impl View for SensitiveString {
    type V = Seq<char>;

    closed spec fn view(&self) -> Seq<char> {
        self.inner@
    }
}

impl SensitiveString {
    /// Wraps a text.
    pub fn new(inner: String) -> (wrapped: SensitiveString)
        ensures
            wrapped@ == inner@,
    {
        SensitiveString { inner }
    }

    /// The text itself.
    pub fn inner(&self) -> (text: &str)
        ensures
            text@ == self@,
    {
        self.inner.as_str()
    }
}

impl Clone for SensitiveString {
    fn clone(&self) -> (copy: SensitiveString)
        ensures
            copy@ == self@,
    {
        SensitiveString { inner: self.inner.clone() }
    }
}

/// Authentication settings for Azure Blob Storage sinks.
pub struct AzureBlobAuthConfig {
    /// The Azure Blob Storage Account connection string.
    ///
    /// Authentication with an access key or shared access signature (SAS)
    /// are supported authentication methods. If using a non-account SAS,
    /// healthchecks will fail and will need to be disabled by setting
    /// `healthcheck.enabled` to `false` for this sink.
    ///
    /// When generating an account SAS, the following are the minimum required option
    /// settings for Vector to access blob storage and pass a health check.
    /// | Option                 | Value              |
    /// | ---------------------- | ------------------ |
    /// | Allowed services       | Blob               |
    /// | Allowed resource types | Container & Object |
    /// | Allowed permissions    | Read & Create      |
    pub connection_string: SensitiveString,
    /// Use Microsoft Entra ID authentication for Blob Storage.
    ///
    /// When configured, Vector obtains a bearer token with the credential method that
    /// [`AzureBlobEntraIdConfig::auth_method`] names.
    pub entra_id: Option<AzureBlobEntraIdConfig>,
}

/// Microsoft Entra ID authentication options for Azure Blob Storage.
pub struct AzureBlobEntraIdConfig {
    /// The Blob service endpoint URL, e.g. `https://myaccount.blob.core.windows.net`.
    pub endpoint: String,
    /// The Entra tenant ID for service principal authentication.
    ///
    /// Must be provided together with `client_secret`.
    pub tenant_id: Option<String>,
    /// The Entra application (client) ID.
    ///
    /// For managed identity auth this is optional and selects a user-assigned identity.
    pub client_id: Option<String>,
    /// The Entra client secret for service principal authentication.
    ///
    /// Must be provided together with `tenant_id`.
    pub client_secret: Option<SensitiveString>,
    /// The Entra credential method to use.
    pub auth_method: AzureBlobEntraAuthMethod,
}

/// The view of an optional text that must not be shown.
pub open spec fn secret_view(secret: Option<SensitiveString>) -> Option<Seq<char>> {
    match secret {
        Some(secret) => Some(secret@),
        None => None,
    }
}

/// Whether two Entra ID settings say the same.
pub open spec fn same_entra(first: AzureBlobEntraIdConfig, second: AzureBlobEntraIdConfig) -> bool {
    &&& first.endpoint@ == second.endpoint@
    &&& text::view_of(first.tenant_id) == text::view_of(second.tenant_id)
    &&& text::view_of(first.client_id) == text::view_of(second.client_id)
    &&& secret_view(first.client_secret) == secret_view(second.client_secret)
    &&& first.auth_method == second.auth_method
}

impl Clone for AzureBlobEntraIdConfig {
    fn clone(&self) -> (copy: AzureBlobEntraIdConfig)
        ensures
            same_entra(copy, *self),
    {
        AzureBlobEntraIdConfig {
            endpoint: self.endpoint.clone(),
            tenant_id: self.tenant_id.clone(),
            client_id: self.client_id.clone(),
            client_secret: match &self.client_secret {
                Some(secret) => Some(secret.clone()),
                None => None,
            },
            auth_method: self.auth_method,
        }
    }
}

impl Clone for AzureBlobAuthConfig {
    fn clone(&self) -> (copy: AzureBlobAuthConfig)
        ensures
            copy.connection_string@ == self.connection_string@,
            match (copy.entra_id, self.entra_id) {
                (Some(copied), Some(entra_id)) => same_entra(copied, entra_id),
                (None, None) => true,
                _ => false,
            },
    {
        AzureBlobAuthConfig {
            connection_string: self.connection_string.clone(),
            entra_id: match &self.entra_id {
                Some(entra_id) => Some(entra_id.clone()),
                None => None,
            },
        }
    }
}

/// Credential method used for Entra authentication.
#[derive(Clone, Copy, Debug, PartialEq, Eq, Structural)]
pub enum AzureBlobEntraAuthMethod {
    /// Use a default chain of credentials.
    ///
    /// Vector tries, in order:
    /// 1. configured client secret (`tenant_id`, `client_id`, `client_secret`)
    /// 2. workload identity
    /// 3. managed identity
    /// 4. developer tools (Azure CLI / Azure Developer CLI)
    DefaultAzureCredential,
    /// Use managed identity (system-assigned or user-assigned if `client_id` is set).
    ManagedIdentity,
    /// Use service principal credentials from `tenant_id`, `client_id`, and `client_secret`.
    ClientSecret,
    /// Use workload identity.
    WorkloadIdentity,
    /// Use developer tools credentials (Azure CLI / Azure Developer CLI).
    DeveloperTools,
}

impl Default for AzureBlobEntraAuthMethod {
    fn default() -> (method: AzureBlobEntraAuthMethod)
        ensures
            method == AzureBlobEntraAuthMethod::DefaultAzureCredential,
    {
        AzureBlobEntraAuthMethod::DefaultAzureCredential
    }
}

/// Entra ID settings say the same exactly where all of them do.
pub proof fn same_settings_are_the_same_throughout(
    first: AzureBlobEntraIdConfig,
    second: AzureBlobEntraIdConfig,
)
    requires
        same_entra(first, second),
    ensures
        first.endpoint@ == second.endpoint@,
        first.tenant_id is Some <==> second.tenant_id is Some,
        first.tenant_id is Some ==> first.tenant_id->0@ == second.tenant_id->0@,
        first.client_id is Some <==> second.client_id is Some,
        first.client_id is Some ==> first.client_id->0@ == second.client_id->0@,
        first.client_secret is Some <==> second.client_secret is Some,
        first.client_secret is Some ==> first.client_secret->0@ == second.client_secret->0@,
        first.auth_method == second.auth_method,
{
}

/// A text that must not be shown is seen as it is.
proof fn lemma_view_is_whole(secret: SensitiveString)
    ensures
        secret@ == secret.inner@,
{
}

}
