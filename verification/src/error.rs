//! The ways in which getting a token can fail.

use vstd::prelude::*;
use vstd::string::StringExecFns;

verus! {

/// The environment variable that names the tenant.
pub const AZURE_TENANT_ID_ENV_KEY: &'static str = "AZURE_TENANT_ID";

/// The environment variable that names the client.
pub const AZURE_CLIENT_ID_ENV_KEY: &'static str = "AZURE_CLIENT_ID";

/// The environment variable that names the file holding the federated token.
pub const AZURE_FEDERATED_TOKEN_FILE: &'static str = "AZURE_FEDERATED_TOKEN_FILE";

/// The environment variable that holds the federated token itself.
pub const AZURE_FEDERATED_TOKEN: &'static str = "AZURE_FEDERATED_TOKEN";

/// The stage of the flow at which a failure arose.
#[derive(Debug, Clone, Copy, PartialEq, Eq, Structural)]
pub enum Stage {
    /// The credential could not be set up from its configuration.
    Configuration,
    /// The file holding the federated token could not be read.
    FileRead,
    /// The exchange of the federated token for an access token failed.
    Exchange,
}

/// A failure to set up a credential or to get a token from it.
#[derive(Debug)]
pub enum CredentialError {
    /// The configuration names no tenant.
    MissingTenantId,
    /// The configuration names no client.
    MissingClientId,
    /// The configuration holds neither a federated token nor the path of a
    /// file with one.
    MissingTokenSource,
    /// The authority host is no absolute URL.
    InvalidAuthorityHost { host: String },
    /// The file with the federated token could not be read.
    TokenFileUnreadable { path: String, reason: String },
    /// The exchange for the named tenant and client failed.
    ExchangeFailed { tenant_id: String, client_id: String, reason: String },
}

/// A `CredentialError` with its texts as sequences of characters.
pub enum CredentialErrorView {
    MissingTenantId,
    MissingClientId,
    MissingTokenSource,
    InvalidAuthorityHost { host: Seq<char> },
    TokenFileUnreadable { path: Seq<char>, reason: Seq<char> },
    ExchangeFailed { tenant_id: Seq<char>, client_id: Seq<char>, reason: Seq<char> },
}

impl View for CredentialError {
    type V = CredentialErrorView;

    open spec fn view(&self) -> CredentialErrorView {
        match self {
            CredentialError::MissingTenantId => CredentialErrorView::MissingTenantId,
            CredentialError::MissingClientId => CredentialErrorView::MissingClientId,
            CredentialError::MissingTokenSource => CredentialErrorView::MissingTokenSource,
            CredentialError::InvalidAuthorityHost { host } => CredentialErrorView::InvalidAuthorityHost {
                host: host@,
            },
            CredentialError::TokenFileUnreadable {
                path,
                reason,
            } => CredentialErrorView::TokenFileUnreadable { path: path@, reason: reason@ },
            CredentialError::ExchangeFailed {
                tenant_id,
                client_id,
                reason,
            } => CredentialErrorView::ExchangeFailed {
                tenant_id: tenant_id@,
                client_id: client_id@,
                reason: reason@,
            },
        }
    }
}

impl DeepView for CredentialError {
    type V = CredentialErrorView;

    open spec fn deep_view(&self) -> CredentialErrorView {
        self@
    }
}

impl CredentialErrorView {
    /// The stage at which this failure arose.
    pub open spec fn stage(self) -> Stage {
        match self {
            CredentialErrorView::TokenFileUnreadable { .. } => Stage::FileRead,
            CredentialErrorView::ExchangeFailed { .. } => Stage::Exchange,
            _ => Stage::Configuration,
        }
    }

    /// The text that describes this failure to a reader.
    pub open spec fn message(self) -> Seq<char> {
        match self {
            CredentialErrorView::MissingTenantId => "working identity credential requires "@
                + AZURE_TENANT_ID_ENV_KEY@ + " environment variable"@,
            CredentialErrorView::MissingClientId => "working identity credential requires "@
                + AZURE_CLIENT_ID_ENV_KEY@ + " environment variable"@,
            CredentialErrorView::MissingTokenSource => "working identity credential requires "@
                + AZURE_FEDERATED_TOKEN@ + " or "@ + AZURE_FEDERATED_TOKEN_FILE@
                + " environment variables"@,
            CredentialErrorView::InvalidAuthorityHost { host } => "invalid authority host "@ + host,
            CredentialErrorView::TokenFileUnreadable {
                path,
                reason,
            } => "failed to read federated token from file "@ + path + ": "@ + reason,
            CredentialErrorView::ExchangeFailed {
                tenant_id,
                client_id,
                reason,
            } => "request token error for tenant "@ + tenant_id + " and client "@ + client_id
                + ": "@ + reason,
        }
    }
}

impl Clone for CredentialError {
    fn clone(&self) -> (copy: Self)
        ensures
            copy == *self,
    {
        match self {
            CredentialError::MissingTenantId => CredentialError::MissingTenantId,
            CredentialError::MissingClientId => CredentialError::MissingClientId,
            CredentialError::MissingTokenSource => CredentialError::MissingTokenSource,
            CredentialError::InvalidAuthorityHost { host } => CredentialError::InvalidAuthorityHost {
                host: host.clone(),
            },
            CredentialError::TokenFileUnreadable {
                path,
                reason,
            } => CredentialError::TokenFileUnreadable { path: path.clone(), reason: reason.clone() },
            CredentialError::ExchangeFailed {
                tenant_id,
                client_id,
                reason,
            } => CredentialError::ExchangeFailed {
                tenant_id: tenant_id.clone(),
                client_id: client_id.clone(),
                reason: reason.clone(),
            },
        }
    }
}

impl CredentialError {
    /// The stage at which this failure arose.
    pub fn stage(&self) -> (stage: Stage)
        ensures
            stage == self@.stage(),
    {
        match self {
            CredentialError::TokenFileUnreadable { .. } => Stage::FileRead,
            CredentialError::ExchangeFailed { .. } => Stage::Exchange,
            _ => Stage::Configuration,
        }
    }

    /// The text that describes this failure to a reader.
    pub fn message(&self) -> (text: String)
        ensures
            text@ == self@.message(),
    {
        match self {
            CredentialError::MissingTenantId => {
                let mut text = String::from_str("working identity credential requires ");
                text.append(AZURE_TENANT_ID_ENV_KEY);
                text.append(" environment variable");
                text
            },
            CredentialError::MissingClientId => {
                let mut text = String::from_str("working identity credential requires ");
                text.append(AZURE_CLIENT_ID_ENV_KEY);
                text.append(" environment variable");
                text
            },
            CredentialError::MissingTokenSource => {
                let mut text = String::from_str("working identity credential requires ");
                text.append(AZURE_FEDERATED_TOKEN);
                text.append(" or ");
                text.append(AZURE_FEDERATED_TOKEN_FILE);
                text.append(" environment variables");
                text
            },
            CredentialError::InvalidAuthorityHost { host } => {
                let mut text = String::from_str("invalid authority host ");
                text.append(host.as_str());
                text
            },
            CredentialError::TokenFileUnreadable { path, reason } => {
                let mut text = String::from_str("failed to read federated token from file ");
                text.append(path.as_str());
                text.append(": ");
                text.append(reason.as_str());
                text
            },
            CredentialError::ExchangeFailed { tenant_id, client_id, reason } => {
                let mut text = String::from_str("request token error for tenant ");
                text.append(tenant_id.as_str());
                text.append(" and client ");
                text.append(client_id.as_str());
                text.append(": ");
                text.append(reason.as_str());
                text
            },
        }
    }
}

} // verus!
