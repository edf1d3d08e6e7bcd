use vstd::prelude::*;

verus! {

/// The remote operations of the cluster-orchestration service that discovery issues.
#[derive(Clone, Copy, Debug, PartialEq, Eq, Structural)]
pub enum ApiCall {
    ListClusters,
    ListServices,
    DescribeServices,
    DescribeTaskDefinition,
}

/// The operations of the token-issuing service.
#[derive(Clone, Copy, Debug, PartialEq, Eq, Structural)]
pub enum StsCall {
    GetSessionToken,
    AssumeRole,
}

/// Credentials that could not be had.
#[derive(Clone, Debug, PartialEq, Eq)]
pub enum AuthError {
    /// A session has to be requested, and no MFA device is configured.
    MfaDeviceUnset,
    /// The service refused the request, for the reason it gave.
    Rejected { call: StsCall, reason: String },
    /// The service answered without credentials.
    MissingCredentials { call: StsCall },
}

/// An authentication error over plain text.
pub enum AuthErrorView {
    MfaDeviceUnset,
    Rejected { call: StsCall, reason: Seq<char> },
    MissingCredentials { call: StsCall },
}

impl View for AuthError {
    type V = AuthErrorView;

    open spec fn view(&self) -> AuthErrorView {
        match self {
            AuthError::MfaDeviceUnset => AuthErrorView::MfaDeviceUnset,
            AuthError::Rejected { call, reason } => AuthErrorView::Rejected {
                call: *call,
                reason: reason@,
            },
            AuthError::MissingCredentials { call } => AuthErrorView::MissingCredentials {
                call: *call,
            },
        }
    }
}

/// A call of the cluster-orchestration service that failed, with the reason
/// the service gave. Fatal for the discovery of the role it was made for.
#[derive(Clone, Debug, PartialEq, Eq)]
pub struct DiscoveryError {
    pub call: ApiCall,
    pub reason: String,
}

/// A configuration that cannot be used. Always fatal.
#[derive(Clone, Debug, PartialEq, Eq)]
pub enum ConfigError {
    /// The home directory is not known.
    MissingHomeDirectory,
    /// The stored configuration at `path` could not be read.
    UnreadableFile { path: String },
    /// The stored configuration is not the structured record it should be.
    InvalidStoredConfig,
    /// The configuration directory is not known.
    MissingConfigDirectory,
    /// Neither candidate location holds a credentials file.
    NoCredentialsFile,
    /// The credentials file at `path` lacks the default profile's key or secret.
    MissingCredentials { path: String },
    /// The expiration of an issued session is no RFC 3339 timestamp.
    InvalidExpiration,
    /// A pattern of the credentials-file grammar was not accepted.
    LineGrammar,
}

/// A configuration error over plain text.
pub enum ConfigErrorView {
    MissingHomeDirectory,
    UnreadableFile { path: Seq<char> },
    InvalidStoredConfig,
    MissingConfigDirectory,
    NoCredentialsFile,
    MissingCredentials { path: Seq<char> },
    InvalidExpiration,
    LineGrammar,
}

impl View for ConfigError {
    type V = ConfigErrorView;

    open spec fn view(&self) -> ConfigErrorView {
        match self {
            ConfigError::MissingHomeDirectory => ConfigErrorView::MissingHomeDirectory,
            ConfigError::UnreadableFile { path } => ConfigErrorView::UnreadableFile { path: path@ },
            ConfigError::InvalidStoredConfig => ConfigErrorView::InvalidStoredConfig,
            ConfigError::MissingConfigDirectory => ConfigErrorView::MissingConfigDirectory,
            ConfigError::NoCredentialsFile => ConfigErrorView::NoCredentialsFile,
            ConfigError::MissingCredentials { path } => ConfigErrorView::MissingCredentials {
                path: path@,
            },
            ConfigError::InvalidExpiration => ConfigErrorView::InvalidExpiration,
            ConfigError::LineGrammar => ConfigErrorView::LineGrammar,
        }
    }
}

} // verus!
