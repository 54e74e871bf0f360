//! Fault taxonomy: local orchestration errors and the normalized
//! provider-level error type that crosses the abstraction boundary.

use vstd::prelude::*;

verus! {

/// Errors raised by the account orchestration and credential-protection layer.
#[derive(Debug, Clone, PartialEq, Eq)]
pub enum CoreError {
    /// Local (de)serialization or encryption-encoding failure.
    SerializationError(String),
    /// Credential-store layer failure.
    CredentialError(String),
    /// Structural credential validation failed before any network call.
    CredentialValidation(String),
    /// The vendor rejected the credentials.
    InvalidCredentials(String),
    /// No account with the given id exists.
    AccountNotFound(String),
    /// An export was requested for an empty selection.
    NoAccountsSelected,
    /// The export file claims a format version newer than this build knows.
    UnsupportedFileVersion,
    /// Import/export processing failure (bad file, failed decryption, ...).
    ImportExportError(String),
    /// Local input validation failure (e.g. missing password).
    ValidationError(String),
    /// Metadata-store layer failure.
    StorageError(String),
}

/// Errors surfaced by the request-facing service layer.
#[derive(Debug, Clone, PartialEq, Eq)]
pub enum ApiError {
    AccountNotFound(String),
    ProviderNotFound(String),
    DomainNotFound(String),
    RecordNotFound(String),
    CredentialValidation(String),
    Provider(String),
    Database(String),
    Encryption(String),
    BadRequest(String),
    UnknownCommand(String),
    Internal(String),
}

/// The HTTP status the request layer answers a fault with: not-found
/// faults map to 404, bad input to 400, rejected credentials to 401, and
/// everything else to 500.
pub open spec fn spec_api_error_status(e: ApiError) -> u16 {
    match e {
        ApiError::AccountNotFound(_) => 404u16,
        ApiError::ProviderNotFound(_) => 404u16,
        ApiError::DomainNotFound(_) => 404u16,
        ApiError::RecordNotFound(_) => 404u16,
        ApiError::BadRequest(_) => 400u16,
        ApiError::UnknownCommand(_) => 400u16,
        ApiError::CredentialValidation(_) => 401u16,
        _ => 500u16,
    }
}

/// The HTTP status the request layer answers a fault with.
pub fn api_error_status(e: &ApiError) -> (r: u16)
    ensures
        r == spec_api_error_status(*e),
{
    match e {
        ApiError::AccountNotFound(_) => 404,
        ApiError::ProviderNotFound(_) => 404,
        ApiError::DomainNotFound(_) => 404,
        ApiError::RecordNotFound(_) => 404,
        ApiError::BadRequest(_) => 400,
        ApiError::UnknownCommand(_) => 400,
        ApiError::CredentialValidation(_) => 401,
        ApiError::Provider(_) => 500,
        ApiError::Database(_) => 500,
        ApiError::Encryption(_) => 500,
        ApiError::Internal(_) => 500,
    }
}

/// Normalized provider fault: the only fault type a vendor adapter exposes.
#[derive(Debug, Clone, PartialEq, Eq)]
pub enum ProviderError {
    /// Transport failure while talking to the vendor.
    NetworkError { provider: String, detail: String },
    /// The vendor response did not match the expected shape.
    ParseError { provider: String, detail: String },
    /// Local serialization failure while preparing a vendor request.
    SerializationError { provider: String, detail: String },
    /// The vendor rejected the request signature or token.
    InvalidCredentials { provider: String, raw_message: Option<String> },
    /// The record to create already exists.
    RecordExists { provider: String, record_name: String, raw_message: Option<String> },
    /// The record addressed by id does not exist.
    RecordNotFound { provider: String, record_id: String, raw_message: Option<String> },
    /// The domain/zone does not exist under this account.
    DomainNotFound { provider: String, domain: String, raw_message: Option<String> },
    /// A vendor fault code outside the mapping table; carries the raw message.
    UnknownProviderError { provider: String, raw_message: String },
}

} // verus!
