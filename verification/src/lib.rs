//! Multi-vendor DNS account management core: credential encryption,
//! per-vendor request signing, error normalization, and the account
//! lifecycle (create, export, import, restore).

use vstd::prelude::*;

pub mod account_service;
pub mod aliyun;
pub mod cloudflare;
pub mod credentials;
pub mod crypto;
pub mod dnspod;
pub mod error_map;
pub mod errors;
pub mod export;
pub mod hexutil;
pub mod huaweicloud;
pub mod hmacsha;
pub mod misc;
pub mod primitives;
pub mod provider_api;
pub mod registry;
pub mod strutil;
pub mod types;
pub mod version_check;

pub use crypto::CryptoManager;
pub use errors::ApiError;
pub use errors::CoreError;
pub use errors::ProviderError;

verus! {

/// Current export-file format version; files claiming a higher version are rejected.
pub const CURRENT_FILE_VERSION: u32 = 1;

/// PBKDF2 iteration count used by the given export-file format version.
/// Every format version so far derives with the same count; a future
/// version that raises it extends this table, and decryption keeps
/// accepting the old counts through `decrypt_with_iterations`.
pub fn get_pbkdf2_iterations(version: u32) -> (r: u32)
    ensures
        r == spec_pbkdf2_iterations(version),
{
    100_000
}

/// PBKDF2 iteration count used when encrypting with the current build.
pub fn get_current_iterations() -> (r: u32)
    ensures
        r == spec_pbkdf2_iterations(CURRENT_FILE_VERSION as u32),
{
    get_pbkdf2_iterations(CURRENT_FILE_VERSION)
}

/// Iteration count table, one entry per format version.
pub open spec fn spec_pbkdf2_iterations(version: u32) -> u32 {
    100_000
}

} // verus!
