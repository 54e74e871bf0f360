//! Cloudflare adapter: static bearer-token authentication, the API
//! envelope types, and the response envelope decision.

use vstd::prelude::*;

use crate::error_map::{cloudflare_kind, cloudflare_map_error, mapped_fault};
use crate::errors::ProviderError;
use crate::provider_api::{ErrorContext, HttpMethod, PreparedRequest, RawApiError};
use crate::strutil::{dec_bytes, u64_to_dec};
use vstd::string::StrSliceExecFns;
use vstd::string::StringExecFns;

verus! {

/// Cloudflare API base URL.
pub const CF_API_BASE: &'static str = "https://api.cloudflare.com/client/v4";

/// The common Cloudflare response envelope.
pub struct CloudflareResponse<T> {
    pub success: bool,
    pub result: Option<T>,
    pub errors: Option<Vec<CloudflareError>>,
    pub result_info: Option<CloudflareResultInfo>,
}

/// One entry of the envelope's error list.
pub struct CloudflareError {
    pub code: u32,
    pub message: String,
}

/// Pagination companion of a list envelope.
pub struct CloudflareResultInfo {
    pub page: u32,
    pub per_page: u32,
    pub total_count: u32,
}

/// A zone as the Cloudflare API reports it.
pub struct CloudflareZone {
    pub id: String,
    pub name: String,
    pub status: String,
}

/// A DNS record as the Cloudflare API reports it.
pub struct CloudflareDnsRecord {
    pub id: String,
    pub record_type: String,
    pub name: String,
    pub content: String,
    pub ttl: u32,
    pub priority: Option<u16>,
    pub proxied: Option<bool>,
    pub created_on: Option<String>,
    pub modified_on: Option<String>,
}

/// Cloudflare adapter handle, bound to one account's API token.
#[derive(Debug)]
pub struct CloudflareProvider {
    pub api_token: String,
}

impl CloudflareProvider {
    /// Bind an adapter to an API token.
    pub fn new(api_token: String) -> (r: CloudflareProvider)
        ensures
            r.api_token@ == api_token@,
    {
        CloudflareProvider { api_token }
    }

    /// The Authorization header value: the token sent verbatim as a bearer
    /// token, no request signing.
    pub fn auth_header(&self) -> (r: String)
        ensures
            r@ == "Bearer "@ + self.api_token@,
    {
        let mut h = String::new();
        h.append("Bearer ");
        h.append(self.api_token.as_str());
        proof {
            assert(h@ =~= "Bearer "@ + self.api_token@);
        }
        h
    }

    /// Frame one API request against a path (with any query already
    /// attached), carrying the bearer token.
    pub fn build_request(&self, method: HttpMethod, path: &str, body: Option<String>) -> (r:
        PreparedRequest)
        ensures
            r.method == method,
            r.url@ == "https://api.cloudflare.com/client/v4"@ + path@,
            r.body == body,
            r.headers@.len() == 2,
            r.headers@[0].0@ == "Authorization"@,
            r.headers@[0].1@ == "Bearer "@ + self.api_token@,
            r.headers@[1].0@ == "Content-Type"@,
            r.headers@[1].1@ == "application/json"@,
    {
        let mut url = String::new();
        url.append(CF_API_BASE);
        url.append(path);
        let mut headers: Vec<(String, String)> = Vec::new();
        headers.push((String::from_str("Authorization"), self.auth_header()));
        headers.push((String::from_str("Content-Type"), String::from_str("application/json")));
        PreparedRequest { method, url, headers, body }
    }

    /// Decide what an envelope means: a failed envelope maps its first
    /// error through the cloudflare code table (the decimal spelling of
    /// the numeric code is the table key); a failed envelope without an
    /// error entry becomes the fallback fault; success yields nothing.
    pub fn error_from_envelope(
        &self,
        success: bool,
        first_error: Option<(u32, String)>,
        context: ErrorContext,
    ) -> (r: Option<ProviderError>)
        ensures
            (r is Some) == !success,
            !success ==> (first_error matches Some(cm) ==> (r matches Some(e) && mapped_fault(
                e,
                "cloudflare"@,
                cloudflare_kind_of_num(cm.0),
                cm.1@,
                context,
            ))),
            !success ==> (first_error is None ==> (r matches Some(e)
                && e matches ProviderError::UnknownProviderError { provider: p, raw_message: m }
                && p@ == "cloudflare"@ && m@ == "Request failed"@)),
    {
        if success {
            return None;
        }
        match first_error {
            Some(cm) => {
                let code_text = u64_to_dec(cm.0 as u64);
                let raw = RawApiError::with_code(code_text.as_str(), cm.1.as_str());
                proof {
                    assert(raw.code matches Some(rc) && rc@ == crate::primitives::chars_of_bytes(
                        dec_bytes(cm.0 as nat),
                    ));
                }
                Some(cloudflare_map_error(raw, context))
            },
            None => Some(
                ProviderError::UnknownProviderError {
                    provider: String::from_str("cloudflare"),
                    raw_message: String::from_str("Request failed"),
                },
            ),
        }
    }
}

/// The classification the cloudflare table gives a numeric code: the
/// decimal spelling of the code is looked up in the table.
pub open spec fn cloudflare_kind_of_num(code: u32) -> crate::error_map::FaultKind {
    spec_kind_of_code_chars(crate::primitives::chars_of_bytes(dec_bytes(code as nat)))
}

/// The cloudflare table keyed by the code's characters.
pub open spec fn spec_kind_of_code_chars(code: Seq<char>) -> crate::error_map::FaultKind {
    if code == "9109"@ || code == "10000"@ {
        crate::error_map::FaultKind::Auth
    } else if code == "81057"@ {
        crate::error_map::FaultKind::RecordExists
    } else if code == "81044"@ {
        crate::error_map::FaultKind::RecordNotFound
    } else if code == "7003"@ {
        crate::error_map::FaultKind::DomainNotFound
    } else {
        crate::error_map::FaultKind::Unknown
    }
}

} // verus!
