//! Shared vendor-adapter plumbing: the raw fault signal a vendor returns,
//! the context a call site supplies for error mapping, and the prepared
//! request shape the transport layer sends.

use vstd::prelude::*;

use crate::errors::ProviderError;
use vstd::string::StringExecFns;

verus! {

/// A vendor's unmodified fault signal; transient, never persisted.
pub struct RawApiError {
    pub code: Option<String>,
    pub message: String,
}

impl RawApiError {
    /// A fault with a message only.
    pub fn new(message: String) -> (r: RawApiError)
        ensures
            r.code is None,
            r.message@ == message@,
    {
        RawApiError { code: None, message }
    }

    /// A fault with a vendor code and message.
    pub fn with_code(code: &str, message: &str) -> (r: RawApiError)
        ensures
            r.code matches Some(c) && c@ == code@,
            r.message@ == message@,
    {
        RawApiError { code: Some(String::from_str(code)), message: String::from_str(message) }
    }
}

/// Context the call site that detected a fault supplies; fields it does not
/// know stay empty and are never invented.
pub struct ErrorContext {
    pub domain: Option<String>,
    pub record_id: Option<String>,
    pub record_name: Option<String>,
}

impl ErrorContext {
    /// A context with nothing known.
    pub fn empty() -> (r: ErrorContext)
        ensures
            r.domain is None,
            r.record_id is None,
            r.record_name is None,
    {
        ErrorContext { domain: None, record_id: None, record_name: None }
    }

    /// A context naming the domain an operation addressed.
    pub fn for_domain(domain: &str) -> (r: ErrorContext)
        ensures
            r.domain matches Some(d) && d@ == domain@,
            r.record_id is None,
            r.record_name is None,
    {
        ErrorContext {
            domain: Some(String::from_str(domain)),
            record_id: None,
            record_name: None,
        }
    }

    /// A context naming the record id an operation addressed.
    pub fn for_record_id(record_id: &str) -> (r: ErrorContext)
        ensures
            r.domain is None,
            r.record_id matches Some(i) && i@ == record_id@,
            r.record_name is None,
    {
        ErrorContext {
            domain: None,
            record_id: Some(String::from_str(record_id)),
            record_name: None,
        }
    }

    /// A context naming the record name an operation addressed.
    pub fn for_record_name(record_name: &str) -> (r: ErrorContext)
        ensures
            r.domain is None,
            r.record_id is None,
            r.record_name matches Some(n) && n@ == record_name@,
    {
        ErrorContext {
            domain: None,
            record_id: None,
            record_name: Some(String::from_str(record_name)),
        }
    }
}

/// The characters of an optional context field, empty when absent.
pub open spec fn ctx_field(f: Option<String>) -> Seq<char> {
    match f {
        Some(s) => s@,
        None => Seq::<char>::empty(),
    }
}

/// Take an optional context field, or the empty string.
pub fn ctx_field_or_empty(f: Option<String>) -> (r: String)
    ensures
        r@ == ctx_field(f),
{
    match f {
        Some(s) => s,
        None => String::new(),
    }
}

/// The HTTP verb of a prepared request.
#[derive(Clone, Copy, PartialEq, Eq, Structural, Debug)]
pub enum HttpMethod {
    Get,
    Post,
    Put,
    Delete,
}

/// A fully prepared vendor request: the transport sends it as-is and
/// reports the numeric status and body text back.
pub struct PreparedRequest {
    pub method: HttpMethod,
    pub url: String,
    pub headers: Vec<(String, String)>,
    pub body: Option<String>,
}

/// A vendor fault for transport failure, tagged with vendor and detail.
pub fn network_error(provider: &str, detail: String) -> (r: ProviderError)
    ensures
        r matches ProviderError::NetworkError { provider: p, detail: d } && p@ == provider@ && d@
            == detail@,
{
    ProviderError::NetworkError { provider: String::from_str(provider), detail }
}

/// A vendor fault for a response that did not match the expected shape.
pub fn parse_error(provider: &str, detail: String) -> (r: ProviderError)
    ensures
        r matches ProviderError::ParseError { provider: p, detail: d } && p@ == provider@ && d@
            == detail@,
{
    ProviderError::ParseError { provider: String::from_str(provider), detail }
}

/// The fallback fault for a code outside a vendor's mapping table; the raw
/// message is carried unmodified.
pub fn unknown_error(provider: &str, raw: RawApiError) -> (r: ProviderError)
    ensures
        r matches ProviderError::UnknownProviderError { provider: p, raw_message: m } && p@
            == provider@ && m@ == raw.message@,
{
    ProviderError::UnknownProviderError {
        provider: String::from_str(provider),
        raw_message: raw.message,
    }
}

} // verus!
