//! Vendor fault-code tables: each vendor's documented codes collapse into
//! the portable fault taxonomy; anything else routes to the vendor-tagged
//! fallback carrying the raw message untouched.

use vstd::prelude::*;

use crate::errors::ProviderError;
use crate::provider_api::{ctx_field, ctx_field_or_empty, ErrorContext, RawApiError};
use crate::strutil::code_is;
use vstd::string::StringExecFns;

verus! {

/// The portable classification a vendor code falls under.
#[derive(Clone, Copy, PartialEq, Eq, Structural, Debug)]
pub enum FaultKind {
    Auth,
    RecordExists,
    RecordNotFound,
    DomainNotFound,
    Unknown,
}

/// Whether the optional code equals the given characters.
pub open spec fn code_eq(code: Option<String>, lit: Seq<char>) -> bool {
    code matches Some(c) && c@ == lit
}

/// Build the normalized fault for a classified vendor code. Context fields
/// the call site did not supply stay empty.
fn build_fault(provider: &str, kind: FaultKind, message: String, context: ErrorContext) -> (r:
    ProviderError)
    ensures
        mapped_fault(r, provider@, kind, message@, context),
{
    match kind {
        FaultKind::Auth => ProviderError::InvalidCredentials {
            provider: String::from_str(provider),
            raw_message: Some(message),
        },
        FaultKind::RecordExists => ProviderError::RecordExists {
            provider: String::from_str(provider),
            record_name: ctx_field_or_empty(context.record_name),
            raw_message: Some(message),
        },
        FaultKind::RecordNotFound => ProviderError::RecordNotFound {
            provider: String::from_str(provider),
            record_id: ctx_field_or_empty(context.record_id),
            raw_message: Some(message),
        },
        FaultKind::DomainNotFound => ProviderError::DomainNotFound {
            provider: String::from_str(provider),
            domain: ctx_field_or_empty(context.domain),
            raw_message: Some(message),
        },
        FaultKind::Unknown => ProviderError::UnknownProviderError {
            provider: String::from_str(provider),
            raw_message: message,
        },
    }
}

/// The classification the aliyun table gives a code.
pub open spec fn aliyun_kind(code: Option<String>) -> FaultKind {
    if code_eq(code, "InvalidAccessKeyId.NotFound"@) || code_eq(code, "SignatureDoesNotMatch"@) {
        FaultKind::Auth
    } else if code_eq(code, "DomainRecordDuplicate"@) {
        FaultKind::RecordExists
    } else if code_eq(code, "DomainRecordNotBelongToUser"@) || code_eq(
        code,
        "InvalidRecordId.NotFound"@,
    ) {
        FaultKind::RecordNotFound
    } else if code_eq(code, "InvalidDomainName.NoExist"@) {
        FaultKind::DomainNotFound
    } else {
        FaultKind::Unknown
    }
}

/// Map a raw aliyun fault through the aliyun code table.
pub fn aliyun_map_error(raw: RawApiError, context: ErrorContext) -> (r: ProviderError)
    ensures
        mapped_fault(r, "aliyun"@, aliyun_kind(raw.code), raw.message@, context),
{
    let kind = if code_is(&raw.code, "InvalidAccessKeyId.NotFound") || code_is(
        &raw.code,
        "SignatureDoesNotMatch",
    ) {
        FaultKind::Auth
    } else if code_is(&raw.code, "DomainRecordDuplicate") {
        FaultKind::RecordExists
    } else if code_is(&raw.code, "DomainRecordNotBelongToUser") || code_is(
        &raw.code,
        "InvalidRecordId.NotFound",
    ) {
        FaultKind::RecordNotFound
    } else if code_is(&raw.code, "InvalidDomainName.NoExist") {
        FaultKind::DomainNotFound
    } else {
        FaultKind::Unknown
    };
    build_fault("aliyun", kind, raw.message, context)
}

/// The classification the cloudflare table gives a code.
pub open spec fn cloudflare_kind(code: Option<String>) -> FaultKind {
    if code_eq(code, "9109"@) || code_eq(code, "10000"@) {
        FaultKind::Auth
    } else if code_eq(code, "81057"@) {
        FaultKind::RecordExists
    } else if code_eq(code, "81044"@) {
        FaultKind::RecordNotFound
    } else if code_eq(code, "7003"@) {
        FaultKind::DomainNotFound
    } else {
        FaultKind::Unknown
    }
}

/// Map a raw cloudflare fault through the cloudflare code table.
pub fn cloudflare_map_error(raw: RawApiError, context: ErrorContext) -> (r: ProviderError)
    ensures
        mapped_fault(r, "cloudflare"@, cloudflare_kind(raw.code), raw.message@, context),
{
    let kind = if code_is(&raw.code, "9109") || code_is(&raw.code, "10000") {
        FaultKind::Auth
    } else if code_is(&raw.code, "81057") {
        FaultKind::RecordExists
    } else if code_is(&raw.code, "81044") {
        FaultKind::RecordNotFound
    } else if code_is(&raw.code, "7003") {
        FaultKind::DomainNotFound
    } else {
        FaultKind::Unknown
    };
    build_fault("cloudflare", kind, raw.message, context)
}

/// The classification the huaweicloud table gives a code.
pub open spec fn huaweicloud_kind(code: Option<String>) -> FaultKind {
    if code_eq(code, "APIGW.0301"@) || code_eq(code, "APIGW.0101"@) {
        FaultKind::Auth
    } else if code_eq(code, "DNS.0312"@) {
        FaultKind::RecordExists
    } else if code_eq(code, "DNS.0305"@) {
        FaultKind::RecordNotFound
    } else if code_eq(code, "DNS.0101"@) {
        FaultKind::DomainNotFound
    } else {
        FaultKind::Unknown
    }
}

/// Map a raw huaweicloud fault through the huaweicloud code table.
pub fn huaweicloud_map_error(raw: RawApiError, context: ErrorContext) -> (r: ProviderError)
    ensures
        mapped_fault(r, "huaweicloud"@, huaweicloud_kind(raw.code), raw.message@, context),
{
    let kind = if code_is(&raw.code, "APIGW.0301") || code_is(&raw.code, "APIGW.0101") {
        FaultKind::Auth
    } else if code_is(&raw.code, "DNS.0312") {
        FaultKind::RecordExists
    } else if code_is(&raw.code, "DNS.0305") {
        FaultKind::RecordNotFound
    } else if code_is(&raw.code, "DNS.0101") {
        FaultKind::DomainNotFound
    } else {
        FaultKind::Unknown
    };
    build_fault("huaweicloud", kind, raw.message, context)
}

/// The classification the dnspod table gives a code.
pub open spec fn dnspod_kind(code: Option<String>) -> FaultKind {
    if code_eq(code, "AuthFailure.SignatureFailure"@) || code_eq(
        code,
        "AuthFailure.SecretIdNotFound"@,
    ) {
        FaultKind::Auth
    } else if code_eq(code, "InvalidParameter.DomainRecordExist"@) {
        FaultKind::RecordExists
    } else if code_eq(code, "ResourceNotFound.NoDataOfRecord"@) {
        FaultKind::RecordNotFound
    } else if code_eq(code, "InvalidParameter.DomainIdInvalid"@) {
        FaultKind::DomainNotFound
    } else {
        FaultKind::Unknown
    }
}

/// Map a raw dnspod fault through the dnspod code table.
pub fn dnspod_map_error(raw: RawApiError, context: ErrorContext) -> (r: ProviderError)
    ensures
        mapped_fault(r, "dnspod"@, dnspod_kind(raw.code), raw.message@, context),
{
    let kind = if code_is(&raw.code, "AuthFailure.SignatureFailure") || code_is(
        &raw.code,
        "AuthFailure.SecretIdNotFound",
    ) {
        FaultKind::Auth
    } else if code_is(&raw.code, "InvalidParameter.DomainRecordExist") {
        FaultKind::RecordExists
    } else if code_is(&raw.code, "ResourceNotFound.NoDataOfRecord") {
        FaultKind::RecordNotFound
    } else if code_is(&raw.code, "InvalidParameter.DomainIdInvalid") {
        FaultKind::DomainNotFound
    } else {
        FaultKind::Unknown
    };
    build_fault("dnspod", kind, raw.message, context)
}

/// What the normalized fault for a classified code looks like: the variant
/// follows the kind, the vendor tag and raw message are carried through,
/// and context fields fill in where the taxonomy asks for them.
pub open spec fn mapped_fault(
    r: ProviderError,
    provider: Seq<char>,
    kind: FaultKind,
    message: Seq<char>,
    context: ErrorContext,
) -> bool {
    &&& kind == FaultKind::Auth ==> ( r matches ProviderError::InvalidCredentials {
        provider: p,
        raw_message: m,
    } && p@ == provider && (m matches Some(mm) && mm@ == message))
    &&& kind == FaultKind::RecordExists ==> ( r matches ProviderError::RecordExists {
        provider: p,
        record_name: n,
        raw_message: m,
    } && p@ == provider && n@ == ctx_field(context.record_name) && (m matches Some(mm) && mm@
        == message))
    &&& kind == FaultKind::RecordNotFound ==> ( r matches ProviderError::RecordNotFound {
        provider: p,
        record_id: i,
        raw_message: m,
    } && p@ == provider && i@ == ctx_field(context.record_id) && (m matches Some(mm) && mm@
        == message))
    &&& kind == FaultKind::DomainNotFound ==> ( r matches ProviderError::DomainNotFound {
        provider: p,
        domain: d,
        raw_message: m,
    } && p@ == provider && d@ == ctx_field(context.domain) && (m matches Some(mm) && mm@ == message))
    &&& kind == FaultKind::Unknown ==> ( r matches ProviderError::UnknownProviderError {
        provider: p,
        raw_message: m,
    } && p@ == provider && m@ == message)
    
}

} // verus!
