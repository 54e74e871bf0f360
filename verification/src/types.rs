//! The shared data model: account metadata, DNS domain and record shapes,
//! request/response argument types, and the toolbox result shapes.

use vstd::prelude::*;

use crate::credentials::{CredMap, ProviderType};

verus! {

/// Lifecycle state of an account.
#[derive(Clone, Copy, PartialEq, Eq, Structural, Debug)]
pub enum AccountStatus {
    Active,
    Error,
}

/// Account identity and metadata; credentials never live here.
#[derive(Debug)]
pub struct Account {
    pub id: String,
    pub name: String,
    pub provider: ProviderType,
    pub created_at: String,
    pub updated_at: String,
    pub status: Option<AccountStatus>,
    pub error: Option<String>,
}

impl Clone for Account {
    /// An exact copy.
    fn clone(&self) -> (r: Account)
        ensures
            r == *self,
    {
        Account {
            id: self.id.clone(),
            name: self.name.clone(),
            provider: self.provider,
            created_at: self.created_at.clone(),
            updated_at: self.updated_at.clone(),
            status: self.status,
            error: match &self.error {
                Some(e) => Some(e.clone()),
                None => None,
            },
        }
    }
}

/// A request to create one account.
#[derive(Clone, Debug)]
pub struct CreateAccountRequest {
    pub name: String,
    pub provider: ProviderType,
    pub credentials: CredMap,
}

/// A request to rename an account or replace its credentials.
#[derive(Clone, Debug)]
pub struct UpdateAccountRequest {
    pub id: String,
    pub name: Option<String>,
    pub credentials: Option<CredMap>,
}

/// Lifecycle state of a DNS zone at its vendor.
#[derive(Clone, Copy, PartialEq, Eq, Structural, Debug)]
pub enum DomainStatus {
    Active,
    Pending,
    Paused,
    Disabled,
}

/// A DNS zone owned by an account.
#[derive(Clone, Debug)]
pub struct Domain {
    pub id: String,
    pub name: String,
    pub account_id: String,
    pub provider: ProviderType,
    pub status: DomainStatus,
    pub record_count: Option<u32>,
}

/// The DNS record types the adapters understand.
#[derive(Clone, Copy, PartialEq, Eq, Structural, Debug)]
pub enum DnsRecordType {
    A,
    Aaaa,
    Cname,
    Mx,
    Txt,
    Ns,
    Srv,
    Caa,
}

/// One DNS resource record within a zone.
#[derive(Clone, Debug)]
pub struct DnsRecord {
    pub id: String,
    pub name: String,
    pub record_type: DnsRecordType,
    pub value: String,
    pub ttl: u32,
    pub priority: Option<u16>,
    pub proxied: Option<bool>,
}

/// A request to create one DNS record.
#[derive(Clone, Debug)]
pub struct CreateDnsRecordRequest {
    pub domain_id: String,
    pub name: String,
    pub record_type: DnsRecordType,
    pub value: String,
    pub ttl: u32,
    pub priority: Option<u16>,
    pub proxied: Option<bool>,
}

/// A request to update one DNS record.
#[derive(Clone, Debug)]
pub struct UpdateDnsRecordRequest {
    pub domain_id: String,
    pub name: String,
    pub record_type: DnsRecordType,
    pub value: String,
    pub ttl: u32,
    pub priority: Option<u16>,
    pub proxied: Option<bool>,
}

/// Pagination window for a listing call.
#[derive(Clone, Copy, PartialEq, Eq, Structural, Debug)]
pub struct PaginationParams {
    pub page: u32,
    pub page_size: u32,
}

/// Record-listing filter and window.
#[derive(Clone, Debug)]
pub struct RecordQueryParams {
    pub page: u32,
    pub page_size: u32,
    pub keyword: Option<String>,
    pub record_type: Option<DnsRecordType>,
}

/// One page of a listing.
pub struct PaginatedResponse<T> {
    pub items: Vec<T>,
    pub total_count: u32,
    pub page: u32,
    pub page_size: u32,
    pub has_more: bool,
}

/// A request to delete several records of one zone.
#[derive(Clone, Debug)]
pub struct BatchDeleteRequest {
    pub domain_id: String,
    pub record_ids: Vec<String>,
}

/// Counts and itemized reasons of a batch delete.
#[derive(Clone, Debug)]
pub struct BatchDeleteResult {
    pub success_count: usize,
    pub failed_count: usize,
    pub failures: Vec<BatchDeleteFailure>,
}

/// Why one record of a batch delete failed.
#[derive(Clone, Debug)]
pub struct BatchDeleteFailure {
    pub record_id: String,
    pub reason: String,
}

/// The uniform success/data envelope the request layer answers with.
pub struct ApiResponse<T> {
    pub success: bool,
    pub data: Option<T>,
    pub error: Option<String>,
}

impl<T> ApiResponse<T> {
    /// A successful envelope carrying data.
    pub fn success(data: T) -> (r: ApiResponse<T>)
        ensures
            r.success == true,
            r.data == Some(data),
            r.error is None,
    {
        ApiResponse { success: true, data: Some(data), error: None }
    }

    /// A failed envelope carrying a reason.
    pub fn error(message: String) -> (r: ApiResponse<()>)
        ensures
            r.success == false,
            r.data is None,
            r.error matches Some(m) && m@ == message@,
    {
        ApiResponse { success: false, data: None, error: Some(message) }
    }
}

/// Vendor capability metadata shown to callers.
#[derive(Clone, Debug)]
pub struct ProviderMetadata {
    pub id: String,
    pub name: String,
    pub description: String,
    pub required_fields: Vec<ProviderField>,
    pub features: ProviderFeatures,
}

/// One credential field a vendor requires.
#[derive(Clone, Debug)]
pub struct ProviderField {
    pub key: String,
    pub label: String,
    pub field_type: FieldType,
    pub placeholder: Option<String>,
    pub help_text: Option<String>,
}

/// How a credential field is entered.
#[derive(Clone, Copy, PartialEq, Eq, Structural, Debug)]
pub enum FieldType {
    Text,
    Password,
}

/// Optional vendor capabilities.
#[derive(Clone, Copy, PartialEq, Eq, Structural, Debug)]
pub struct ProviderFeatures {
    pub proxy: bool,
}

/// A WHOIS lookup answer, parsed out of the raw response text.
#[derive(Clone, Debug)]
pub struct WhoisResult {
    pub domain: String,
    pub registrar: Option<String>,
    pub creation_date: Option<String>,
    pub expiration_date: Option<String>,
    pub updated_date: Option<String>,
    pub name_servers: Vec<String>,
    pub status: Vec<String>,
    pub raw: String,
}

/// One record of a DNS lookup answer.
#[derive(Clone, Debug)]
pub struct DnsLookupRecord {
    pub record_type: String,
    pub name: String,
    pub value: String,
    pub ttl: u32,
    pub priority: Option<u16>,
}

/// A DNS lookup answer.
#[derive(Clone, Debug)]
pub struct DnsLookupResult {
    pub nameserver: String,
    pub records: Vec<DnsLookupRecord>,
}

/// An SSL certificate summary.
#[derive(Clone, Debug)]
pub struct SslCertInfo {
    pub domain: String,
    pub issuer: String,
    pub subject: String,
    pub valid_from: String,
    pub valid_to: String,
    pub days_remaining: i64,
    pub is_expired: bool,
    pub is_valid: bool,
    pub san: Vec<String>,
    pub serial_number: String,
    pub signature_algorithm: String,
    pub certificate_chain: Vec<CertChainItem>,
}

/// An SSL check outcome, including connection state.
#[derive(Clone, Debug)]
pub struct SslCheckResult {
    pub domain: String,
    pub port: u16,
    pub connection_status: String,
    pub cert_info: Option<SslCertInfo>,
    pub error: Option<String>,
}

/// One link of a certificate chain.
#[derive(Clone, Debug)]
pub struct CertChainItem {
    pub subject: String,
    pub issuer: String,
    pub is_ca: bool,
}

} // verus!
