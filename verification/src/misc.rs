//! Request-layer helpers: record-type parsing, record and domain
//! conversions, request defaulting and validation, batch-delete
//! summaries, vendor capability metadata, cipher bootstrap, and the
//! in-memory account-list operations the store adapters build on.

use vstd::prelude::*;

use crate::credentials::{provider_tag, ProviderType};
use crate::crypto::CryptoManager;
use crate::errors::ApiError;
use crate::strutil::{eq_ignore_ascii_case, lower_bytes};
use crate::types::{
    Account, AccountStatus, BatchDeleteFailure, BatchDeleteResult, CreateDnsRecordRequest,
    DnsRecord, DnsRecordType, Domain, FieldType, PaginationParams, ProviderFeatures,
    ProviderField, ProviderMetadata, RecordQueryParams, UpdateDnsRecordRequest,
};
use vstd::string::StrSliceExecFns;
use vstd::string::StringExecFns;
use vstd::string::StringSliceAdditionalSpecFns;
use vstd::utf8::encode_utf8;

verus! {

/// The record type a text tag names, compared without regard to ASCII
/// case; anything else is unknown.
pub open spec fn spec_record_type(s: Seq<u8>) -> Option<DnsRecordType> {
    let l = lower_bytes(s);
    if l == lower_bytes(encode_utf8("A"@)) {
        Some(DnsRecordType::A)
    } else if l == lower_bytes(encode_utf8("AAAA"@)) {
        Some(DnsRecordType::Aaaa)
    } else if l == lower_bytes(encode_utf8("CNAME"@)) {
        Some(DnsRecordType::Cname)
    } else if l == lower_bytes(encode_utf8("MX"@)) {
        Some(DnsRecordType::Mx)
    } else if l == lower_bytes(encode_utf8("TXT"@)) {
        Some(DnsRecordType::Txt)
    } else if l == lower_bytes(encode_utf8("NS"@)) {
        Some(DnsRecordType::Ns)
    } else if l == lower_bytes(encode_utf8("SRV"@)) {
        Some(DnsRecordType::Srv)
    } else if l == lower_bytes(encode_utf8("CAA"@)) {
        Some(DnsRecordType::Caa)
    } else {
        None
    }
}

/// Parse a record-type tag, ignoring ASCII case.
pub fn parse_record_type(s: &str) -> (r: Option<DnsRecordType>)
    ensures
        r == spec_record_type(s.spec_bytes()),
{
    let b = s.as_bytes();
    if eq_ignore_ascii_case(b, "A".as_bytes()) {
        Some(DnsRecordType::A)
    } else if eq_ignore_ascii_case(b, "AAAA".as_bytes()) {
        Some(DnsRecordType::Aaaa)
    } else if eq_ignore_ascii_case(b, "CNAME".as_bytes()) {
        Some(DnsRecordType::Cname)
    } else if eq_ignore_ascii_case(b, "MX".as_bytes()) {
        Some(DnsRecordType::Mx)
    } else if eq_ignore_ascii_case(b, "TXT".as_bytes()) {
        Some(DnsRecordType::Txt)
    } else if eq_ignore_ascii_case(b, "NS".as_bytes()) {
        Some(DnsRecordType::Ns)
    } else if eq_ignore_ascii_case(b, "SRV".as_bytes()) {
        Some(DnsRecordType::Srv)
    } else if eq_ignore_ascii_case(b, "CAA".as_bytes()) {
        Some(DnsRecordType::Caa)
    } else {
        None
    }
}

/// The label a record type is shown as.
pub open spec fn record_type_label(t: DnsRecordType) -> Seq<char> {
    match t {
        DnsRecordType::A => "A"@,
        DnsRecordType::Aaaa => "Aaaa"@,
        DnsRecordType::Cname => "Cname"@,
        DnsRecordType::Mx => "Mx"@,
        DnsRecordType::Txt => "Txt"@,
        DnsRecordType::Ns => "Ns"@,
        DnsRecordType::Srv => "Srv"@,
        DnsRecordType::Caa => "Caa"@,
    }
}

/// The label a record type is shown as.
pub fn record_type_name(t: &DnsRecordType) -> (r: String)
    ensures
        r@ == record_type_label(*t),
{
    match t {
        DnsRecordType::A => String::from_str("A"),
        DnsRecordType::Aaaa => String::from_str("Aaaa"),
        DnsRecordType::Cname => String::from_str("Cname"),
        DnsRecordType::Mx => String::from_str("Mx"),
        DnsRecordType::Txt => String::from_str("Txt"),
        DnsRecordType::Ns => String::from_str("Ns"),
        DnsRecordType::Srv => String::from_str("Srv"),
        DnsRecordType::Caa => String::from_str("Caa"),
    }
}

/// A DNS record flattened for the request layer: the type as its label.
pub struct DnsRecordInfo {
    pub id: String,
    pub name: String,
    pub record_type: String,
    pub content: String,
    pub ttl: u32,
    pub priority: Option<u16>,
    pub proxied: Option<bool>,
}

/// Flatten a DNS record into its request-layer shape.
pub fn convert_record(record: DnsRecord) -> (r: DnsRecordInfo)
    ensures
        r.id@ == record.id@,
        r.name@ == record.name@,
        r.record_type@ == record_type_label(record.record_type),
        r.content@ == record.value@,
        r.ttl == record.ttl,
        r.priority == record.priority,
        r.proxied == record.proxied,
{
    DnsRecordInfo {
        id: record.id,
        name: record.name,
        record_type: record_type_name(&record.record_type),
        content: record.value,
        ttl: record.ttl,
        priority: record.priority,
        proxied: record.proxied,
    }
}

/// A domain flattened for the request layer.
pub struct DomainInfo {
    pub id: String,
    pub name: String,
    pub status: String,
    pub record_count: Option<u32>,
}

/// The label a domain status is shown as.
pub open spec fn domain_status_label(s: crate::types::DomainStatus) -> Seq<char> {
    match s {
        crate::types::DomainStatus::Active => "Active"@,
        crate::types::DomainStatus::Pending => "Pending"@,
        crate::types::DomainStatus::Paused => "Paused"@,
        crate::types::DomainStatus::Disabled => "Disabled"@,
    }
}

/// Flatten a domain into its request-layer shape.
pub fn convert_domain(domain: Domain) -> (r: DomainInfo)
    ensures
        r.id@ == domain.id@,
        r.name@ == domain.name@,
        r.status@ == domain_status_label(domain.status),
        r.record_count == domain.record_count,
{
    let status = match domain.status {
        crate::types::DomainStatus::Active => String::from_str("Active"),
        crate::types::DomainStatus::Pending => String::from_str("Pending"),
        crate::types::DomainStatus::Paused => String::from_str("Paused"),
        crate::types::DomainStatus::Disabled => String::from_str("Disabled"),
    };
    DomainInfo { id: domain.id, name: domain.name, status, record_count: domain.record_count }
}

/// Apply the listing defaults: page 1 and twenty items per page.
pub fn default_pagination(page: Option<u32>, page_size: Option<u32>) -> (r: PaginationParams)
    ensures
        r.page == (match page {
            Some(p) => p,
            None => 1u32,
        }),
        r.page_size == (match page_size {
            Some(p) => p,
            None => 20u32,
        }),
{
    PaginationParams {
        page: match page {
            Some(p) => p,
            None => 1,
        },
        page_size: match page_size {
            Some(p) => p,
            None => 20,
        },
    }
}

/// Build a record-creation request from raw arguments: the type tag must
/// parse, and a missing TTL defaults to 600 seconds.
pub fn build_create_record_request(
    domain_id: String,
    name: String,
    record_type: &str,
    content: String,
    ttl: Option<u32>,
    priority: Option<u16>,
    proxied: Option<bool>,
) -> (r: Result<CreateDnsRecordRequest, ApiError>)
    ensures
        (r is Ok) == (spec_record_type(record_type.spec_bytes()) is Some),
        r matches Ok(req) ==> {
            &&& Some(req.record_type) == spec_record_type(record_type.spec_bytes())
            &&& req.domain_id@ == domain_id@
            &&& req.name@ == name@
            &&& req.value@ == content@
            &&& req.ttl == (match ttl {
                Some(t) => t,
                None => 600u32,
            })
            &&& req.priority == priority
            &&& req.proxied == proxied
        },
        r matches Err(e) ==> e matches ApiError::BadRequest(m) && m@ == "Invalid record type"@,
{
    let parsed = match parse_record_type(record_type) {
        Some(t) => t,
        None => {
            return Err(ApiError::BadRequest(String::from_str("Invalid record type")));
        },
    };
    Ok(
        CreateDnsRecordRequest {
            domain_id,
            name,
            record_type: parsed,
            value: content,
            ttl: match ttl {
                Some(t) => t,
                None => 600,
            },
            priority,
            proxied,
        },
    )
}

/// Build a record-update request from raw arguments: type, name and
/// content are all required, the type tag must parse, and a missing TTL
/// defaults to 600 seconds.
pub fn build_update_record_request(
    domain_id: String,
    name: Option<String>,
    record_type: Option<String>,
    content: Option<String>,
    ttl: Option<u32>,
    priority: Option<u16>,
    proxied: Option<bool>,
) -> (r: Result<UpdateDnsRecordRequest, ApiError>)
    ensures
        record_type is None ==> (r matches Err(ApiError::BadRequest(m)) && m@
            == "Missing record_type field"@),
        (record_type matches Some(t) && spec_record_type(vstd::utf8::encode_utf8(t@)) is None)
            ==> (r matches Err(ApiError::BadRequest(m)) && m@ == "Invalid record type"@),
        (record_type matches Some(t) && spec_record_type(vstd::utf8::encode_utf8(t@)) is Some
            && name is None) ==> (r matches Err(ApiError::BadRequest(m)) && m@
            == "Missing name field"@),
        (record_type matches Some(t) && spec_record_type(vstd::utf8::encode_utf8(t@)) is Some
            && name is Some && content is None) ==> (r matches Err(ApiError::BadRequest(m)) && m@
            == "Missing content field"@),
        r matches Ok(req) ==> {
            &&& record_type matches Some(t) && Some(req.record_type) == spec_record_type(
                vstd::utf8::encode_utf8(t@),
            )
            &&& name matches Some(n) && req.name@ == n@
            &&& content matches Some(c) && req.value@ == c@
            &&& req.domain_id@ == domain_id@
            &&& req.ttl == (match ttl {
                Some(t) => t,
                None => 600u32,
            })
            &&& req.priority == priority
            &&& req.proxied == proxied
        },
{
    let type_tag = match record_type {
        Some(t) => t,
        None => {
            return Err(ApiError::BadRequest(String::from_str("Missing record_type field")));
        },
    };
    let parsed = match parse_record_type(type_tag.as_str()) {
        Some(t) => t,
        None => {
            return Err(ApiError::BadRequest(String::from_str("Invalid record type")));
        },
    };
    let name_value = match name {
        Some(n) => n,
        None => {
            return Err(ApiError::BadRequest(String::from_str("Missing name field")));
        },
    };
    let content_value = match content {
        Some(c) => c,
        None => {
            return Err(ApiError::BadRequest(String::from_str("Missing content field")));
        },
    };
    Ok(
        UpdateDnsRecordRequest {
            domain_id,
            name: name_value,
            record_type: parsed,
            value: content_value,
            ttl: match ttl {
                Some(t) => t,
                None => 600,
            },
            priority,
            proxied,
        },
    )
}

/// Summarize a batch of per-record delete outcomes: counts plus itemized
/// reasons, never a single pass/fail verdict.
pub fn summarize_batch_delete(outcomes: Vec<(String, Option<String>)>) -> (r: BatchDeleteResult)
    ensures
        r.success_count + r.failed_count == outcomes@.len(),
        r.failed_count == r.failures@.len(),
        forall|i: int|
            0 <= i < outcomes@.len() && (#[trigger] outcomes@[i]).1 is Some ==> exists|j: int|
                0 <= j < r.failures@.len() && (#[trigger] r.failures@[j]).record_id@
                    == outcomes@[i].0@,
{
    let mut success_count: usize = 0;
    let mut failures: Vec<BatchDeleteFailure> = Vec::new();
    let n = outcomes.len();
    let mut i: usize = 0;
    while i < n
        invariant
            n == outcomes@.len(),
            i <= n,
            success_count + failures@.len() == i,
            forall|k: int|
                0 <= k < i && (#[trigger] outcomes@[k]).1 is Some ==> exists|j: int|
                    0 <= j < failures@.len() && (#[trigger] failures@[j]).record_id@
                        == outcomes@[k].0@,
        decreases n - i,
    {
        match &outcomes[i].1 {
            Some(reason) => {
                let ghost prev = failures@;
                failures.push(
                    BatchDeleteFailure {
                        record_id: outcomes[i].0.clone(),
                        reason: reason.clone(),
                    },
                );
                proof {
                    assert(forall|j: int| 0 <= j < prev.len() ==> failures@[j] == prev[j]);
                    assert(failures@[failures@.len() - 1].record_id@ == outcomes@[i as int].0@);
                }
            },
            None => {
                success_count = success_count + 1;
            },
        }
        i = i + 1;
    }
    let failed_count = failures.len();
    BatchDeleteResult { success_count, failed_count, failures }
}

/// The static capability table: one entry per vendor in the closed set.
pub fn get_all_provider_metadata() -> (r: Vec<ProviderMetadata>)
    ensures
        r@.len() == 4,
        r@[0].id@ == provider_tag(ProviderType::Cloudflare),
        r@[1].id@ == provider_tag(ProviderType::Aliyun),
        r@[2].id@ == provider_tag(ProviderType::Dnspod),
        r@[3].id@ == provider_tag(ProviderType::Huaweicloud),
        r@[0].features.proxy == true,
        r@[1].features.proxy == false,
        r@[2].features.proxy == false,
        r@[3].features.proxy == false,
{
    let mut out: Vec<ProviderMetadata> = Vec::new();
    out.push(
        ProviderMetadata {
            id: String::from_str("cloudflare"),
            name: String::from_str("Cloudflare"),
            description: String::from_str("Cloudflare DNS, authenticated by API token"),
            required_fields: vec![
                ProviderField {
                    key: String::from_str("apiToken"),
                    label: String::from_str("API Token"),
                    field_type: FieldType::Password,
                    placeholder: None,
                    help_text: None,
                },
            ],
            features: ProviderFeatures { proxy: true },
        },
    );
    out.push(
        ProviderMetadata {
            id: String::from_str("aliyun"),
            name: String::from_str("Aliyun DNS"),
            description: String::from_str("Aliyun cloud DNS, signed with an access-key pair"),
            required_fields: vec![
                ProviderField {
                    key: String::from_str("accessKeyId"),
                    label: String::from_str("AccessKey ID"),
                    field_type: FieldType::Text,
                    placeholder: None,
                    help_text: None,
                },
                ProviderField {
                    key: String::from_str("accessKeySecret"),
                    label: String::from_str("AccessKey Secret"),
                    field_type: FieldType::Password,
                    placeholder: None,
                    help_text: None,
                },
            ],
            features: ProviderFeatures { proxy: false },
        },
    );
    out.push(
        ProviderMetadata {
            id: String::from_str("dnspod"),
            name: String::from_str("DNSPod"),
            description: String::from_str("Tencent Cloud DNSPod, signed with a secret pair"),
            required_fields: vec![
                ProviderField {
                    key: String::from_str("secretId"),
                    label: String::from_str("Secret ID"),
                    field_type: FieldType::Text,
                    placeholder: None,
                    help_text: None,
                },
                ProviderField {
                    key: String::from_str("secretKey"),
                    label: String::from_str("Secret Key"),
                    field_type: FieldType::Password,
                    placeholder: None,
                    help_text: None,
                },
            ],
            features: ProviderFeatures { proxy: false },
        },
    );
    out.push(
        ProviderMetadata {
            id: String::from_str("huaweicloud"),
            name: String::from_str("Huawei Cloud DNS"),
            description: String::from_str("Huawei Cloud DNS, signed with an access-key pair"),
            required_fields: vec![
                ProviderField {
                    key: String::from_str("accessKeyId"),
                    label: String::from_str("Access Key ID"),
                    field_type: FieldType::Text,
                    placeholder: None,
                    help_text: None,
                },
                ProviderField {
                    key: String::from_str("secretAccessKey"),
                    label: String::from_str("Secret Access Key"),
                    field_type: FieldType::Password,
                    placeholder: None,
                    help_text: None,
                },
            ],
            features: ProviderFeatures { proxy: false },
        },
    );
    out
}

/// Stateless facade over the vendor capability table.
pub struct ProviderMetadataService;

impl ProviderMetadataService {
    /// Build the stateless facade.
    pub fn new() -> ProviderMetadataService {
        ProviderMetadataService
    }

    /// List the supported vendors.
    pub fn list_providers(&self) -> (r: Vec<ProviderMetadata>)
        ensures
            r@.len() == 4,
            r@[0].id@ == provider_tag(ProviderType::Cloudflare),
            r@[1].id@ == provider_tag(ProviderType::Aliyun),
            r@[2].id@ == provider_tag(ProviderType::Dnspod),
            r@[3].id@ == provider_tag(ProviderType::Huaweicloud),
            r@[0].features.proxy == true,
            r@[1].features.proxy == false,
            r@[2].features.proxy == false,
            r@[3].features.proxy == false,
    {
        get_all_provider_metadata()
    }
}

impl Default for ProviderMetadataService {
    fn default() -> ProviderMetadataService {
        ProviderMetadataService::new()
    }
}

/// Bring the fixed-key cipher up from configuration: use the configured
/// hex key, or draw a fresh one when none is configured. A freshly drawn
/// key always parses, so bootstrap without configuration cannot fail.
pub fn init_crypto(configured_key: &Option<String>) -> (r: Result<CryptoManager, ApiError>)
    ensures
        configured_key is None ==> r is Ok,
        r matches Ok(m) ==> m.wf(),
{
    match configured_key {
        Some(key) => CryptoManager::from_hex_key(key.as_str()),
        None => {
            let key = CryptoManager::generate_key();
            CryptoManager::from_hex_key(key.as_str())
        },
    }
}

/// An available application update for the mobile build.
pub struct AndroidUpdate {
    pub version: String,
    pub notes: String,
    pub url: String,
}

/// Progress events of an update download.
pub enum DownloadProgress {
    Started { content_length: u64 },
    Progress { chunk_length: u64 },
    Finished,
}

/// Decide whether a published release is an update: there must be a
/// package for this platform and the published version must be strictly
/// newer than the running one.
pub fn select_android_update(
    current_version: &str,
    latest_version: String,
    notes: Option<String>,
    package_url: Option<String>,
) -> (r: Option<AndroidUpdate>)
    ensures
        package_url is None ==> r is None,
        (package_url is Some && !crate::version_check::spec_is_newer_version(
            current_version@,
            latest_version@,
        )) ==> r is None,
        r matches Some(u) ==> {
            &&& crate::version_check::spec_is_newer_version(current_version@, latest_version@)
            &&& u.version@ == latest_version@
            &&& package_url matches Some(url) && u.url@ == url@
            &&& u.notes@ == (match notes {
                Some(n) => n@,
                None => Seq::<char>::empty(),
            })
        },
{
    let url = match package_url {
        Some(u) => u,
        None => {
            return None;
        },
    };
    if !crate::version_check::is_newer_version(current_version, latest_version.as_str()) {
        return None;
    }
    let notes_text = match notes {
        Some(n) => n,
        None => String::new(),
    };
    Some(AndroidUpdate { version: latest_version, notes: notes_text, url })
}

/// Save an account into a list: replace the entry with the same id, or
/// append when none exists.
pub fn upsert_account(accounts: &mut Vec<Account>, account: Account)
    ensures
        (exists|i: int|
            0 <= i < old(accounts)@.len() && old(accounts)@[i].id@ == account.id@)
            ==> final(accounts)@.len() == old(accounts)@.len(),
        (forall|i: int| 0 <= i < old(accounts)@.len() ==> old(accounts)@[i].id@ != account.id@)
            ==> final(accounts)@ == old(accounts)@.push(account),
        exists|i: int| 0 <= i < final(accounts)@.len() && final(accounts)@[i] == account,
{
    let n = accounts.len();
    for i in 0..n
        invariant
            n == accounts@.len(),
            accounts@ == old(accounts)@,
            forall|j: int| 0 <= j < i ==> accounts@[j].id@ != account.id@,
    {
        if crate::strutil::str_eq(accounts[i].id.as_str(), account.id.as_str()) {
            accounts[i] = account;
            proof {
                assert(accounts@[i as int] == account);
            }
            return ;
        }
    }
    accounts.push(account);
    proof {
        assert(accounts@[accounts@.len() - 1] == account);
    }
}

/// The list with every entry of the given id removed, order kept.
pub open spec fn without_id(s: Seq<Account>, id: Seq<char>) -> Seq<Account>
    decreases s.len(),
{
    if s.len() == 0 {
        s
    } else {
        without_id(s.drop_last(), id) + (if s.last().id@ != id {
            seq![s.last()]
        } else {
            Seq::<Account>::empty()
        })
    }
}

/// Remove every entry with the given id from a list, keeping order;
/// report whether anything was removed.
pub fn remove_account(accounts: &mut Vec<Account>, id: &str) -> (removed: bool)
    ensures
        final(accounts)@ == without_id(old(accounts)@, id@),
        removed == (final(accounts)@.len() != old(accounts)@.len()),
{
    let mut kept: Vec<Account> = Vec::new();
    let n = accounts.len();
    let mut i: usize = 0;
    while i < n
        invariant
            n == accounts@.len(),
            accounts@ == old(accounts)@,
            i <= n,
            kept@ == without_id(accounts@.take(i as int), id@),
        decreases n - i,
    {
        proof {
            assert(accounts@.take(i + 1).drop_last() =~= accounts@.take(i as int));
            assert(accounts@.take(i + 1).last() == accounts@[i as int]);
        }
        if !crate::strutil::str_eq(accounts[i].id.as_str(), id) {
            kept.push(accounts[i].clone());
            proof {
                assert(kept@ =~= without_id(accounts@.take(i + 1), id@));
            }
        } else {
            proof {
                assert(kept@ =~= without_id(accounts@.take(i + 1), id@));
            }
        }
        i = i + 1;
    }
    proof {
        assert(accounts@.take(n as int) =~= accounts@);
    }
    let removed = kept.len() != accounts.len();
    *accounts = kept;
    removed
}

/// Set one account's status, error note and update stamp in a list;
/// report whether the account was found.
pub fn set_account_status(
    accounts: &mut Vec<Account>,
    id: &str,
    status: AccountStatus,
    error: Option<String>,
    updated_at: String,
) -> (found: bool)
    ensures
        final(accounts)@.len() == old(accounts)@.len(),
        found == (exists|i: int|
            0 <= i < old(accounts)@.len() && (#[trigger] old(accounts)@[i]).id@ == id@),
        found ==> exists|i: int|
            0 <= i < final(accounts)@.len() && (#[trigger] final(accounts)@[i]).id@ == id@
                && final(accounts)@[i].status == Some(status),
        forall|i: int|
            0 <= i < final(accounts)@.len() && (#[trigger] old(accounts)@[i]).id@ != id@
                ==> final(accounts)@[i] == old(accounts)@[i],
{
    let n = accounts.len();
    for i in 0..n
        invariant
            n == accounts@.len(),
            accounts@ == old(accounts)@,
            forall|j: int| 0 <= j < i ==> accounts@[j].id@ != id@,
    {
        if crate::strutil::str_eq(accounts[i].id.as_str(), id) {
            let old_entry = &accounts[i];
            let updated = Account {
                id: old_entry.id.clone(),
                name: old_entry.name.clone(),
                provider: old_entry.provider,
                created_at: old_entry.created_at.clone(),
                updated_at,
                status: Some(status),
                error,
            };
            accounts[i] = updated;
            return true;
        }
    }
    false
}

} // verus!
