//! The vendor-tagged credential model: the closed set of vendors, the
//! secret fields each vendor's signing scheme requires, and the structural
//! reading of a raw key/value map into a tagged variant.

use vstd::prelude::*;

use crate::aliyun::AliyunProvider;
use crate::cloudflare::CloudflareProvider;
use crate::dnspod::DnspodProvider;
use crate::huaweicloud::HuaweicloudProvider;
use crate::strutil::str_eq;
use vstd::string::StringExecFns;

verus! {

/// The closed set of supported vendors.
#[derive(Clone, Copy, PartialEq, Eq, Structural, Debug, Hash)]
pub enum ProviderType {
    Cloudflare,
    Aliyun,
    Dnspod,
    Huaweicloud,
}

/// The lowercase tag of a vendor.
pub open spec fn provider_tag(p: ProviderType) -> Seq<char> {
    match p {
        ProviderType::Cloudflare => "cloudflare"@,
        ProviderType::Aliyun => "aliyun"@,
        ProviderType::Dnspod => "dnspod"@,
        ProviderType::Huaweicloud => "huaweicloud"@,
    }
}

impl ProviderType {
    /// The lowercase tag of this vendor.
    pub fn name(&self) -> (r: String)
        ensures
            r@ == provider_tag(*self),
    {
        match self {
            ProviderType::Cloudflare => String::from_str("cloudflare"),
            ProviderType::Aliyun => String::from_str("aliyun"),
            ProviderType::Dnspod => String::from_str("dnspod"),
            ProviderType::Huaweicloud => String::from_str("huaweicloud"),
        }
    }

    /// Parse a vendor tag.
    pub fn parse(tag: &str) -> (r: Option<ProviderType>)
        ensures
            r matches Some(p) ==> provider_tag(p) == tag@,
            r is None ==> tag@ != "cloudflare"@ && tag@ != "aliyun"@ && tag@ != "dnspod"@ && tag@
                != "huaweicloud"@,
    {
        if str_eq(tag, "cloudflare") {
            Some(ProviderType::Cloudflare)
        } else if str_eq(tag, "aliyun") {
            Some(ProviderType::Aliyun)
        } else if str_eq(tag, "dnspod") {
            Some(ProviderType::Dnspod)
        } else if str_eq(tag, "huaweicloud") {
            Some(ProviderType::Huaweicloud)
        } else {
            None
        }
    }
}

/// A raw credential key/value map, as the stores hand it over.
pub type CredMap = Vec<(String, String)>;

/// First-match lookup in a key/value list.
pub open spec fn lookup(m: Seq<(String, String)>, k: Seq<char>) -> Option<Seq<char>>
    decreases m.len(),
{
    if m.len() == 0 {
        None
    } else if m[0].0@ == k {
        Some(m[0].1@)
    } else {
        lookup(m.drop_first(), k)
    }
}

/// Look a key up in a credential map.
pub fn cred_get(m: &CredMap, k: &str) -> (r: Option<String>)
    ensures
        r matches Some(v) ==> lookup(m@, k@) == Some(v@),
        (r is Some) == (lookup(m@, k@) is Some),
{
    let n = m.len();
    proof {
        assert(m@.skip(0) =~= m@);
    }
    for i in 0..n
        invariant
            n == m@.len(),
            lookup(m@, k@) == lookup(m@.skip(i as int), k@),
            forall|j: int| 0 <= j < i ==> m@[j].0@ != k@,
    {
        proof {
            assert(m@.skip(i as int)[0] == m@[i as int]);
            assert(m@.skip(i as int).drop_first() =~= m@.skip(i + 1));
        }
        if str_eq(m[i].0.as_str(), k) {
            return Some(m[i].1.clone());
        }
    }
    proof {
        assert(m@.skip(n as int).len() == 0);
    }
    None
}

/// One vendor's secrets, exactly the fields its signing scheme needs.
#[derive(Debug)]
pub enum ProviderCredentials {
    Cloudflare { api_token: String },
    Aliyun { access_key_id: String, access_key_secret: String },
    Dnspod { secret_id: String, secret_key: String },
    Huaweicloud { access_key_id: String, secret_access_key: String },
}

/// Whether a raw map holds every field the vendor requires.
pub open spec fn map_complete_for(p: ProviderType, m: Seq<(String, String)>) -> bool {
    match p {
        ProviderType::Cloudflare => lookup(m, "apiToken"@) is Some,
        ProviderType::Aliyun => lookup(m, "accessKeyId"@) is Some && lookup(m, "accessKeySecret"@)
            is Some,
        ProviderType::Dnspod => lookup(m, "secretId"@) is Some && lookup(m, "secretKey"@) is Some,
        ProviderType::Huaweicloud => lookup(m, "accessKeyId"@) is Some && lookup(
            m,
            "secretAccessKey"@,
        ) is Some,
    }
}

/// What a credential value read from a raw map holds, field by field, in terms of
/// the raw map.
pub open spec fn creds_match_map(
    p: ProviderType,
    m: Seq<(String, String)>,
    c: ProviderCredentials,
) -> bool {
    match p {
        ProviderType::Cloudflare => c matches ProviderCredentials::Cloudflare { api_token }
            && Some(api_token@) == lookup(m, "apiToken"@),
        ProviderType::Aliyun => c matches ProviderCredentials::Aliyun {
            access_key_id,
            access_key_secret,
        } && Some(access_key_id@) == lookup(m, "accessKeyId"@) && Some(access_key_secret@)
            == lookup(m, "accessKeySecret"@),
        ProviderType::Dnspod => c matches ProviderCredentials::Dnspod { secret_id, secret_key }
            && Some(secret_id@) == lookup(m, "secretId"@) && Some(secret_key@) == lookup(
            m,
            "secretKey"@,
        ),
        ProviderType::Huaweicloud => c matches ProviderCredentials::Huaweicloud {
            access_key_id,
            secret_access_key,
        } && Some(access_key_id@) == lookup(m, "accessKeyId"@) && Some(secret_access_key@)
            == lookup(m, "secretAccessKey"@),
    }
}

/// The message naming the first missing field, when one is missing.
pub open spec fn missing_field_msg(p: ProviderType, m: Seq<(String, String)>) -> Seq<char> {
    match p {
        ProviderType::Cloudflare => "Missing field: apiToken"@,
        ProviderType::Aliyun => if lookup(m, "accessKeyId"@) is None {
            "Missing field: accessKeyId"@
        } else {
            "Missing field: accessKeySecret"@
        },
        ProviderType::Dnspod => if lookup(m, "secretId"@) is None {
            "Missing field: secretId"@
        } else {
            "Missing field: secretKey"@
        },
        ProviderType::Huaweicloud => if lookup(m, "accessKeyId"@) is None {
            "Missing field: accessKeyId"@
        } else {
            "Missing field: secretAccessKey"@
        },
    }
}

impl ProviderCredentials {
    /// Translate a raw key/value map into the vendor's tagged variant;
    /// reject the map, naming the missing field, when a required secret is
    /// absent.
    pub fn from_map(provider: &ProviderType, m: &CredMap) -> (r: Result<
        ProviderCredentials,
        String,
    >)
        ensures
            (r is Ok) == map_complete_for(*provider, m@),
            r matches Ok(c) ==> creds_match_map(*provider, m@, c),
            r matches Err(e) ==> e@ == missing_field_msg(*provider, m@),
    {
        match provider {
            ProviderType::Cloudflare => {
                match cred_get(m, "apiToken") {
                    Some(api_token) => Ok(ProviderCredentials::Cloudflare { api_token }),
                    None => Err(String::from_str("Missing field: apiToken")),
                }
            },
            ProviderType::Aliyun => {
                let id = match cred_get(m, "accessKeyId") {
                    Some(v) => v,
                    None => {
                        return Err(String::from_str("Missing field: accessKeyId"));
                    },
                };
                let secret = match cred_get(m, "accessKeySecret") {
                    Some(v) => v,
                    None => {
                        return Err(String::from_str("Missing field: accessKeySecret"));
                    },
                };
                Ok(ProviderCredentials::Aliyun { access_key_id: id, access_key_secret: secret })
            },
            ProviderType::Dnspod => {
                let id = match cred_get(m, "secretId") {
                    Some(v) => v,
                    None => {
                        return Err(String::from_str("Missing field: secretId"));
                    },
                };
                let key = match cred_get(m, "secretKey") {
                    Some(v) => v,
                    None => {
                        return Err(String::from_str("Missing field: secretKey"));
                    },
                };
                Ok(ProviderCredentials::Dnspod { secret_id: id, secret_key: key })
            },
            ProviderType::Huaweicloud => {
                let id = match cred_get(m, "accessKeyId") {
                    Some(v) => v,
                    None => {
                        return Err(String::from_str("Missing field: accessKeyId"));
                    },
                };
                let key = match cred_get(m, "secretAccessKey") {
                    Some(v) => v,
                    None => {
                        return Err(String::from_str("Missing field: secretAccessKey"));
                    },
                };
                Ok(ProviderCredentials::Huaweicloud { access_key_id: id, secret_access_key: key })
            },
        }
    }

    /// The vendor a credential value belongs to.
    pub fn provider_type(&self) -> (r: ProviderType)
        ensures
            r == creds_provider(*self),
    {
        match self {
            ProviderCredentials::Cloudflare { .. } => ProviderType::Cloudflare,
            ProviderCredentials::Aliyun { .. } => ProviderType::Aliyun,
            ProviderCredentials::Dnspod { .. } => ProviderType::Dnspod,
            ProviderCredentials::Huaweicloud { .. } => ProviderType::Huaweicloud,
        }
    }
}

/// The vendor a credential value belongs to.
pub open spec fn creds_provider(c: ProviderCredentials) -> ProviderType {
    match c {
        ProviderCredentials::Cloudflare { .. } => ProviderType::Cloudflare,
        ProviderCredentials::Aliyun { .. } => ProviderType::Aliyun,
        ProviderCredentials::Dnspod { .. } => ProviderType::Dnspod,
        ProviderCredentials::Huaweicloud { .. } => ProviderType::Huaweicloud,
    }
}

/// A live vendor adapter: one variant per vendor, each bound to that
/// vendor's credentials.
#[derive(Debug)]
pub enum ProviderInstance {
    Cloudflare(CloudflareProvider),
    Aliyun(AliyunProvider),
    Dnspod(DnspodProvider),
    Huaweicloud(HuaweicloudProvider),
}

/// What the adapter built from a credential value holds.
pub open spec fn instance_matches_creds(inst: ProviderInstance, c: ProviderCredentials) -> bool {
    match c {
        ProviderCredentials::Cloudflare { api_token } => inst matches ProviderInstance::Cloudflare(
            p,
        ) && p.api_token@ == api_token@,
        ProviderCredentials::Aliyun { access_key_id, access_key_secret } => inst
            matches ProviderInstance::Aliyun(p) && p.access_key_id@ == access_key_id@
            && p.access_key_secret@ == access_key_secret@,
        ProviderCredentials::Dnspod { secret_id, secret_key } => inst
            matches ProviderInstance::Dnspod(p) && p.secret_id@ == secret_id@ && p.secret_key@
            == secret_key@,
        ProviderCredentials::Huaweicloud { access_key_id, secret_access_key } => inst
            matches ProviderInstance::Huaweicloud(p) && p.access_key_id@ == access_key_id@
            && p.secret_access_key@ == secret_access_key@,
    }
}

/// Build the live adapter for a credential value. Every vendor in the
/// closed set is constructible, so this always succeeds.
pub fn create_provider(credentials: ProviderCredentials) -> (r: Result<
    ProviderInstance,
    crate::errors::ProviderError,
>)
    ensures
        r matches Ok(inst) && instance_matches_creds(inst, credentials),
{
    match credentials {
        ProviderCredentials::Cloudflare { api_token } => Ok(
            ProviderInstance::Cloudflare(CloudflareProvider::new(api_token)),
        ),
        ProviderCredentials::Aliyun { access_key_id, access_key_secret } => Ok(
            ProviderInstance::Aliyun(AliyunProvider::new(access_key_id, access_key_secret)),
        ),
        ProviderCredentials::Dnspod { secret_id, secret_key } => Ok(
            ProviderInstance::Dnspod(DnspodProvider::new(secret_id, secret_key)),
        ),
        ProviderCredentials::Huaweicloud { access_key_id, secret_access_key } => Ok(
            ProviderInstance::Huaweicloud(
                HuaweicloudProvider::new(access_key_id, secret_access_key),
            ),
        ),
    }
}

} // verus!
