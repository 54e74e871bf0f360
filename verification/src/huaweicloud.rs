//! Huawei Cloud adapter: SDK-HMAC-SHA256 signing shared by all four HTTP
//! verbs, the per-verb prepared-request frames, and the non-2xx response
//! decision.
//!
//! Each verb assembles `{headers, path, query, body}` and passes them
//! through one `sign` routine with an ISO-8601-basic UTC timestamp. The
//! caller lists headers in canonical order: sorted by lowercase name.

use vstd::prelude::*;

use crate::error_map::{huaweicloud_kind, huaweicloud_map_error, mapped_fault};
use crate::errors::ProviderError;
use crate::hexutil::{hex_bytes_of, hex_chars_of, hex_string, lemma_hex_bytes_ascii};
use crate::hmacsha::{hmac_sha256, hmac_sha256_of};
use crate::primitives::{ascii_to_string, chars_of_bytes, sha256, sha256_of};
use crate::provider_api::{ErrorContext, HttpMethod, PreparedRequest, RawApiError};
use crate::strutil::{dec_bytes, lower_byte, lower_bytes};
use vstd::string::StrSliceExecFns;
use vstd::string::StringExecFns;
use vstd::string::StringSliceAdditionalSpecFns;
use vstd::utf8::encode_utf8;

verus! {

broadcast use vstd::string::group_string_axioms;

/// Huawei Cloud DNS API endpoint host.
pub const HUAWEICLOUD_DNS_HOST: &'static str = "dns.myhuaweicloud.com";

/// A header list as character sequences: `(name, value)` pairs.
pub type HeaderViews = Seq<(Seq<char>, Seq<char>)>;

/// The views of an executable header list.
pub open spec fn views_of(headers: Seq<(String, String)>) -> HeaderViews {
    headers.map(|_i: int, h: (String, String)| (h.0@, h.1@))
}

/// The canonical-headers block of the first `i` headers: each line is the
/// lowercase name, a colon, the value, and a newline.
pub open spec fn hw_header_lines(hs: HeaderViews, i: int) -> Seq<u8>
    decreases i,
{
    if i <= 0 {
        Seq::empty()
    } else {
        hw_header_lines(hs, i - 1) + lower_bytes(encode_utf8(hs[i - 1].0)) + seq![0x3au8]
            + encode_utf8(hs[i - 1].1) + seq![0x0au8]
    }
}

/// The signed-header names of the first `i` headers: lowercase names
/// joined by semicolons.
pub open spec fn hw_signed_names(hs: HeaderViews, i: int) -> Seq<u8>
    decreases i,
{
    if i <= 0 {
        Seq::empty()
    } else if i == 1 {
        lower_bytes(encode_utf8(hs[0].0))
    } else {
        hw_signed_names(hs, i - 1) + seq![0x3bu8] + lower_bytes(encode_utf8(hs[i - 1].0))
    }
}

/// The canonical path: the request path with a trailing slash added when
/// missing.
pub open spec fn hw_canonical_path(path: Seq<char>) -> Seq<u8> {
    let b = encode_utf8(path);
    if b.len() > 0 && b.last() == 0x2fu8 {
        b
    } else {
        b + seq![0x2fu8]
    }
}

/// The canonical request bytes: verb, path, query, canonical headers,
/// signed names, and the hex SHA-256 of the body.
pub open spec fn hw_canonical_request(
    method: Seq<char>,
    path: Seq<char>,
    query: Seq<char>,
    hs: HeaderViews,
    body: Seq<char>,
) -> Seq<u8> {
    encode_utf8(method) + seq![0x0au8] + hw_canonical_path(path) + seq![0x0au8] + encode_utf8(
        query,
    ) + seq![0x0au8] + hw_header_lines(hs, hs.len() as int) + seq![0x0au8] + hw_signed_names(
        hs,
        hs.len() as int,
    ) + seq![0x0au8] + hex_bytes_of(sha256_of(encode_utf8(body)))
}

/// The string to sign: the scheme name, the timestamp, and the hex
/// SHA-256 of the canonical request.
pub open spec fn hw_string_to_sign(
    timestamp: Seq<char>,
    method: Seq<char>,
    path: Seq<char>,
    query: Seq<char>,
    hs: HeaderViews,
    body: Seq<char>,
) -> Seq<u8> {
    encode_utf8("SDK-HMAC-SHA256\n"@) + encode_utf8(timestamp) + seq![0x0au8] + hex_bytes_of(
        sha256_of(hw_canonical_request(method, path, query, hs, body)),
    )
}

/// The hex HMAC-SHA256 signature of the string to sign under the secret.
pub open spec fn hw_signature(
    secret: Seq<char>,
    timestamp: Seq<char>,
    method: Seq<char>,
    path: Seq<char>,
    query: Seq<char>,
    hs: HeaderViews,
    body: Seq<char>,
) -> Seq<char> {
    hex_chars_of(
        hmac_sha256_of(
            encode_utf8(secret),
            hw_string_to_sign(timestamp, method, path, query, hs, body),
        ),
    )
}

/// The Authorization header value for a huaweicloud request.
pub open spec fn hw_authorization(
    access_key_id: Seq<char>,
    secret: Seq<char>,
    timestamp: Seq<char>,
    method: Seq<char>,
    path: Seq<char>,
    query: Seq<char>,
    hs: HeaderViews,
    body: Seq<char>,
) -> Seq<char> {
    "SDK-HMAC-SHA256 Access="@ + access_key_id + ", SignedHeaders="@ + chars_of_bytes(
        hw_signed_names(hs, hs.len() as int),
    ) + ", Signature="@ + hw_signature(secret, timestamp, method, path, query, hs, body)
}

/// Append the UTF-8 bytes of a string slice.
fn push_str_bytes(out: &mut Vec<u8>, s: &str)
    ensures
        final(out)@ == old(out)@ + encode_utf8(s@),
{
    out.extend_from_slice(s.as_bytes());
}

/// Append the bytewise ASCII lowercase of a string slice's UTF-8 bytes.
fn push_lower_bytes(out: &mut Vec<u8>, s: &str)
    ensures
        final(out)@ == old(out)@ + lower_bytes(encode_utf8(s@)),
{
    let ghost base = out@;
    let bytes = s.as_bytes();
    let n = bytes.len();
    for i in 0..n
        invariant
            n == bytes@.len(),
            bytes@ == encode_utf8(s@),
            out@.len() == base.len() + i,
            out@ == base + lower_bytes(bytes@.take(i as int)),
    {
        let b = bytes[i];
        out.push(if 0x41 <= b && b <= 0x5a {
            b + 0x20
        } else {
            b
        });
        proof {
            assert(out@ =~= base + lower_bytes(bytes@.take(i + 1)));
        }
    }
    proof {
        assert(bytes@.take(n as int) =~= bytes@);
    }
}

/// True when every header name in the list is ASCII.
pub open spec fn ascii_header_names(hs: HeaderViews) -> bool {
    forall|i: int| 0 <= i < hs.len() ==> vstd::utf8::is_ascii_chars(#[trigger] hs[i].0)
}

proof fn lemma_lower_name_ascii(name: Seq<char>)
    requires
        vstd::utf8::is_ascii_chars(name),
    ensures
        forall|k: int|
            0 <= k < lower_bytes(encode_utf8(name)).len() ==> lower_bytes(encode_utf8(name))[k]
                < 128,
{
    vstd::utf8::is_ascii_chars_encode_utf8(name);
    assert forall|k: int|
        0 <= k < lower_bytes(encode_utf8(name)).len() implies lower_bytes(encode_utf8(name))[k]
        < 128 by {
        vstd::utf8::is_ascii_chars_nat_bound(name);
        assert(encode_utf8(name)[k] == name[k] as u8);
        assert((name[k] as nat) < 128);
        assert((name[k] as u8) < 128);
        assert(lower_bytes(encode_utf8(name))[k] == lower_byte(encode_utf8(name)[k]));
    }
}

proof fn lemma_signed_names_ascii(hs: HeaderViews, i: int)
    requires
        ascii_header_names(hs),
        i <= hs.len(),
    ensures
        forall|j: int| 0 <= j < hw_signed_names(hs, i).len() ==> hw_signed_names(hs, i)[j] < 128,
    decreases i,
{
    if i > 0 {
        lemma_signed_names_ascii(hs, i - 1);
        lemma_lower_name_ascii(hs[i - 1].0);
        let low = lower_bytes(encode_utf8(hs[i - 1].0));
        assert forall|j: int|
            0 <= j < hw_signed_names(hs, i).len() implies hw_signed_names(hs, i)[j] < 128 by {
            if i == 1 {
                assert(hw_signed_names(hs, i)[j] == low[j]);
            } else {
                let head = hw_signed_names(hs, i - 1);
                if j < head.len() {
                    assert(hw_signed_names(hs, i)[j] == head[j]);
                } else if j == head.len() {
                    assert(hw_signed_names(hs, i)[j] == 0x3bu8);
                } else {
                    assert(hw_signed_names(hs, i)[j] == low[j - head.len() - 1]);
                }
            }
        }
    }
}

/// Huawei Cloud adapter handle, bound to one account's key pair.
#[derive(Debug)]
pub struct HuaweicloudProvider {
    pub access_key_id: String,
    pub secret_access_key: String,
}

impl HuaweicloudProvider {
    /// Bind an adapter to an access-key pair.
    pub fn new(access_key_id: String, secret_access_key: String) -> (r: HuaweicloudProvider)
        ensures
            r.access_key_id@ == access_key_id@,
            r.secret_access_key@ == secret_access_key@,
    {
        HuaweicloudProvider { access_key_id, secret_access_key }
    }

    /// Compute the SDK-HMAC-SHA256 Authorization header for a request:
    /// fixed inputs give one reproducible signature. Headers are expected
    /// sorted by lowercase name.
    pub fn sign(
        &self,
        method: &str,
        path: &str,
        query: &str,
        headers: &Vec<(String, String)>,
        body: &str,
        timestamp: &str,
    ) -> (r: String)
        requires
            ascii_header_names(views_of(headers@)),
        ensures
            r@ == hw_authorization(
                self.access_key_id@,
                self.secret_access_key@,
                timestamp@,
                method@,
                path@,
                query@,
                views_of(headers@),
                body@,
            ),
    {
        let ghost hs = views_of(headers@);
        let mut canonical: Vec<u8> = Vec::new();
        push_str_bytes(&mut canonical, method);
        canonical.push(0x0a);
        push_str_bytes(&mut canonical, path);
        let path_bytes = path.as_bytes();
        if path_bytes.len() == 0 || path_bytes[path_bytes.len() - 1] != 0x2f {
            canonical.push(0x2f);
        }
        proof {
            assert(canonical@ =~= encode_utf8(method@) + seq![0x0au8] + hw_canonical_path(path@));
        }
        canonical.push(0x0a);
        push_str_bytes(&mut canonical, query);
        canonical.push(0x0a);
        let ghost pre_headers = canonical@;
        let n = headers.len();
        for i in 0..n
            invariant
                n == headers@.len(),
                hs == views_of(headers@),
                canonical@ == pre_headers + hw_header_lines(hs, i as int),
        {
            push_lower_bytes(&mut canonical, headers[i].0.as_str());
            canonical.push(0x3a);
            push_str_bytes(&mut canonical, headers[i].1.as_str());
            canonical.push(0x0a);
            proof {
                assert(hs[i as int] == (headers@[i as int].0@, headers@[i as int].1@));
                assert(canonical@ =~= pre_headers + hw_header_lines(hs, i + 1));
            }
        }
        canonical.push(0x0a);
        let mut signed_names: Vec<u8> = Vec::new();
        for i in 0..n
            invariant
                n == headers@.len(),
                hs == views_of(headers@),
                signed_names@ == hw_signed_names(hs, i as int),
        {
            if i > 0 {
                signed_names.push(0x3b);
            }
            push_lower_bytes(&mut signed_names, headers[i].0.as_str());
            proof {
                assert(hs[i as int] == (headers@[i as int].0@, headers@[i as int].1@));
                assert(signed_names@ =~= hw_signed_names(hs, i + 1));
            }
        }
        canonical.extend_from_slice(signed_names.as_slice());
        canonical.push(0x0a);
        let body_hash = hex_encode_digest(body.as_bytes());
        canonical.extend_from_slice(body_hash.as_slice());
        proof {
            assert(canonical@ =~= hw_canonical_request(method@, path@, query@, hs, body@));
        }
        let mut string_to_sign: Vec<u8> = Vec::new();
        push_str_bytes(&mut string_to_sign, "SDK-HMAC-SHA256\n");
        push_str_bytes(&mut string_to_sign, timestamp);
        string_to_sign.push(0x0a);
        let canonical_hash = hex_encode_digest(canonical.as_slice());
        string_to_sign.extend_from_slice(canonical_hash.as_slice());
        proof {
            assert(string_to_sign@ =~= hw_string_to_sign(
                timestamp@,
                method@,
                path@,
                query@,
                hs,
                body@,
            ));
        }
        let tag = hmac_sha256(self.secret_access_key.as_str().as_bytes(), string_to_sign.as_slice());
        let signature = hex_string(tag.as_slice());
        let mut auth = String::new();
        auth.append("SDK-HMAC-SHA256 Access=");
        auth.append(self.access_key_id.as_str());
        auth.append(", SignedHeaders=");
        proof {
            lemma_signed_names_ascii(hs, hs.len() as int);
        }
        let signed_names_text = ascii_to_string(signed_names);
        auth.append(signed_names_text.as_str());
        auth.append(", Signature=");
        auth.append(signature.as_str());
        proof {
            assert(auth@ =~= hw_authorization(
                self.access_key_id@,
                self.secret_access_key@,
                timestamp@,
                method@,
                path@,
                query@,
                hs,
                body@,
            ));
        }
        auth
    }

    /// Frame a GET request.
    pub fn build_get(&self, path: &str, query: &str, timestamp: &str) -> (r: PreparedRequest)
        ensures
            r.method == HttpMethod::Get,
            query@.len() == 0 ==> r.url@ == "https://dns.myhuaweicloud.com"@ + path@,
            query@.len() > 0 ==> r.url@ == "https://dns.myhuaweicloud.com"@ + path@ + "?"@
                + query@,
            r.body is None,
            r.headers@.len() == 3,
            r.headers@[0].0@ == "Host"@ && r.headers@[0].1@ == HUAWEICLOUD_DNS_HOST@,
            r.headers@[1].0@ == "X-Sdk-Date"@ && r.headers@[1].1@ == timestamp@,
            r.headers@[2].0@ == "Authorization"@,
            r.headers@[2].1@ == hw_authorization(
                self.access_key_id@,
                self.secret_access_key@,
                timestamp@,
                "GET"@,
                path@,
                query@,
                seq![("Host"@, "dns.myhuaweicloud.com"@), ("X-Sdk-Date"@, timestamp@)],
                ""@,
            ),
    {
        let mut headers: Vec<(String, String)> = Vec::new();
        headers.push((String::from_str("Host"), String::from_str(HUAWEICLOUD_DNS_HOST)));
        headers.push((String::from_str("X-Sdk-Date"), String::from_str(timestamp)));
        proof {
            assert(views_of(headers@) =~= seq![
                ("Host"@, "dns.myhuaweicloud.com"@),
                ("X-Sdk-Date"@, timestamp@),
            ]);
            reveal_strlit("Host");
            reveal_strlit("X-Sdk-Date");
            assert(vstd::utf8::is_ascii_chars("Host"@));
            assert(vstd::utf8::is_ascii_chars("X-Sdk-Date"@));
        }
        let authorization = self.sign("GET", path, query, &headers, "", timestamp);
        let mut url = String::new();
        url.append("https://dns.myhuaweicloud.com");
        url.append(path);
        if query.unicode_len() > 0 {
            url.append("?");
            url.append(query);
        }
        headers.push((String::from_str("Authorization"), authorization));
        PreparedRequest { method: HttpMethod::Get, url, headers, body: None }
    }

    /// Frame a POST request carrying a JSON body.
    pub fn build_post(&self, path: &str, body: &str, timestamp: &str) -> (r: PreparedRequest)
        ensures
            r.method == HttpMethod::Post,
            r.url@ == "https://dns.myhuaweicloud.com"@ + path@,
            r.body matches Some(b) && b@ == body@,
            r.headers@.len() == 4,
            r.headers@[0].0@ == "Content-Type"@ && r.headers@[0].1@ == "application/json"@,
            r.headers@[1].0@ == "Host"@ && r.headers@[1].1@ == HUAWEICLOUD_DNS_HOST@,
            r.headers@[2].0@ == "X-Sdk-Date"@ && r.headers@[2].1@ == timestamp@,
            r.headers@[3].0@ == "Authorization"@,
            r.headers@[3].1@ == hw_authorization(
                self.access_key_id@,
                self.secret_access_key@,
                timestamp@,
                "POST"@,
                path@,
                ""@,
                seq![
                    ("Content-Type"@, "application/json"@),
                    ("Host"@, "dns.myhuaweicloud.com"@),
                    ("X-Sdk-Date"@, timestamp@),
                ],
                body@,
            ),
    {
        self.build_with_body(HttpMethod::Post, "POST", path, body, timestamp)
    }

    /// Frame a PUT request carrying a JSON body.
    pub fn build_put(&self, path: &str, body: &str, timestamp: &str) -> (r: PreparedRequest)
        ensures
            r.method == HttpMethod::Put,
            r.url@ == "https://dns.myhuaweicloud.com"@ + path@,
            r.body matches Some(b) && b@ == body@,
            r.headers@.len() == 4,
            r.headers@[0].0@ == "Content-Type"@ && r.headers@[0].1@ == "application/json"@,
            r.headers@[1].0@ == "Host"@ && r.headers@[1].1@ == HUAWEICLOUD_DNS_HOST@,
            r.headers@[2].0@ == "X-Sdk-Date"@ && r.headers@[2].1@ == timestamp@,
            r.headers@[3].0@ == "Authorization"@,
            r.headers@[3].1@ == hw_authorization(
                self.access_key_id@,
                self.secret_access_key@,
                timestamp@,
                "PUT"@,
                path@,
                ""@,
                seq![
                    ("Content-Type"@, "application/json"@),
                    ("Host"@, "dns.myhuaweicloud.com"@),
                    ("X-Sdk-Date"@, timestamp@),
                ],
                body@,
            ),
    {
        self.build_with_body(HttpMethod::Put, "PUT", path, body, timestamp)
    }

    /// Frame a body-carrying request for one verb.
    fn build_with_body(
        &self,
        method: HttpMethod,
        method_name: &str,
        path: &str,
        body: &str,
        timestamp: &str,
    ) -> (r: PreparedRequest)
        ensures
            r.method == method,
            r.url@ == "https://dns.myhuaweicloud.com"@ + path@,
            r.body matches Some(b) && b@ == body@,
            r.headers@.len() == 4,
            r.headers@[0].0@ == "Content-Type"@ && r.headers@[0].1@ == "application/json"@,
            r.headers@[1].0@ == "Host"@ && r.headers@[1].1@ == HUAWEICLOUD_DNS_HOST@,
            r.headers@[2].0@ == "X-Sdk-Date"@ && r.headers@[2].1@ == timestamp@,
            r.headers@[3].0@ == "Authorization"@,
            r.headers@[3].1@ == hw_authorization(
                self.access_key_id@,
                self.secret_access_key@,
                timestamp@,
                method_name@,
                path@,
                ""@,
                seq![
                    ("Content-Type"@, "application/json"@),
                    ("Host"@, "dns.myhuaweicloud.com"@),
                    ("X-Sdk-Date"@, timestamp@),
                ],
                body@,
            ),
    {
        let mut headers: Vec<(String, String)> = Vec::new();
        headers.push((String::from_str("Content-Type"), String::from_str("application/json")));
        headers.push((String::from_str("Host"), String::from_str(HUAWEICLOUD_DNS_HOST)));
        headers.push((String::from_str("X-Sdk-Date"), String::from_str(timestamp)));
        proof {
            assert(views_of(headers@) =~= seq![
                ("Content-Type"@, "application/json"@),
                ("Host"@, "dns.myhuaweicloud.com"@),
                ("X-Sdk-Date"@, timestamp@),
            ]);
            reveal_strlit("Content-Type");
            reveal_strlit("Host");
            reveal_strlit("X-Sdk-Date");
            assert(vstd::utf8::is_ascii_chars("Content-Type"@));
            assert(vstd::utf8::is_ascii_chars("Host"@));
            assert(vstd::utf8::is_ascii_chars("X-Sdk-Date"@));
        }
        let authorization = self.sign(method_name, path, "", &headers, body, timestamp);
        let mut url = String::new();
        url.append("https://dns.myhuaweicloud.com");
        url.append(path);
        headers.push((String::from_str("Authorization"), authorization));
        PreparedRequest { method, url, headers, body: Some(String::from_str(body)) }
    }

    /// Frame a DELETE request.
    pub fn build_delete(&self, path: &str, timestamp: &str) -> (r: PreparedRequest)
        ensures
            r.method == HttpMethod::Delete,
            r.url@ == "https://dns.myhuaweicloud.com"@ + path@,
            r.body is None,
            r.headers@.len() == 3,
            r.headers@[0].0@ == "Host"@ && r.headers@[0].1@ == HUAWEICLOUD_DNS_HOST@,
            r.headers@[1].0@ == "X-Sdk-Date"@ && r.headers@[1].1@ == timestamp@,
            r.headers@[2].0@ == "Authorization"@,
            r.headers@[2].1@ == hw_authorization(
                self.access_key_id@,
                self.secret_access_key@,
                timestamp@,
                "DELETE"@,
                path@,
                ""@,
                seq![("Host"@, "dns.myhuaweicloud.com"@), ("X-Sdk-Date"@, timestamp@)],
                ""@,
            ),
    {
        let mut headers: Vec<(String, String)> = Vec::new();
        headers.push((String::from_str("Host"), String::from_str(HUAWEICLOUD_DNS_HOST)));
        headers.push((String::from_str("X-Sdk-Date"), String::from_str(timestamp)));
        proof {
            assert(views_of(headers@) =~= seq![
                ("Host"@, "dns.myhuaweicloud.com"@),
                ("X-Sdk-Date"@, timestamp@),
            ]);
            reveal_strlit("Host");
            reveal_strlit("X-Sdk-Date");
            assert(vstd::utf8::is_ascii_chars("Host"@));
            assert(vstd::utf8::is_ascii_chars("X-Sdk-Date"@));
        }
        let authorization = self.sign("DELETE", path, "", &headers, "", timestamp);
        let mut url = String::new();
        url.append("https://dns.myhuaweicloud.com");
        url.append(path);
        headers.push((String::from_str("Authorization"), authorization));
        PreparedRequest { method: HttpMethod::Delete, url, headers, body: None }
    }

    /// Decide what a non-2xx response means: a parsed error envelope maps
    /// through the huaweicloud code table; an unreadable body becomes the
    /// fallback fault carrying the raw text.
    pub fn error_from_response(
        &self,
        status: u16,
        envelope: Option<(Option<String>, Option<String>)>,
        body_text: &str,
        context: ErrorContext,
    ) -> (r: Option<ProviderError>)
        requires
            status < 200 || status >= 300,
        ensures
            r is Some,
            envelope matches Some(cm) ==> (r matches Some(e) && mapped_fault(
                e,
                "huaweicloud"@,
                match cm.0 {
                    Some(c) => huaweicloud_kind(Some(c)),
                    None => crate::error_map::FaultKind::Unknown,
                },
                match cm.1 {
                    Some(m) => m@,
                    None => Seq::<char>::empty(),
                },
                context,
            )),
            envelope is None ==> (r matches Some(e)
                && e matches ProviderError::UnknownProviderError { provider: p, raw_message: m }
                && p@ == "huaweicloud"@ && m@ == "HTTP "@ + chars_of_bytes(
                dec_bytes(status as nat),
            ) + ": "@ + body_text@),
    {
        match envelope {
            Some(cm) => {
                let code = match cm.0 {
                    Some(c) => c,
                    None => String::new(),
                };
                let message = match cm.1 {
                    Some(m) => m,
                    None => String::new(),
                };
                let raw = RawApiError::with_code(code.as_str(), message.as_str());
                proof {
                    assert(raw.code matches Some(rc) && rc@ == code@);
                    if cm.0 is None {
                        reveal_strlit("APIGW.0301");
                        reveal_strlit("APIGW.0101");
                        reveal_strlit("DNS.0312");
                        reveal_strlit("DNS.0305");
                        reveal_strlit("DNS.0101");
                        assert("APIGW.0301"@.len() == 10);
                        assert("APIGW.0101"@.len() == 10);
                        assert("DNS.0312"@.len() == 8);
                        assert("DNS.0305"@.len() == 8);
                        assert("DNS.0101"@.len() == 8);
                        assert(huaweicloud_kind(raw.code) == crate::error_map::FaultKind::Unknown);
                    }
                }
                Some(huaweicloud_map_error(raw, context))
            },
            None => {
                let status_text = crate::strutil::u64_to_dec(status as u64);
                let mut msg = String::new();
                msg.append("HTTP ");
                msg.append(status_text.as_str());
                msg.append(": ");
                msg.append(body_text);
                proof {
                    assert(msg@ =~= "HTTP "@ + chars_of_bytes(dec_bytes(status as nat)) + ": "@
                        + body_text@);
                }
                Some(
                    ProviderError::UnknownProviderError {
                        provider: String::from_str("huaweicloud"),
                        raw_message: msg,
                    },
                )
            },
        }
    }
}

/// Hex-encode the SHA-256 digest of `data` as ASCII bytes.
fn hex_encode_digest(data: &[u8]) -> (r: Vec<u8>)
    ensures
        r@ == hex_bytes_of(sha256_of(data@)),
{
    let digest = sha256(data);
    crate::hexutil::hex_encode_bytes(digest.as_slice())
}

} // verus!
