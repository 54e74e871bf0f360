//! Aliyun adapter: ACS3-HMAC-SHA256 request signing over an RPC-style
//! query string, the prepared-request frame, and the response envelope
//! decision.
//!
//! The canonical request is `POST\n/\nquery\nheaders\nsigned-names\n
//! SHA256(empty body)`; the string to sign prefixes the hex SHA-256 of the
//! canonical request with the scheme name; the signature is the hex
//! HMAC-SHA256 of that string under the account secret.

use vstd::prelude::*;

use crate::error_map::{aliyun_kind, aliyun_map_error, mapped_fault};
use crate::errors::ProviderError;
use crate::hexutil::hex_chars_of;
use crate::hexutil::hex_string;
use crate::hmacsha::{hmac_sha256, hmac_sha256_of};
use crate::primitives::{ascii_to_string, chars_of_bytes, sha256, sha256_of};
use crate::provider_api::{ErrorContext, HttpMethod, PreparedRequest, RawApiError};
use vstd::string::StrSliceExecFns;
use vstd::string::StringExecFns;
use vstd::string::StringSliceAdditionalSpecFns;
use vstd::utf8::encode_utf8;

verus! {

/// Aliyun DNS API endpoint host.
pub const ALIYUN_DNS_HOST: &'static str = "alidns.aliyuncs.com";

/// Aliyun DNS API version carried in the signed headers.
pub const ALIYUN_DNS_VERSION: &'static str = "2015-01-09";

/// Hex SHA-256 of the empty request body.
pub const EMPTY_BODY_SHA256: &'static str =
    "e3b0c44298fc1c149afbf4c8996fb92427ae41e4649b934ca495991b7852b855";

/// The header names signed on every aliyun request, in order.
pub const ALIYUN_SIGNED_HEADERS: &'static str =
    "host;x-acs-action;x-acs-content-sha256;x-acs-date;x-acs-signature-nonce;x-acs-version";

/// True for RFC 3986 unreserved bytes, which percent-encoding keeps as-is.
pub open spec fn is_unreserved(b: u8) -> bool {
    (0x41 <= b && b <= 0x5a) || (0x61 <= b && b <= 0x7a) || (0x30 <= b && b <= 0x39) || b == 0x2d
        || b == 0x2e || b == 0x5f || b == 0x7e
}

/// The ASCII byte of the uppercase hex digit for a nibble value below 16.
pub open spec fn upper_hex_digit(n: u8) -> u8 {
    if n < 10 {
        (0x30 + n) as u8
    } else {
        (0x37 + n) as u8
    }
}

/// The percent-encoding of one byte.
pub open spec fn pct_byte(b: u8) -> Seq<u8> {
    if is_unreserved(b) {
        seq![b]
    } else {
        seq![0x25u8, upper_hex_digit(b / 16), upper_hex_digit(b % 16)]
    }
}

/// The percent-encoding of a byte sequence.
pub open spec fn pct_bytes(s: Seq<u8>) -> Seq<u8>
    decreases s.len(),
{
    if s.len() == 0 {
        Seq::empty()
    } else {
        pct_bytes(s.drop_last()) + pct_byte(s.last())
    }
}

proof fn lemma_pct_bytes_ascii(s: Seq<u8>)
    ensures
        forall|i: int| 0 <= i < pct_bytes(s).len() ==> pct_bytes(s)[i] < 128,
    decreases s.len(),
{
    if s.len() > 0 {
        lemma_pct_bytes_ascii(s.drop_last());
        let head = pct_bytes(s.drop_last());
        let tail = pct_byte(s.last());
        assert(pct_bytes(s) == head + tail);
        assert(forall|i: int| 0 <= i < tail.len() ==> tail[i] < 128);
        assert forall|i: int| 0 <= i < pct_bytes(s).len() implies pct_bytes(s)[i] < 128 by {
            if i < head.len() {
                assert(pct_bytes(s)[i] == head[i]);
            } else {
                assert(pct_bytes(s)[i] == tail[i - head.len()]);
            }
        }
    }
}

/// Percent-encode a byte slice.
fn pct_encode_into(out: &mut Vec<u8>, s: &[u8])
    ensures
        final(out)@ == old(out)@ + pct_bytes(s@),
{
    let ghost base = out@;
    let n = s.len();
    for i in 0..n
        invariant
            n == s@.len(),
            out@ == base + pct_bytes(s@.take(i as int)),
    {
        let b = s[i];
        if (0x41 <= b && b <= 0x5a) || (0x61 <= b && b <= 0x7a) || (0x30 <= b && b <= 0x39) || b
            == 0x2d || b == 0x2e || b == 0x5f || b == 0x7e {
            out.push(b);
        } else {
            let hi = b / 16;
            let lo = b % 16;
            out.push(0x25);
            out.push(if hi < 10 { 0x30 + hi } else { 0x37 + hi });
            out.push(if lo < 10 { 0x30 + lo } else { 0x37 + lo });
        }
        proof {
            let t = s@.take(i + 1);
            assert(t.drop_last() =~= s@.take(i as int));
            assert(t.last() == s@[i as int]);
            assert(out@ =~= base + pct_bytes(t));
        }
    }
    proof {
        assert(s@.take(n as int) =~= s@);
    }
}

/// The percent-encoded `key=value` bytes of one parameter.
pub open spec fn param_pair_bytes(key: Seq<char>, value: Seq<char>) -> Seq<u8> {
    pct_bytes(encode_utf8(key)) + seq![0x3du8] + pct_bytes(encode_utf8(value))
}

/// The query-string bytes of a parameter list: `k=v` pairs joined by `&`,
/// in the order given.
pub open spec fn query_bytes_of(params: Seq<(String, String)>) -> Seq<u8>
    decreases params.len(),
{
    if params.len() == 0 {
        Seq::empty()
    } else if params.len() == 1 {
        param_pair_bytes(params[0].0@, params[0].1@)
    } else {
        query_bytes_of(params.drop_last()) + seq![0x26u8] + param_pair_bytes(
            params.last().0@,
            params.last().1@,
        )
    }
}

proof fn lemma_query_bytes_ascii(params: Seq<(String, String)>)
    ensures
        forall|i: int| 0 <= i < query_bytes_of(params).len() ==> query_bytes_of(params)[i] < 128,
    decreases params.len(),
{
    if params.len() == 0 {
    } else if params.len() == 1 {
        lemma_pct_bytes_ascii(encode_utf8(params[0].0@));
        lemma_pct_bytes_ascii(encode_utf8(params[0].1@));
        let whole = query_bytes_of(params);
        let a = pct_bytes(encode_utf8(params[0].0@));
        let b = pct_bytes(encode_utf8(params[0].1@));
        assert(whole == a + seq![0x3du8] + b);
        assert forall|i: int| 0 <= i < whole.len() implies whole[i] < 128 by {
            if i < a.len() {
                assert(whole[i] == a[i]);
            } else if i == a.len() {
                assert(whole[i] == 0x3du8);
            } else {
                assert(whole[i] == b[i - a.len() - 1]);
            }
        }
    } else {
        lemma_query_bytes_ascii(params.drop_last());
        lemma_query_bytes_ascii(seq![params.last()]);
        let head = query_bytes_of(params.drop_last());
        let pair = param_pair_bytes(params.last().0@, params.last().1@);
        assert(query_bytes_of(seq![params.last()]) == pair);
        assert(query_bytes_of(params) == head + seq![0x26u8] + pair);
        assert forall|i: int| 0 <= i < query_bytes_of(params).len() implies query_bytes_of(
            params,
        )[i] < 128 by {
            if i < head.len() {
                assert(query_bytes_of(params)[i] == head[i]);
            } else if i == head.len() {
                assert(query_bytes_of(params)[i] == 0x26u8);
            } else {
                assert(query_bytes_of(params)[i] == pair[i - head.len() - 1]);
            }
        }
    }
}

/// Serialize a parameter list into a percent-encoded query string, keeping
/// the given parameter order.
pub fn serialize_to_query_string(params: &Vec<(String, String)>) -> (r: String)
    ensures
        r@ == chars_of_bytes(query_bytes_of(params@)),
{
    let mut out: Vec<u8> = Vec::new();
    let n = params.len();
    for i in 0..n
        invariant
            n == params@.len(),
            out@ == query_bytes_of(params@.take(i as int)),
    {
        if i > 0 {
            out.push(0x26);
        }
        pct_encode_into(&mut out, params[i].0.as_str().as_bytes());
        out.push(0x3d);
        pct_encode_into(&mut out, params[i].1.as_str().as_bytes());
        proof {
            let t = params@.take(i + 1);
            assert(t.drop_last() =~= params@.take(i as int));
            assert(t.last() == params@[i as int]);
            if i == 0 {
                assert(out@ =~= query_bytes_of(t));
            } else {
                assert(out@ =~= query_bytes_of(t));
            }
        }
    }
    proof {
        assert(params@.take(n as int) =~= params@);
        lemma_query_bytes_ascii(params@);
    }
    ascii_to_string(out)
}

/// The canonical headers block of an aliyun request.
pub open spec fn acs3_canonical_headers(
    action: Seq<char>,
    timestamp: Seq<char>,
    nonce: Seq<char>,
) -> Seq<char> {
    "host:alidns.aliyuncs.com\nx-acs-action:"@ + action + "\nx-acs-content-sha256:"@
        + EMPTY_BODY_SHA256@ + "\nx-acs-date:"@ + timestamp + "\nx-acs-signature-nonce:"@ + nonce
        + "\nx-acs-version:2015-01-09\n"@
}

/// The canonical request: RPC style, parameters in the query string, empty
/// body.
pub open spec fn acs3_canonical_request(
    action: Seq<char>,
    query_string: Seq<char>,
    timestamp: Seq<char>,
    nonce: Seq<char>,
) -> Seq<char> {
    "POST\n/\n"@ + query_string + "\n"@ + acs3_canonical_headers(action, timestamp, nonce) + "\n"@
        + ALIYUN_SIGNED_HEADERS@ + "\n"@ + EMPTY_BODY_SHA256@
}

/// The string to sign: the scheme name over the hex SHA-256 of the
/// canonical request.
pub open spec fn acs3_string_to_sign(
    action: Seq<char>,
    query_string: Seq<char>,
    timestamp: Seq<char>,
    nonce: Seq<char>,
) -> Seq<char> {
    "ACS3-HMAC-SHA256\n"@ + hex_chars_of(
        sha256_of(encode_utf8(acs3_canonical_request(action, query_string, timestamp, nonce))),
    )
}

/// The hex HMAC-SHA256 signature of the string to sign under the secret.
pub open spec fn acs3_signature(
    secret: Seq<char>,
    action: Seq<char>,
    query_string: Seq<char>,
    timestamp: Seq<char>,
    nonce: Seq<char>,
) -> Seq<char> {
    hex_chars_of(
        hmac_sha256_of(
            encode_utf8(secret),
            encode_utf8(acs3_string_to_sign(action, query_string, timestamp, nonce)),
        ),
    )
}

/// The Authorization header value for an aliyun request.
pub open spec fn acs3_authorization(
    access_key_id: Seq<char>,
    secret: Seq<char>,
    action: Seq<char>,
    query_string: Seq<char>,
    timestamp: Seq<char>,
    nonce: Seq<char>,
) -> Seq<char> {
    "ACS3-HMAC-SHA256 Credential="@ + access_key_id + ",SignedHeaders="@ + ALIYUN_SIGNED_HEADERS@
        + ",Signature="@ + acs3_signature(secret, action, query_string, timestamp, nonce)
}

/// Aliyun adapter handle, bound to one account's key pair.
#[derive(Debug)]
pub struct AliyunProvider {
    pub access_key_id: String,
    pub access_key_secret: String,
}

impl AliyunProvider {
    /// Bind an adapter to an access-key pair.
    pub fn new(access_key_id: String, access_key_secret: String) -> (r: AliyunProvider)
        ensures
            r.access_key_id@ == access_key_id@,
            r.access_key_secret@ == access_key_secret@,
    {
        AliyunProvider { access_key_id, access_key_secret }
    }

    /// Compute the ACS3-HMAC-SHA256 Authorization header for a request:
    /// fixed inputs give one reproducible signature.
    pub fn sign(&self, action: &str, query_string: &str, timestamp: &str, nonce: &str) -> (r:
        String)
        ensures
            r@ == acs3_authorization(
                self.access_key_id@,
                self.access_key_secret@,
                action@,
                query_string@,
                timestamp@,
                nonce@,
            ),
    {
        let mut canonical = String::new();
        canonical.append("POST\n/\n");
        canonical.append(query_string);
        canonical.append("\n");
        canonical.append("host:alidns.aliyuncs.com\nx-acs-action:");
        canonical.append(action);
        canonical.append("\nx-acs-content-sha256:");
        canonical.append(EMPTY_BODY_SHA256);
        canonical.append("\nx-acs-date:");
        canonical.append(timestamp);
        canonical.append("\nx-acs-signature-nonce:");
        canonical.append(nonce);
        canonical.append("\nx-acs-version:2015-01-09\n");
        canonical.append("\n");
        canonical.append(ALIYUN_SIGNED_HEADERS);
        canonical.append("\n");
        canonical.append(EMPTY_BODY_SHA256);
        proof {
            assert(canonical@ =~= acs3_canonical_request(
                action@,
                query_string@,
                timestamp@,
                nonce@,
            ));
        }
        let hashed = hex_string(sha256(canonical.as_str().as_bytes()).as_slice());
        let mut string_to_sign = String::new();
        string_to_sign.append("ACS3-HMAC-SHA256\n");
        string_to_sign.append(hashed.as_str());
        proof {
            assert(string_to_sign@ =~= acs3_string_to_sign(
                action@,
                query_string@,
                timestamp@,
                nonce@,
            ));
        }
        let tag = hmac_sha256(
            self.access_key_secret.as_str().as_bytes(),
            string_to_sign.as_str().as_bytes(),
        );
        let signature = hex_string(tag.as_slice());
        let mut auth = String::new();
        auth.append("ACS3-HMAC-SHA256 Credential=");
        auth.append(self.access_key_id.as_str());
        auth.append(",SignedHeaders=");
        auth.append(ALIYUN_SIGNED_HEADERS);
        auth.append(",Signature=");
        auth.append(signature.as_str());
        proof {
            assert(auth@ =~= acs3_authorization(
                self.access_key_id@,
                self.access_key_secret@,
                action@,
                query_string@,
                timestamp@,
                nonce@,
            ));
        }
        auth
    }

    /// Frame one RPC request: parameters in the query string, empty body,
    /// the signed headers and the Authorization header attached. The caller
    /// supplies the UTC timestamp and the per-call nonce.
    pub fn build_request(&self, action: &str, query_string: &str, timestamp: &str, nonce: &str) -> (
        r: PreparedRequest)
        ensures
            r.method == HttpMethod::Post,
            query_string@.len() == 0 ==> r.url@ == "https://alidns.aliyuncs.com/"@,
            query_string@.len() > 0 ==> r.url@ == "https://alidns.aliyuncs.com/?"@
                + query_string@,
            r.body is None,
            r.headers@.len() == 7,
            r.headers@[0].0@ == "Host"@ && r.headers@[0].1@ == ALIYUN_DNS_HOST@,
            r.headers@[1].0@ == "x-acs-action"@ && r.headers@[1].1@ == action@,
            r.headers@[2].0@ == "x-acs-version"@ && r.headers@[2].1@ == ALIYUN_DNS_VERSION@,
            r.headers@[3].0@ == "x-acs-date"@ && r.headers@[3].1@ == timestamp@,
            r.headers@[4].0@ == "x-acs-signature-nonce"@ && r.headers@[4].1@ == nonce@,
            r.headers@[5].0@ == "x-acs-content-sha256"@ && r.headers@[5].1@
                == EMPTY_BODY_SHA256@,
            r.headers@[6].0@ == "Authorization"@,
            r.headers@[6].1@ == acs3_authorization(
                self.access_key_id@,
                self.access_key_secret@,
                action@,
                query_string@,
                timestamp@,
                nonce@,
            ),
    {
        let authorization = self.sign(action, query_string, timestamp, nonce);
        let mut url = String::new();
        if query_string.unicode_len() == 0 {
            url.append("https://alidns.aliyuncs.com/");
        } else {
            url.append("https://alidns.aliyuncs.com/?");
            url.append(query_string);
        }
        let mut headers: Vec<(String, String)> = Vec::new();
        headers.push((String::from_str("Host"), String::from_str(ALIYUN_DNS_HOST)));
        headers.push((String::from_str("x-acs-action"), String::from_str(action)));
        headers.push((String::from_str("x-acs-version"), String::from_str(ALIYUN_DNS_VERSION)));
        headers.push((String::from_str("x-acs-date"), String::from_str(timestamp)));
        headers.push((String::from_str("x-acs-signature-nonce"), String::from_str(nonce)));
        headers.push((
            String::from_str("x-acs-content-sha256"),
            String::from_str(EMPTY_BODY_SHA256),
        ));
        headers.push((String::from_str("Authorization"), authorization));
        PreparedRequest { method: HttpMethod::Post, url, headers, body: None }
    }

    /// Decide what a response envelope means: a body carrying both a code
    /// and a message is a vendor fault and maps through the code table;
    /// anything else is left for the success-shape parser.
    pub fn error_from_envelope(
        &self,
        code: Option<String>,
        message: Option<String>,
        context: ErrorContext,
    ) -> (r: Option<ProviderError>)
        ensures
            (r is Some) == (code is Some && message is Some),
            r matches Some(e) ==> ({
                &&& code is Some
                &&& message matches Some(m) && mapped_fault(
                    e,
                    "aliyun"@,
                    aliyun_kind(code),
                    m@,
                    context,
                )
            }),
    {
        match (code, message) {
            (Some(c), Some(m)) => {
                let raw = RawApiError::with_code(c.as_str(), m.as_str());
                proof {
                    assert(raw.code matches Some(rc) && rc@ == c@);
                }
                Some(aliyun_map_error(raw, context))
            },
            (c, m) => None,
        }
    }
}

} // verus!
