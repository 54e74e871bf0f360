//! DNSPod (Tencent Cloud) adapter: TC3-HMAC-SHA256 signing keyed by the
//! JSON request body and a Unix timestamp, the prepared-request frame, and
//! the response envelope decision.
//!
//! The derived signing key chains HMAC over the UTC date, the service name
//! and the request scope; the UTC date is computed from the timestamp by
//! the Gregorian calendar rules spelled out here.

use vstd::prelude::*;

use crate::error_map::{dnspod_kind, dnspod_map_error, mapped_fault};
use crate::errors::ProviderError;
use crate::hexutil::{hex_chars_of, hex_string};
use crate::hmacsha::{hmac_sha256, hmac_sha256_of};
use crate::primitives::{ascii_to_string, chars_of_bytes, sha256, sha256_of};
use crate::provider_api::{ErrorContext, HttpMethod, PreparedRequest, RawApiError};
use crate::strutil::u64_to_dec;
use crate::strutil::{dec_bytes, lemma_dec_bytes_ascii, push_dec};
use vstd::string::StrSliceExecFns;
use vstd::string::StringExecFns;
use vstd::string::StringSliceAdditionalSpecFns;
use vstd::utf8::encode_utf8;

verus! {

/// DNSPod API endpoint host.
pub const DNSPOD_API_HOST: &'static str = "dnspod.tencentcloudapi.com";

/// Service name in the TC3 credential scope.
pub const DNSPOD_SERVICE: &'static str = "dnspod";

/// DNSPod API version carried in the headers.
pub const DNSPOD_VERSION: &'static str = "2021-03-23";

/// Gregorian leap-year rule.
pub open spec fn is_leap_year(y: int) -> bool {
    y % 4 == 0 && (y % 100 != 0 || y % 400 == 0)
}

pub open spec fn days_in_year(y: int) -> int {
    if is_leap_year(y) {
        366
    } else {
        365
    }
}

pub open spec fn days_in_month(m: int, y: int) -> int {
    if m == 2 {
        if is_leap_year(y) {
            29
        } else {
            28
        }
    } else if m == 4 || m == 6 || m == 9 || m == 11 {
        30
    } else {
        31
    }
}

/// The year holding the day `days` days after January 1 of `y`, and the
/// zero-based day of that year.
pub open spec fn year_of_days(days: int, y: int) -> (int, int)
    decreases days,
{
    if days < days_in_year(y) {
        (y, days)
    } else {
        year_of_days(days - days_in_year(y), y + 1)
    }
}

/// The month holding the zero-based day `doy` counted from month `m` of
/// year `y`, and the one-based day of that month.
pub open spec fn month_of_doy(doy: int, m: int, y: int) -> (int, int)
    decreases 12 - m,
{
    if m >= 12 || doy < days_in_month(m, y) {
        (m, doy + 1)
    } else {
        month_of_doy(doy - days_in_month(m, y), m + 1, y)
    }
}

/// The civil UTC date of the day `days` days after 1970-01-01.
pub open spec fn civil_of_days(days: int) -> (int, int, int) {
    let yp = year_of_days(days, 1970);
    let mp = month_of_doy(yp.1, 1, yp.0);
    (yp.0, mp.0, mp.1)
}

/// A two-digit zero-padded decimal field.
pub open spec fn pad2_bytes(n: int) -> Seq<u8> {
    seq![(0x30 + ((n / 10) % 10)) as u8, (0x30 + (n % 10)) as u8]
}

/// The `YYYY-MM-DD` spelling of the UTC date of a Unix timestamp.
pub open spec fn date_bytes_of(ts: int) -> Seq<u8> {
    let d = civil_of_days(ts / 86400);
    dec_bytes(d.0 as nat) + seq![0x2du8] + pad2_bytes(d.1) + seq![0x2du8] + pad2_bytes(d.2)
}

/// Days left before the first of month `m`, counting from January 1.
pub open spec fn days_before_month(m: int, y: int) -> int
    decreases m,
{
    if m <= 1 {
        0
    } else {
        days_before_month(m - 1, y) + days_in_month(m - 1, y)
    }
}

proof fn lemma_days_before_month_13(y: int)
    ensures
        days_before_month(13, y) == days_in_year(y),
{
    assert(days_before_month(1, y) == 0);
    assert(days_before_month(2, y) == 31);
    assert(days_before_month(3, y) == 31 + days_in_month(2, y));
    assert(days_before_month(4, y) == 62 + days_in_month(2, y));
    assert(days_before_month(5, y) == 92 + days_in_month(2, y));
    assert(days_before_month(6, y) == 123 + days_in_month(2, y));
    assert(days_before_month(7, y) == 153 + days_in_month(2, y));
    assert(days_before_month(8, y) == 184 + days_in_month(2, y));
    assert(days_before_month(9, y) == 215 + days_in_month(2, y));
    assert(days_before_month(10, y) == 245 + days_in_month(2, y));
    assert(days_before_month(11, y) == 276 + days_in_month(2, y));
    assert(days_before_month(12, y) == 306 + days_in_month(2, y));
    assert(days_before_month(13, y) == 337 + days_in_month(2, y));
}

proof fn lemma_month_of_doy_base(doy: int, m: int, y: int)
    requires
        1 <= m <= 12,
        0 <= doy,
        doy + days_before_month(m, y) < days_in_year(y),
    ensures
        ({
            let r = month_of_doy(doy, m, y);
            &&& 1 <= r.0 <= 12
            &&& 1 <= r.1 <= days_in_month(r.0, y)
        }),
    decreases 12 - m,
{
    if m >= 12 || doy < days_in_month(m, y) {
        if m >= 12 {
            lemma_days_before_month_13(y);
            assert(days_before_month(13, y) == days_before_month(12, y) + days_in_month(12, y));
        }
    } else {
        lemma_month_of_doy_base(doy - days_in_month(m, y), m + 1, y);
    }
}

/// Format the UTC date of a Unix timestamp as `YYYY-MM-DD`.
pub fn format_utc_date(ts: u64) -> (r: String)
    ensures
        r@ == chars_of_bytes(date_bytes_of(ts as int)),
{
    let total_days = ts / 86400;
    proof {
        vstd::arithmetic::div_mod::lemma_div_is_ordered(ts as int, u64::MAX as int, 86400);
        assert(total_days <= u64::MAX / 86400);
    }
    let mut days = total_days;
    let mut y: u64 = 1970;
    loop
        invariant
            total_days <= u64::MAX / 86400,
            1970 <= y,
            y as int <= 1970 + (total_days as int - days as int),
            days <= total_days,
            year_of_days(total_days as int, 1970) == year_of_days(days as int, y as int),
        ensures
            (days as int) < days_in_year(y as int),
        decreases days,
    {
        let diy: u64 = if y % 4 == 0 && (y % 100 != 0 || y % 400 == 0) {
            366
        } else {
            365
        };
        if days < diy {
            break;
        }
        days = days - diy;
        y = y + 1;
    }
    let ghost yp = year_of_days(total_days as int, 1970);
    proof {
        assert(yp == (y as int, days as int));
    }
    let mut doy = days;
    let mut m: u64 = 1;
    loop
        invariant
            1 <= m <= 12,
            1970 <= y,
            doy as int + days_before_month(m as int, y as int) == days as int,
            (days as int) < days_in_year(y as int),
            year_of_days(total_days as int, 1970) == (y as int, days as int),
            month_of_doy(days as int, 1, y as int) == month_of_doy(doy as int, m as int, y as int),
        ensures
            month_of_doy(days as int, 1, y as int) == month_of_doy(doy as int, m as int, y as int),
            1 <= m <= 12,
            m as int >= 12 || (doy as int) < days_in_month(m as int, y as int),
            doy as int + days_before_month(m as int, y as int) == days as int,
            (days as int) < days_in_year(y as int),
            1970 <= y,
            year_of_days(total_days as int, 1970) == (y as int, days as int),
        decreases 12 - m,
    {
        let dim: u64 = days_in_month_exec(m, y);
        if !(m < 12 && doy >= dim) {
            break;
        }
        doy = doy - dim;
        m = m + 1;
    }
    proof {
        lemma_month_of_doy_base(doy as int, m as int, y as int);
        assert(month_of_doy(doy as int, m as int, y as int) == (m as int, doy as int + 1));
    }
    let d = doy + 1;
    let mut out: Vec<u8> = Vec::new();
    push_dec(&mut out, y);
    out.push(0x2d);
    out.push(0x30 + ((m / 10) % 10) as u8);
    out.push(0x30 + (m % 10) as u8);
    out.push(0x2d);
    out.push(0x30 + ((d / 10) % 10) as u8);
    out.push(0x30 + (d % 10) as u8);
    proof {
        lemma_dec_bytes_ascii(y as nat);
        assert(out@ =~= date_bytes_of(ts as int));
    }
    ascii_to_string(out)
}

/// Days in a month, executable form.
fn days_in_month_exec(m: u64, y: u64) -> (r: u64)
    ensures
        r == days_in_month(m as int, y as int),
        28 <= r <= 31,
{
    if m == 2 {
        if y % 4 == 0 && (y % 100 != 0 || y % 400 == 0) {
            29
        } else {
            28
        }
    } else if m == 4 || m == 6 || m == 9 || m == 11 {
        30
    } else {
        31
    }
}

/// The TC3 canonical request for a JSON-body POST: only the content-type
/// and host headers are signed.
pub open spec fn tc3_canonical_request(payload: Seq<char>) -> Seq<char> {
    "POST\n/\n\ncontent-type:application/json; charset=utf-8\nhost:dnspod.tencentcloudapi.com\n\ncontent-type;host\n"@
        + hex_chars_of(sha256_of(encode_utf8(payload)))
}

/// The TC3 string to sign: scheme, timestamp, credential scope, and the
/// hex SHA-256 of the canonical request.
pub open spec fn tc3_string_to_sign(payload: Seq<char>, ts: int) -> Seq<char> {
    "TC3-HMAC-SHA256\n"@ + chars_of_bytes(dec_bytes(ts as nat)) + "\n"@ + chars_of_bytes(
        date_bytes_of(ts),
    ) + "/dnspod/tc3_request\n"@ + hex_chars_of(
        sha256_of(encode_utf8(tc3_canonical_request(payload))),
    )
}

/// The TC3 derived-key signature: HMAC chained over the date, the service
/// and the request scope, then over the string to sign.
pub open spec fn tc3_signature(secret_key: Seq<char>, payload: Seq<char>, ts: int) -> Seq<char> {
    let k_date = hmac_sha256_of(
        encode_utf8("TC3"@ + secret_key),
        encode_utf8(chars_of_bytes(date_bytes_of(ts))),
    );
    let k_service = hmac_sha256_of(k_date, encode_utf8("dnspod"@));
    let k_signing = hmac_sha256_of(k_service, encode_utf8("tc3_request"@));
    hex_chars_of(hmac_sha256_of(k_signing, encode_utf8(tc3_string_to_sign(payload, ts))))
}

/// The Authorization header value for a dnspod request.
pub open spec fn tc3_authorization(
    secret_id: Seq<char>,
    secret_key: Seq<char>,
    payload: Seq<char>,
    ts: int,
) -> Seq<char> {
    "TC3-HMAC-SHA256 Credential="@ + secret_id + "/"@ + chars_of_bytes(date_bytes_of(ts))
        + "/dnspod/tc3_request, SignedHeaders=content-type;host, Signature="@ + tc3_signature(
        secret_key,
        payload,
        ts,
    )
}

/// DNSPod adapter handle, bound to one account's secret pair.
#[derive(Debug)]
pub struct DnspodProvider {
    pub secret_id: String,
    pub secret_key: String,
}

impl DnspodProvider {
    /// Bind an adapter to a secret pair.
    pub fn new(secret_id: String, secret_key: String) -> (r: DnspodProvider)
        ensures
            r.secret_id@ == secret_id@,
            r.secret_key@ == secret_key@,
    {
        DnspodProvider { secret_id, secret_key }
    }

    /// Compute the TC3-HMAC-SHA256 Authorization header for a JSON payload
    /// and timestamp: fixed inputs give one reproducible signature.
    pub fn sign(&self, payload: &str, timestamp: u64) -> (r: String)
        ensures
            r@ == tc3_authorization(self.secret_id@, self.secret_key@, payload@, timestamp as int),
    {
        let date = format_utc_date(timestamp);
        let mut canonical = String::new();
        canonical.append(
            "POST\n/\n\ncontent-type:application/json; charset=utf-8\nhost:dnspod.tencentcloudapi.com\n\ncontent-type;host\n",
        );
        let payload_hash = hex_string(sha256(payload.as_bytes()).as_slice());
        canonical.append(payload_hash.as_str());
        proof {
            assert(canonical@ =~= tc3_canonical_request(payload@));
        }
        let canonical_hash = hex_string(sha256(canonical.as_str().as_bytes()).as_slice());
        let ts_text = u64_to_dec(timestamp);
        let mut string_to_sign = String::new();
        string_to_sign.append("TC3-HMAC-SHA256\n");
        string_to_sign.append(ts_text.as_str());
        string_to_sign.append("\n");
        string_to_sign.append(date.as_str());
        string_to_sign.append("/dnspod/tc3_request\n");
        string_to_sign.append(canonical_hash.as_str());
        proof {
            assert(string_to_sign@ =~= tc3_string_to_sign(payload@, timestamp as int));
        }
        let mut tc3_key = String::new();
        tc3_key.append("TC3");
        tc3_key.append(self.secret_key.as_str());
        proof {
            assert(tc3_key@ =~= "TC3"@ + self.secret_key@);
        }
        let k_date = hmac_sha256(tc3_key.as_str().as_bytes(), date.as_str().as_bytes());
        let k_service = hmac_sha256(k_date.as_slice(), "dnspod".as_bytes());
        let k_signing = hmac_sha256(k_service.as_slice(), "tc3_request".as_bytes());
        let tag = hmac_sha256(k_signing.as_slice(), string_to_sign.as_str().as_bytes());
        let signature = hex_string(tag.as_slice());
        let mut auth = String::new();
        auth.append("TC3-HMAC-SHA256 Credential=");
        auth.append(self.secret_id.as_str());
        auth.append("/");
        auth.append(date.as_str());
        auth.append("/dnspod/tc3_request, SignedHeaders=content-type;host, Signature=");
        auth.append(signature.as_str());
        proof {
            assert(auth@ =~= tc3_authorization(
                self.secret_id@,
                self.secret_key@,
                payload@,
                timestamp as int,
            ));
        }
        auth
    }

    /// Frame one API request: JSON body, action and version in custom
    /// headers, timestamp and Authorization attached. The caller supplies
    /// the Unix timestamp.
    pub fn build_request(&self, action: &str, payload: &str, timestamp: u64) -> (r:
        PreparedRequest)
        ensures
            r.method == HttpMethod::Post,
            r.url@ == "https://dnspod.tencentcloudapi.com"@,
            r.body matches Some(b) && b@ == payload@,
            r.headers@.len() == 6,
            r.headers@[0].0@ == "Content-Type"@ && r.headers@[0].1@
                == "application/json; charset=utf-8"@,
            r.headers@[1].0@ == "Host"@ && r.headers@[1].1@ == DNSPOD_API_HOST@,
            r.headers@[2].0@ == "X-TC-Action"@ && r.headers@[2].1@ == action@,
            r.headers@[3].0@ == "X-TC-Version"@ && r.headers@[3].1@ == DNSPOD_VERSION@,
            r.headers@[4].0@ == "X-TC-Timestamp"@ && r.headers@[4].1@ == chars_of_bytes(
                dec_bytes(timestamp as nat),
            ),
            r.headers@[5].0@ == "Authorization"@,
            r.headers@[5].1@ == tc3_authorization(
                self.secret_id@,
                self.secret_key@,
                payload@,
                timestamp as int,
            ),
    {
        let authorization = self.sign(payload, timestamp);
        let mut headers: Vec<(String, String)> = Vec::new();
        headers.push((
            String::from_str("Content-Type"),
            String::from_str("application/json; charset=utf-8"),
        ));
        headers.push((String::from_str("Host"), String::from_str(DNSPOD_API_HOST)));
        headers.push((String::from_str("X-TC-Action"), String::from_str(action)));
        headers.push((String::from_str("X-TC-Version"), String::from_str(DNSPOD_VERSION)));
        headers.push((String::from_str("X-TC-Timestamp"), u64_to_dec(timestamp)));
        headers.push((String::from_str("Authorization"), authorization));
        PreparedRequest {
            method: HttpMethod::Post,
            url: String::from_str("https://dnspod.tencentcloudapi.com"),
            headers,
            body: Some(String::from_str(payload)),
        }
    }

    /// Decide what a response envelope means: an error member maps through
    /// the dnspod code table; otherwise the data member is the result, and
    /// its absence is a protocol violation the caller reports.
    pub fn error_from_envelope(&self, error: Option<(String, String)>, context: ErrorContext) -> (r:
        Option<ProviderError>)
        ensures
            (r is Some) == (error is Some),
            r matches Some(e) ==> (error matches Some(cm) && mapped_fault(
                e,
                "dnspod"@,
                dnspod_kind(Some(cm.0)),
                cm.1@,
                context,
            )),
    {
        match error {
            Some(cm) => {
                let raw = RawApiError::with_code(cm.0.as_str(), cm.1.as_str());
                proof {
                    assert(raw.code matches Some(rc) && rc@ == cm.0@);
                }
                Some(dnspod_map_error(raw, context))
            },
            None => None,
        }
    }
}

} // verus!
