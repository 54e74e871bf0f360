use dns_orchestrator::aliyun::AliyunProvider;
use dns_orchestrator::cloudflare::CloudflareProvider;
use dns_orchestrator::dnspod::DnspodProvider;
use dns_orchestrator::huaweicloud::HuaweicloudProvider;
use hmac::Mac;

#[test]
fn hmac_sha256_matches_reference_vector() {
    let tag = dns_orchestrator::hmacsha::hmac_sha256(
        b"key",
        b"The quick brown fox jumps over the lazy dog",
    );
    assert_eq!(
        hex::encode(tag),
        "f7bc83f430538424b13298e6aa6fb143ef4d59a14946175997479dbc2d1a3cd8"
    );
}

#[test]
fn hmac_sha256_matches_hmac_crate_on_long_key() {
    let key: Vec<u8> = (0u8..200).collect();
    let msg = b"payload under a key longer than one block";
    let ours = dns_orchestrator::hmacsha::hmac_sha256(&key, msg);
    let mut reference = hmac::Hmac::<sha2::Sha256>::new_from_slice(&key).unwrap();
    reference.update(msg);
    assert_eq!(ours, reference.finalize().into_bytes().to_vec());
}

#[test]
fn aliyun_signature_is_reproducible() {
    let provider = AliyunProvider::new(
        "testAccessKeyId".to_string(),
        "testAccessKeySecret".to_string(),
    );
    let auth = provider.sign(
        "DescribeDomains",
        "PageNumber=1&PageSize=20",
        "2024-01-15T08:30:00Z",
        "3156853b-8a7e-4e1b-8f3a-c9f2d4a5b6c7",
    );
    assert_eq!(
        auth,
        "ACS3-HMAC-SHA256 Credential=testAccessKeyId,SignedHeaders=host;x-acs-action;x-acs-content-sha256;x-acs-date;x-acs-signature-nonce;x-acs-version,Signature=7563fb2f6ccd552c0d6d447c605fffe47de1f098e23f99a728a502ddfc7ca66d"
    );
    let again = provider.sign(
        "DescribeDomains",
        "PageNumber=1&PageSize=20",
        "2024-01-15T08:30:00Z",
        "3156853b-8a7e-4e1b-8f3a-c9f2d4a5b6c7",
    );
    assert_eq!(auth, again);
}

#[test]
fn aliyun_request_frame_carries_signature() {
    let provider = AliyunProvider::new("id".to_string(), "secret".to_string());
    let req = provider.build_request("DescribeDomains", "PageNumber=1", "2024-01-15T08:30:00Z", "n");
    assert_eq!(req.url, "https://alidns.aliyuncs.com/?PageNumber=1");
    assert_eq!(req.headers.len(), 7);
    assert_eq!(req.headers[6].0, "Authorization");
    assert!(req.body.is_none());
    let empty = provider.build_request("DescribeDomains", "", "2024-01-15T08:30:00Z", "n");
    assert_eq!(empty.url, "https://alidns.aliyuncs.com/");
}

#[test]
fn aliyun_query_string_percent_encodes() {
    let params = vec![
        ("DomainName".to_string(), "example.com".to_string()),
        ("RR".to_string(), "www test/+".to_string()),
    ];
    let q = dns_orchestrator::aliyun::serialize_to_query_string(&params);
    assert_eq!(q, "DomainName=example.com&RR=www%20test%2F%2B");
}

#[test]
fn dnspod_signature_is_reproducible() {
    let provider = DnspodProvider::new("testSecretId".to_string(), "testSecretKey".to_string());
    let auth = provider.sign("{\"Domain\":\"example.com\"}", 1705307400);
    assert_eq!(
        auth,
        "TC3-HMAC-SHA256 Credential=testSecretId/2024-01-15/dnspod/tc3_request, SignedHeaders=content-type;host, Signature=c8f03d0393d9a2287322899dfb574f8e0fea5dc38cf10609a63046a2a237aea1"
    );
}

#[test]
fn dnspod_date_formatting_follows_the_calendar() {
    assert_eq!(dns_orchestrator::dnspod::format_utc_date(0), "1970-01-01");
    assert_eq!(dns_orchestrator::dnspod::format_utc_date(86399), "1970-01-01");
    assert_eq!(dns_orchestrator::dnspod::format_utc_date(86400), "1970-01-02");
    assert_eq!(dns_orchestrator::dnspod::format_utc_date(951782400), "2000-02-29");
    assert_eq!(dns_orchestrator::dnspod::format_utc_date(1705307400), "2024-01-15");
    assert_eq!(dns_orchestrator::dnspod::format_utc_date(4107542400), "2100-03-01");
}

#[test]
fn dnspod_request_frame_carries_headers() {
    let provider = DnspodProvider::new("id".to_string(), "key".to_string());
    let req = provider.build_request("DescribeDomainList", "{}", 1705307400);
    assert_eq!(req.url, "https://dnspod.tencentcloudapi.com");
    assert_eq!(req.headers.len(), 6);
    assert_eq!(req.headers[2].1, "DescribeDomainList");
    assert_eq!(req.headers[4].1, "1705307400");
    assert_eq!(req.body.as_deref(), Some("{}"));
}

#[test]
fn huaweicloud_signature_is_reproducible() {
    let provider = HuaweicloudProvider::new(
        "testAccessKey".to_string(),
        "testSecretKey".to_string(),
    );
    let req = provider.build_get("/v2/zones", "limit=10", "20240115T083000Z");
    assert_eq!(req.url, "https://dns.myhuaweicloud.com/v2/zones?limit=10");
    assert_eq!(req.headers[2].0, "Authorization");
    assert_eq!(
        req.headers[2].1,
        "SDK-HMAC-SHA256 Access=testAccessKey, SignedHeaders=host;x-sdk-date, Signature=d9eb0f54ac923d911343fc95dddfdbff2254ca6946712906217dd4d93c08eff3"
    );
}

#[test]
fn huaweicloud_verbs_share_one_signer() {
    let provider = HuaweicloudProvider::new("ak".to_string(), "sk".to_string());
    let post = provider.build_post("/v2/zones", "{\"name\":\"z\"}", "20240115T083000Z");
    assert_eq!(post.headers.len(), 4);
    assert_eq!(post.body.as_deref(), Some("{\"name\":\"z\"}"));
    let put = provider.build_put("/v2/zones/z1", "{}", "20240115T083000Z");
    assert_eq!(put.url, "https://dns.myhuaweicloud.com/v2/zones/z1");
    let del = provider.build_delete("/v2/zones/z1", "20240115T083000Z");
    assert_eq!(del.headers.len(), 3);
    assert!(del.body.is_none());
}

#[test]
fn cloudflare_sends_the_token_verbatim() {
    let provider = CloudflareProvider::new("my-api-token".to_string());
    assert_eq!(provider.auth_header(), "Bearer my-api-token");
    let req = provider.build_request(
        dns_orchestrator::provider_api::HttpMethod::Get,
        "/zones",
        None,
    );
    assert_eq!(req.url, "https://api.cloudflare.com/client/v4/zones");
    assert_eq!(req.headers[0].1, "Bearer my-api-token");
}
