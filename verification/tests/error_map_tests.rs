use dns_orchestrator::error_map::{
    aliyun_map_error, cloudflare_map_error, dnspod_map_error, huaweicloud_map_error,
};
use dns_orchestrator::provider_api::{ErrorContext, RawApiError};
use dns_orchestrator::ProviderError;

fn raw(code: &str) -> RawApiError {
    RawApiError::with_code(code, "raw vendor message")
}

#[test]
fn aliyun_codes_map_to_the_taxonomy() {
    for code in ["InvalidAccessKeyId.NotFound", "SignatureDoesNotMatch"] {
        match aliyun_map_error(raw(code), ErrorContext::empty()) {
            ProviderError::InvalidCredentials { provider, raw_message } => {
                assert_eq!(provider, "aliyun");
                assert_eq!(raw_message.as_deref(), Some("raw vendor message"));
            }
            other => panic!("{code}: unexpected {other:?}"),
        }
    }
    match aliyun_map_error(raw("DomainRecordDuplicate"), ErrorContext::for_record_name("www")) {
        ProviderError::RecordExists { provider, record_name, .. } => {
            assert_eq!(provider, "aliyun");
            assert_eq!(record_name, "www");
        }
        other => panic!("unexpected {other:?}"),
    }
    for code in ["DomainRecordNotBelongToUser", "InvalidRecordId.NotFound"] {
        match aliyun_map_error(raw(code), ErrorContext::for_record_id("r1")) {
            ProviderError::RecordNotFound { record_id, .. } => assert_eq!(record_id, "r1"),
            other => panic!("{code}: unexpected {other:?}"),
        }
    }
    match aliyun_map_error(raw("InvalidDomainName.NoExist"), ErrorContext::for_domain("e.com")) {
        ProviderError::DomainNotFound { domain, .. } => assert_eq!(domain, "e.com"),
        other => panic!("unexpected {other:?}"),
    }
}

#[test]
fn cloudflare_codes_map_to_the_taxonomy() {
    for code in ["9109", "10000"] {
        match cloudflare_map_error(raw(code), ErrorContext::empty()) {
            ProviderError::InvalidCredentials { provider, .. } => assert_eq!(provider, "cloudflare"),
            other => panic!("{code}: unexpected {other:?}"),
        }
    }
    match cloudflare_map_error(raw("81057"), ErrorContext::for_record_name("www")) {
        ProviderError::RecordExists { record_name, .. } => assert_eq!(record_name, "www"),
        other => panic!("unexpected {other:?}"),
    }
    match cloudflare_map_error(raw("81044"), ErrorContext::for_record_id("r1")) {
        ProviderError::RecordNotFound { record_id, .. } => assert_eq!(record_id, "r1"),
        other => panic!("unexpected {other:?}"),
    }
    match cloudflare_map_error(raw("7003"), ErrorContext::for_domain("e.com")) {
        ProviderError::DomainNotFound { domain, .. } => assert_eq!(domain, "e.com"),
        other => panic!("unexpected {other:?}"),
    }
}

#[test]
fn huaweicloud_codes_map_to_the_taxonomy() {
    for code in ["APIGW.0301", "APIGW.0101"] {
        match huaweicloud_map_error(raw(code), ErrorContext::empty()) {
            ProviderError::InvalidCredentials { provider, .. } => {
                assert_eq!(provider, "huaweicloud")
            }
            other => panic!("{code}: unexpected {other:?}"),
        }
    }
    match huaweicloud_map_error(raw("DNS.0312"), ErrorContext::for_record_name("www")) {
        ProviderError::RecordExists { record_name, .. } => assert_eq!(record_name, "www"),
        other => panic!("unexpected {other:?}"),
    }
    match huaweicloud_map_error(raw("DNS.0305"), ErrorContext::for_record_id("r1")) {
        ProviderError::RecordNotFound { record_id, .. } => assert_eq!(record_id, "r1"),
        other => panic!("unexpected {other:?}"),
    }
    match huaweicloud_map_error(raw("DNS.0101"), ErrorContext::for_domain("e.com")) {
        ProviderError::DomainNotFound { domain, .. } => assert_eq!(domain, "e.com"),
        other => panic!("unexpected {other:?}"),
    }
}

#[test]
fn dnspod_codes_map_to_the_taxonomy() {
    for code in ["AuthFailure.SignatureFailure", "AuthFailure.SecretIdNotFound"] {
        match dnspod_map_error(raw(code), ErrorContext::empty()) {
            ProviderError::InvalidCredentials { provider, .. } => assert_eq!(provider, "dnspod"),
            other => panic!("{code}: unexpected {other:?}"),
        }
    }
    match dnspod_map_error(raw("InvalidParameter.DomainRecordExist"), ErrorContext::for_record_name("www")) {
        ProviderError::RecordExists { record_name, .. } => assert_eq!(record_name, "www"),
        other => panic!("unexpected {other:?}"),
    }
    match dnspod_map_error(raw("ResourceNotFound.NoDataOfRecord"), ErrorContext::for_record_id("r1")) {
        ProviderError::RecordNotFound { record_id, .. } => assert_eq!(record_id, "r1"),
        other => panic!("unexpected {other:?}"),
    }
    match dnspod_map_error(raw("InvalidParameter.DomainIdInvalid"), ErrorContext::for_domain("e.com")) {
        ProviderError::DomainNotFound { domain, .. } => assert_eq!(domain, "e.com"),
        other => panic!("unexpected {other:?}"),
    }
}

#[test]
fn undocumented_codes_fall_back_with_the_message_untouched() {
    let message = "A-Message-Nobody-Modified: 訊息";
    for (mapper, vendor) in [
        (aliyun_map_error as fn(RawApiError, ErrorContext) -> ProviderError, "aliyun"),
        (cloudflare_map_error, "cloudflare"),
        (huaweicloud_map_error, "huaweicloud"),
        (dnspod_map_error, "dnspod"),
    ] {
        let fault = mapper(
            RawApiError::with_code("SomeCode.NotInTheTable", message),
            ErrorContext::empty(),
        );
        match fault {
            ProviderError::UnknownProviderError { provider, raw_message } => {
                assert_eq!(provider, vendor);
                assert_eq!(raw_message, message);
            }
            other => panic!("unexpected {other:?}"),
        }
    }
}

#[test]
fn a_missing_code_also_falls_back() {
    let fault = aliyun_map_error(RawApiError::new("boom".to_string()), ErrorContext::empty());
    match fault {
        ProviderError::UnknownProviderError { raw_message, .. } => assert_eq!(raw_message, "boom"),
        other => panic!("unexpected {other:?}"),
    }
}

#[test]
fn missing_context_fields_stay_empty() {
    match aliyun_map_error(raw("DomainRecordDuplicate"), ErrorContext::empty()) {
        ProviderError::RecordExists { record_name, .. } => assert_eq!(record_name, ""),
        other => panic!("unexpected {other:?}"),
    }
}

#[test]
fn envelope_decisions_route_to_the_mappers() {
    let aliyun = dns_orchestrator::aliyun::AliyunProvider::new("i".into(), "s".into());
    assert!(aliyun
        .error_from_envelope(None, Some("msg".to_string()), ErrorContext::empty())
        .is_none());
    assert!(aliyun
        .error_from_envelope(
            Some("SignatureDoesNotMatch".to_string()),
            Some("bad".to_string()),
            ErrorContext::empty()
        )
        .is_some());

    let dnspod = dns_orchestrator::dnspod::DnspodProvider::new("i".into(), "s".into());
    assert!(dnspod.error_from_envelope(None, ErrorContext::empty()).is_none());

    let hw = dns_orchestrator::huaweicloud::HuaweicloudProvider::new("i".into(), "s".into());
    let fault = hw.error_from_response(403, None, "denied", ErrorContext::empty());
    match fault {
        Some(ProviderError::UnknownProviderError { raw_message, .. }) => {
            assert_eq!(raw_message, "HTTP 403: denied")
        }
        other => panic!("unexpected {other:?}"),
    }

    let cf = dns_orchestrator::cloudflare::CloudflareProvider::new("t".into());
    assert!(cf.error_from_envelope(true, None, ErrorContext::empty()).is_none());
    match cf.error_from_envelope(false, Some((10000, "denied".to_string())), ErrorContext::empty())
    {
        Some(ProviderError::InvalidCredentials { provider, .. }) => {
            assert_eq!(provider, "cloudflare")
        }
        other => panic!("unexpected {other:?}"),
    }
}
