use dns_orchestrator::credentials::{ProviderCredentials, ProviderType};
use dns_orchestrator::misc;
use dns_orchestrator::registry::ProviderRegistry;
use dns_orchestrator::types::DnsRecordType;
use dns_orchestrator::version_check::is_newer_version;

#[test]
fn test_version_comparison() {
    assert!(is_newer_version("1.0.0", "1.0.1"));
    assert!(is_newer_version("1.0.0", "1.1.0"));
    assert!(is_newer_version("1.0.0", "2.0.0"));
    assert!(is_newer_version("v1.0.0", "v1.0.1"));
    assert!(!is_newer_version("1.0.1", "1.0.0"));
    assert!(!is_newer_version("1.0.0", "1.0.0"));
    assert!(is_newer_version("1.0.7", "1.0.8"));
}

#[test]
fn version_components_skip_what_does_not_parse() {
    assert!(is_newer_version("1.0", "1.0.1"));
    assert!(!is_newer_version("1.0.0", "1.0"));
    assert!(is_newer_version("1.beta.0", "1.beta.1"));
}

#[test]
fn record_types_parse_case_insensitively() {
    assert_eq!(misc::parse_record_type("a"), Some(DnsRecordType::A));
    assert_eq!(misc::parse_record_type("AAAA"), Some(DnsRecordType::Aaaa));
    assert_eq!(misc::parse_record_type("cname"), Some(DnsRecordType::Cname));
    assert_eq!(misc::parse_record_type("Mx"), Some(DnsRecordType::Mx));
    assert_eq!(misc::parse_record_type("TXT"), Some(DnsRecordType::Txt));
    assert_eq!(misc::parse_record_type("ns"), Some(DnsRecordType::Ns));
    assert_eq!(misc::parse_record_type("SRV"), Some(DnsRecordType::Srv));
    assert_eq!(misc::parse_record_type("caa"), Some(DnsRecordType::Caa));
    assert_eq!(misc::parse_record_type("SPF"), None);
}

#[test]
fn convert_record_flattens_the_type_label() {
    let info = misc::convert_record(dns_orchestrator::types::DnsRecord {
        id: "r1".to_string(),
        name: "www".to_string(),
        record_type: DnsRecordType::Aaaa,
        value: "::1".to_string(),
        ttl: 600,
        priority: None,
        proxied: Some(true),
    });
    assert_eq!(info.record_type, "Aaaa");
    assert_eq!(info.content, "::1");
}

#[test]
fn credentials_translate_field_by_field() {
    let m = vec![
        ("accessKeyId".to_string(), "id".to_string()),
        ("accessKeySecret".to_string(), "secret".to_string()),
    ];
    match ProviderCredentials::from_map(&ProviderType::Aliyun, &m).unwrap() {
        ProviderCredentials::Aliyun { access_key_id, access_key_secret } => {
            assert_eq!(access_key_id, "id");
            assert_eq!(access_key_secret, "secret");
        }
        _ => panic!("wrong variant"),
    }
    let e = ProviderCredentials::from_map(&ProviderType::Huaweicloud, &m).unwrap_err();
    assert_eq!(e, "Missing field: secretAccessKey");
}

#[test]
fn provider_tags_round_trip() {
    for p in [
        ProviderType::Cloudflare,
        ProviderType::Aliyun,
        ProviderType::Dnspod,
        ProviderType::Huaweicloud,
    ] {
        assert_eq!(ProviderType::parse(&p.name()), Some(p));
    }
    assert_eq!(ProviderType::parse("route53"), None);
}

#[test]
fn registry_replaces_atomically_and_forgets_on_unregister() {
    let mut registry = ProviderRegistry::new();
    assert!(registry.get("a1").is_none());
    let creds = ProviderCredentials::Cloudflare { api_token: "t1".to_string() };
    registry.register("a1".to_string(), dns_orchestrator::credentials::create_provider(creds).unwrap());
    assert!(registry.get("a1").is_some());
    assert_eq!(registry.len(), 1);

    let creds2 = ProviderCredentials::Cloudflare { api_token: "t2".to_string() };
    registry.register("a1".to_string(), dns_orchestrator::credentials::create_provider(creds2).unwrap());
    assert_eq!(registry.len(), 1);
    match registry.get("a1").unwrap() {
        dns_orchestrator::credentials::ProviderInstance::Cloudflare(p) => {
            assert_eq!(p.api_token, "t2")
        }
        _ => panic!("wrong instance"),
    }

    registry.unregister("a1");
    assert!(registry.get("a1").is_none());
    assert_eq!(registry.len(), 0);
}

#[test]
fn batch_delete_summaries_itemize_failures() {
    let outcomes = vec![
        ("r1".to_string(), None),
        ("r2".to_string(), Some("not found".to_string())),
        ("r3".to_string(), None),
    ];
    let result = misc::summarize_batch_delete(outcomes);
    assert_eq!(result.success_count, 2);
    assert_eq!(result.failed_count, 1);
    assert_eq!(result.failures[0].record_id, "r2");
    assert_eq!(result.failures[0].reason, "not found");
}

#[test]
fn capability_table_covers_the_closed_vendor_set() {
    let all = misc::get_all_provider_metadata();
    let ids: Vec<&str> = all.iter().map(|m| m.id.as_str()).collect();
    assert_eq!(ids, vec!["cloudflare", "aliyun", "dnspod", "huaweicloud"]);
    assert!(all[0].features.proxy);
    assert!(!all[1].features.proxy);
}

#[test]
fn init_crypto_without_configuration_never_fails() {
    let manager = misc::init_crypto(&None).unwrap();
    let sealed = manager.encrypt("x").unwrap();
    assert_eq!(manager.decrypt(&sealed).unwrap(), "x");
    assert!(misc::init_crypto(&Some("not hex".to_string())).is_err());
}

#[test]
fn select_android_update_requires_a_newer_package() {
    let update = misc::select_android_update(
        "1.0.7",
        "1.0.8".to_string(),
        Some("fixes".to_string()),
        Some("https://example.invalid/app.apk".to_string()),
    )
    .unwrap();
    assert_eq!(update.version, "1.0.8");
    assert_eq!(update.notes, "fixes");
    assert!(misc::select_android_update("1.0.8", "1.0.8".to_string(), None, Some("u".to_string()))
        .is_none());
    assert!(misc::select_android_update("1.0.7", "1.0.8".to_string(), None, None).is_none());
}

#[test]
fn account_list_operations_mirror_the_store_adapters() {
    let mk = |id: &str| dns_orchestrator::types::Account {
        id: id.to_string(),
        name: id.to_string(),
        provider: ProviderType::Cloudflare,
        created_at: "t".to_string(),
        updated_at: "t".to_string(),
        status: None,
        error: None,
    };
    let mut list = vec![mk("a"), mk("b")];
    misc::upsert_account(&mut list, mk("b"));
    assert_eq!(list.len(), 2);
    misc::upsert_account(&mut list, mk("c"));
    assert_eq!(list.len(), 3);
    assert!(misc::remove_account(&mut list, "b"));
    assert_eq!(list.len(), 2);
    assert!(!misc::remove_account(&mut list, "b"));
    assert!(misc::set_account_status(
        &mut list,
        "a",
        dns_orchestrator::types::AccountStatus::Error,
        Some("broken".to_string()),
        "t2".to_string(),
    ));
    assert_eq!(list[0].status, Some(dns_orchestrator::types::AccountStatus::Error));
    assert_eq!(list[0].updated_at, "t2");
}
