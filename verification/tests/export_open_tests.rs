use base64::Engine;
use dns_orchestrator::account_service::{check_version, open_export_data, OpenedExport};
use dns_orchestrator::errors::api_error_status;
use dns_orchestrator::ApiError;
use dns_orchestrator::export::{ExportData, ExportFile, ExportFileHeader};
use dns_orchestrator::CoreError;

fn header(version: u32, encrypted: bool) -> ExportFileHeader {
    ExportFileHeader {
        version,
        encrypted,
        salt: None,
        nonce: None,
        exported_at: "t".to_string(),
        app_version: "0.9.0".to_string(),
    }
}

#[test]
fn version_gate_accepts_current_and_rejects_newer() {
    assert!(check_version(&header(1, false)).is_ok());
    assert!(check_version(&header(0, false)).is_ok());
    match check_version(&header(2, false)) {
        Err(CoreError::UnsupportedFileVersion) => {}
        other => panic!("unexpected {other:?}"),
    }
}

#[test]
fn encrypted_file_without_salt_or_nonce_is_structural() {
    let mut h = header(1, true);
    h.nonce = Some("AAAA".to_string());
    let file = ExportFile { header: h, data: ExportData::Cipher("AAAA".to_string()) };
    match open_export_data(file, &Some("pw".to_string())) {
        Err(CoreError::ImportExportError(m)) => assert_eq!(m, "Missing encryption salt"),
        other => panic!("unexpected {other:?}"),
    }

    let mut h = header(1, true);
    h.salt = Some("AAAA".to_string());
    let file = ExportFile { header: h, data: ExportData::Cipher("AAAA".to_string()) };
    match open_export_data(file, &Some("pw".to_string())) {
        Err(CoreError::ImportExportError(m)) => assert_eq!(m, "Missing encryption nonce"),
        other => panic!("unexpected {other:?}"),
    }
}

#[test]
fn encrypted_file_with_plain_data_is_rejected() {
    let file = ExportFile { header: header(1, true), data: ExportData::Accounts(Vec::new()) };
    match open_export_data(file, &Some("pw".to_string())) {
        Err(CoreError::ImportExportError(m)) => assert_eq!(m, "Invalid encrypted data"),
        other => panic!("unexpected {other:?}"),
    }
}

#[test]
fn plain_file_with_cipher_data_is_rejected() {
    let file = ExportFile { header: header(1, false), data: ExportData::Cipher("x".to_string()) };
    match open_export_data(file, &None) {
        Err(CoreError::ImportExportError(m)) => assert_eq!(m, "Invalid account data"),
        other => panic!("unexpected {other:?}"),
    }
}

#[test]
fn plain_file_hands_the_accounts_through() {
    let file = ExportFile { header: header(1, false), data: ExportData::Accounts(Vec::new()) };
    match open_export_data(file, &None) {
        Ok(OpenedExport::Accounts(v)) => assert!(v.is_empty()),
        other => panic!("unexpected {other:?}"),
    }
}

#[test]
fn wrong_password_on_an_export_is_one_uniform_failure() {
    let entries = vec![dns_orchestrator::export::ExportedAccount {
        id: "x".to_string(),
        name: "n".to_string(),
        provider: dns_orchestrator::credentials::ProviderType::Cloudflare,
        created_at: "t".to_string(),
        updated_at: "t".to_string(),
        credentials: vec![("apiToken".to_string(), "v".to_string())],
    }];
    let resp = dns_orchestrator::account_service::build_export_response(
        entries,
        true,
        &Some("right".to_string()),
        "t",
        "0.9.0",
        "stamp",
    )
    .unwrap();
    let parsed: serde_json::Value = serde_json::from_str(&resp.content).unwrap();
    let file = ExportFile {
        header: ExportFileHeader {
            version: 1,
            encrypted: true,
            salt: Some(parsed["header"]["salt"].as_str().unwrap().to_string()),
            nonce: Some(parsed["header"]["nonce"].as_str().unwrap().to_string()),
            exported_at: "t".to_string(),
            app_version: "0.9.0".to_string(),
        },
        data: ExportData::Cipher(parsed["data"].as_str().unwrap().to_string()),
    };
    match open_export_data(file, &Some("wrong".to_string())) {
        Err(CoreError::ImportExportError(m)) => {
            assert_eq!(m, "Decryption failed: invalid password or corrupted data")
        }
        other => panic!("unexpected {other:?}"),
    }
}

#[test]
fn exported_json_escapes_awkward_names() {
    let entries = vec![dns_orchestrator::export::ExportedAccount {
        id: "x".to_string(),
        name: "we\"ird\\name\nwith 日本語".to_string(),
        provider: dns_orchestrator::credentials::ProviderType::Cloudflare,
        created_at: "t".to_string(),
        updated_at: "t".to_string(),
        credentials: vec![("apiToken".to_string(), "va\tlue".to_string())],
    }];
    let resp = dns_orchestrator::account_service::build_export_response(
        entries, false, &None, "t", "0.9.0", "stamp",
    )
    .unwrap();
    assert!(resp.content.is_ascii());
    let parsed: serde_json::Value = serde_json::from_str(&resp.content).unwrap();
    assert_eq!(
        parsed["data"][0]["name"].as_str().unwrap(),
        "we\"ird\\name\nwith 日本語"
    );
    assert_eq!(
        parsed["data"][0]["credentials"]["apiToken"].as_str().unwrap(),
        "va\tlue"
    );
}

#[test]
fn keyed_cipher_fails_uniformly_on_tampering() {
    let manager = dns_orchestrator::misc::init_crypto(&None).unwrap();
    let sealed = manager.encrypt("payload").unwrap();
    let mut raw = base64::engine::general_purpose::STANDARD.decode(&sealed).unwrap();
    let last = raw.len() - 1;
    raw[last] ^= 0xff;
    let tampered = base64::engine::general_purpose::STANDARD.encode(&raw);
    match manager.decrypt(&tampered) {
        Err(dns_orchestrator::ApiError::Encryption(m)) => {
            assert_eq!(m, "Decryption failed: invalid password or corrupted data")
        }
        other => panic!("unexpected {other:?}"),
    }
    match manager.decrypt("AA") {
        Err(dns_orchestrator::ApiError::Encryption(m)) => {
            assert_eq!(m, "Invalid base64 data")
        }
        other => panic!("unexpected {other:?}"),
    }
    match manager.decrypt("AAAA") {
        Err(dns_orchestrator::ApiError::Encryption(m)) => {
            assert_eq!(m, "Invalid encrypted data")
        }
        other => panic!("unexpected {other:?}"),
    }
}

#[test]
fn api_error_statuses_follow_the_taxonomy() {
    assert_eq!(api_error_status(&ApiError::AccountNotFound("x".to_string())), 404);
    assert_eq!(api_error_status(&ApiError::BadRequest("x".to_string())), 400);
    assert_eq!(api_error_status(&ApiError::UnknownCommand("x".to_string())), 400);
    assert_eq!(api_error_status(&ApiError::CredentialValidation("x".to_string())), 401);
    assert_eq!(api_error_status(&ApiError::Internal("x".to_string())), 500);
}

#[test]
fn record_request_builders_default_and_validate() {
    let req = dns_orchestrator::misc::build_create_record_request(
        "z1".to_string(),
        "www".to_string(),
        "a",
        "203.0.113.7".to_string(),
        None,
        None,
        None,
    )
    .unwrap();
    assert_eq!(req.ttl, 600);
    assert!(dns_orchestrator::misc::build_create_record_request(
        "z1".to_string(),
        "www".to_string(),
        "SPF",
        "x".to_string(),
        None,
        None,
        None,
    )
    .is_err());

    let err = dns_orchestrator::misc::build_update_record_request(
        "z1".to_string(),
        Some("www".to_string()),
        None,
        Some("x".to_string()),
        None,
        None,
        None,
    )
    .unwrap_err();
    match err {
        dns_orchestrator::ApiError::BadRequest(m) => assert_eq!(m, "Missing record_type field"),
        other => panic!("unexpected {other:?}"),
    }
    let ok = dns_orchestrator::misc::build_update_record_request(
        "z1".to_string(),
        Some("www".to_string()),
        Some("TXT".to_string()),
        Some("x".to_string()),
        Some(120),
        None,
        None,
    )
    .unwrap();
    assert_eq!(ok.ttl, 120);
}

#[test]
fn missing_password_signals_are_fixed() {
    let p = dns_orchestrator::account_service::preview_without_password();
    assert!(p.encrypted);
    assert_eq!(p.account_count, 0);
    assert!(p.accounts.is_none());
    match dns_orchestrator::account_service::password_required_error() {
        CoreError::ImportExportError(m) => assert_eq!(m, "Encrypted file requires a password"),
        other => panic!("unexpected {other:?}"),
    }
}

#[test]
fn export_plan_carries_fields_and_mints_ids() {
    let account = |id: &str| dns_orchestrator::types::Account {
        id: id.to_string(),
        name: format!("name-{id}"),
        provider: dns_orchestrator::credentials::ProviderType::Dnspod,
        created_at: "c".to_string(),
        updated_at: "u".to_string(),
        status: None,
        error: None,
    };
    let accounts = vec![account("a1"), account("a2")];
    let creds = vec![(
        "a2".to_string(),
        vec![("secretId".to_string(), "sid".to_string())],
    )];
    let entries =
        dns_orchestrator::account_service::plan_export_entries(&accounts, &creds);
    assert_eq!(entries.len(), 1);
    assert_eq!(entries[0].name, "name-a2");
    assert_eq!(entries[0].created_at, "c");
    assert_eq!(entries[0].updated_at, "u");
    assert_eq!(entries[0].credentials, creds[0].1);
    assert_eq!(entries[0].id.len(), 36);
    assert_ne!(entries[0].id, "a2");

    let selected = dns_orchestrator::account_service::select_accounts(
        &accounts,
        &vec!["a2".to_string(), "missing".to_string()],
    );
    assert_eq!(selected.len(), 1);
    assert_eq!(selected[0].id, "a2");
}
