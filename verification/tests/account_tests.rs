use dns_orchestrator::account_service::{
    build_export_response, open_export_data, preview_from_accounts, restore_plan, AccountRepository,
    AccountService, CredentialStore, OpenedExport,
};
use dns_orchestrator::credentials::{CredMap, ProviderType};
use dns_orchestrator::export::{
    ExportAccountsRequest, ExportData, ExportFile, ExportFileHeader, ExportedAccount,
};
use dns_orchestrator::types::{Account, AccountStatus, CreateAccountRequest};
use dns_orchestrator::CoreError;

#[derive(Default)]
struct MemRepo {
    accounts: Vec<Account>,
    fail_all: bool,
}

impl AccountRepository for MemRepo {
    fn find_all(&self) -> Result<Vec<Account>, String> {
        if self.fail_all {
            return Err("repository offline".to_string());
        }
        Ok(self.accounts.clone())
    }
    fn find_by_id(&self, id: &str) -> Result<Option<Account>, String> {
        Ok(self.accounts.iter().find(|a| a.id == id).cloned())
    }
    fn save(&mut self, account: &Account) -> Result<(), String> {
        match self.accounts.iter_mut().find(|a| a.id == account.id) {
            Some(slot) => *slot = account.clone(),
            None => self.accounts.push(account.clone()),
        }
        Ok(())
    }
    fn delete(&mut self, id: &str) -> Result<(), String> {
        let before = self.accounts.len();
        self.accounts.retain(|a| a.id != id);
        if self.accounts.len() == before {
            return Err("missing".to_string());
        }
        Ok(())
    }
    fn save_all(&mut self, accounts: &Vec<Account>) -> Result<(), String> {
        self.accounts = accounts.clone();
        Ok(())
    }
    fn update_status(
        &mut self,
        id: &str,
        status: AccountStatus,
        error: Option<String>,
    ) -> Result<(), String> {
        match self.accounts.iter_mut().find(|a| a.id == id) {
            Some(a) => {
                a.status = Some(status);
                a.error = error;
                Ok(())
            }
            None => Err("missing".to_string()),
        }
    }
}

#[derive(Default)]
struct MemStore {
    creds: Vec<(String, CredMap)>,
    fail_load_all: bool,
    fail_save: bool,
}

impl CredentialStore for MemStore {
    fn save(&mut self, account_id: &str, credentials: &CredMap) -> Result<(), String> {
        if self.fail_save {
            return Err("store offline".to_string());
        }
        self.creds.retain(|(id, _)| id != account_id);
        self.creds.push((account_id.to_string(), credentials.clone()));
        Ok(())
    }
    fn load(&self, account_id: &str) -> Result<CredMap, String> {
        self.creds
            .iter()
            .find(|(id, _)| id == account_id)
            .map(|(_, c)| c.clone())
            .ok_or_else(|| "missing".to_string())
    }
    fn delete(&mut self, account_id: &str) -> Result<(), String> {
        self.creds.retain(|(id, _)| id != account_id);
        Ok(())
    }
    fn load_all(&self) -> Result<Vec<(String, CredMap)>, String> {
        if self.fail_load_all {
            return Err("bulk load failed".to_string());
        }
        Ok(self.creds.clone())
    }
}

fn cf_creds(token: &str) -> CredMap {
    vec![("apiToken".to_string(), token.to_string())]
}

fn service() -> AccountService<MemRepo, MemStore> {
    AccountService::new(MemRepo::default(), MemStore::default())
}

#[test]
fn create_persists_registers_and_stamps() {
    let mut svc = service();
    let request = CreateAccountRequest {
        name: "prod".to_string(),
        provider: ProviderType::Cloudflare,
        credentials: cf_creds("tok"),
    };
    let account = svc
        .create_account(&request, true, "id-1".to_string(), "2024-01-15T08:30:00Z")
        .unwrap();
    assert_eq!(account.id, "id-1");
    assert_eq!(account.name, "prod");
    assert_eq!(account.status, Some(AccountStatus::Active));
    assert!(svc.registry.get("id-1").is_some());
    assert_eq!(svc.repository.accounts.len(), 1);
    assert_eq!(svc.credential_store.creds.len(), 1);
}

#[test]
fn create_rejects_invalid_credentials_and_persists_nothing() {
    let mut svc = service();
    let request = CreateAccountRequest {
        name: "prod".to_string(),
        provider: ProviderType::Cloudflare,
        credentials: cf_creds("tok"),
    };
    match svc.create_account(&request, false, "id-1".to_string(), "now") {
        Err(CoreError::InvalidCredentials(p)) => assert_eq!(p, "cloudflare"),
        other => panic!("unexpected {other:?}"),
    }
    assert!(svc.registry.get("id-1").is_none());
    assert!(svc.repository.accounts.is_empty());
    assert!(svc.credential_store.creds.is_empty());

    let malformed = CreateAccountRequest {
        name: "prod".to_string(),
        provider: ProviderType::Aliyun,
        credentials: cf_creds("tok"),
    };
    match svc.create_account(&malformed, true, "id-2".to_string(), "now") {
        Err(CoreError::CredentialValidation(m)) => assert_eq!(m, "Missing field: accessKeyId"),
        other => panic!("unexpected {other:?}"),
    }
}

#[test]
fn delete_unregisters_and_requires_metadata() {
    let mut svc = service();
    let request = CreateAccountRequest {
        name: "prod".to_string(),
        provider: ProviderType::Cloudflare,
        credentials: cf_creds("tok"),
    };
    svc.create_account(&request, true, "id-1".to_string(), "now").unwrap();
    svc.delete_account("id-1").unwrap();
    assert!(svc.registry.get("id-1").is_none());
    assert!(svc.repository.accounts.is_empty());
    match svc.delete_account("id-1") {
        Err(CoreError::AccountNotFound(id)) => assert_eq!(id, "id-1"),
        other => panic!("unexpected {other:?}"),
    }
}

#[test]
fn preview_reports_name_conflicts_only() {
    let exported = vec![
        ExportedAccount {
            id: "x1".to_string(),
            name: "prod".to_string(),
            provider: ProviderType::Cloudflare,
            created_at: "t".to_string(),
            updated_at: "t".to_string(),
            credentials: cf_creds("a"),
        },
        ExportedAccount {
            id: "x2".to_string(),
            name: "staging".to_string(),
            provider: ProviderType::Dnspod,
            created_at: "t".to_string(),
            updated_at: "t".to_string(),
            credentials: cf_creds("b"),
        },
    ];
    let existing = vec!["prod".to_string(), "edge".to_string()];
    let preview = preview_from_accounts(false, &exported, &existing);
    assert_eq!(preview.account_count, 2);
    let entries = preview.accounts.unwrap();
    assert!(entries[0].has_conflict);
    assert!(!entries[1].has_conflict);
}

#[test]
fn import_continues_past_a_structurally_invalid_account() {
    let mut svc = service();
    let good = |name: &str| ExportedAccount {
        id: format!("src-{name}"),
        name: name.to_string(),
        provider: ProviderType::Cloudflare,
        created_at: "t".to_string(),
        updated_at: "t".to_string(),
        credentials: cf_creds("tok"),
    };
    let mut bad = good("second");
    bad.provider = ProviderType::Aliyun; // apiToken is not an aliyun credential set
    let batch = vec![good("first"), bad, good("third")];
    let result = svc.import_accounts(&batch, "now");
    assert_eq!(result.success_count, 2);
    assert_eq!(result.failures.len(), 1);
    assert_eq!(result.failures[0].name, "second");
    assert_eq!(
        result.failures[0].reason,
        "Invalid credentials format: Missing field: accessKeyId"
    );
}

#[test]
fn future_format_versions_are_rejected() {
    let file = ExportFile {
        header: ExportFileHeader {
            version: 2,
            encrypted: false,
            salt: None,
            nonce: None,
            exported_at: "t".to_string(),
            app_version: "1.0.0".to_string(),
        },
        data: ExportData::Accounts(Vec::new()),
    };
    match open_export_data(file, &None) {
        Err(CoreError::UnsupportedFileVersion) => {}
        other => panic!("unexpected {other:?}"),
    }
}

#[test]
fn encrypted_files_need_a_password_before_anything_is_read() {
    let entries = vec![ExportedAccount {
        id: "x1".to_string(),
        name: "prod".to_string(),
        provider: ProviderType::Cloudflare,
        created_at: "t".to_string(),
        updated_at: "t".to_string(),
        credentials: cf_creds("tok"),
    }];
    let resp = build_export_response(
        entries,
        true,
        &Some("pw".to_string()),
        "2024-01-15T08:30:00Z",
        "0.9.0",
        "20240115-083000",
    )
    .unwrap();
    let parsed: serde_json::Value = serde_json::from_str(&resp.content).unwrap();
    let header = &parsed["header"];
    assert_eq!(header["version"], 1);
    assert_eq!(header["encrypted"], true);
    let file = ExportFile {
        header: ExportFileHeader {
            version: header["version"].as_u64().unwrap() as u32,
            encrypted: true,
            salt: Some(header["salt"].as_str().unwrap().to_string()),
            nonce: Some(header["nonce"].as_str().unwrap().to_string()),
            exported_at: "t".to_string(),
            app_version: "0.9.0".to_string(),
        },
        data: ExportData::Cipher(parsed["data"].as_str().unwrap().to_string()),
    };
    match open_export_data(file, &None) {
        Ok(OpenedExport::NeedsPassword) => {}
        other => panic!("unexpected {other:?}"),
    }
}

fn parse_exported_accounts(value: &serde_json::Value) -> Vec<ExportedAccount> {
    value
        .as_array()
        .unwrap()
        .iter()
        .map(|a| ExportedAccount {
            id: a["id"].as_str().unwrap().to_string(),
            name: a["name"].as_str().unwrap().to_string(),
            provider: match a["provider"].as_str().unwrap() {
                "cloudflare" => ProviderType::Cloudflare,
                "aliyun" => ProviderType::Aliyun,
                "dnspod" => ProviderType::Dnspod,
                _ => ProviderType::Huaweicloud,
            },
            created_at: a["createdAt"].as_str().unwrap().to_string(),
            updated_at: a["updatedAt"].as_str().unwrap().to_string(),
            credentials: a["credentials"]
                .as_object()
                .unwrap()
                .iter()
                .map(|(k, v)| (k.clone(), v.as_str().unwrap().to_string()))
                .collect(),
        })
        .collect()
}

#[test]
fn export_then_import_keeps_identity_but_mints_new_ids() {
    let mut source = service();
    let request = CreateAccountRequest {
        name: "prod".to_string(),
        provider: ProviderType::Cloudflare,
        credentials: cf_creds("tok-123"),
    };
    source
        .create_account(&request, true, "source-id".to_string(), "2024-01-15T08:30:00Z")
        .unwrap();

    let export = source
        .export_accounts(
            &ExportAccountsRequest {
                account_ids: vec!["source-id".to_string()],
                encrypt: false,
                password: None,
            },
            "0.9.0",
            "2024-01-15T08:30:00Z",
            "20240115-083000",
        )
        .unwrap();
    assert_eq!(export.suggested_filename, "dns-orchestrator-backup-20240115-083000.dnso");

    let parsed: serde_json::Value = serde_json::from_str(&export.content).unwrap();
    let exported = parse_exported_accounts(&parsed["data"]);
    assert_eq!(exported.len(), 1);
    assert_ne!(exported[0].id, "source-id");

    let mut target = service();
    let result = target.import_accounts(&exported, "2024-02-01T00:00:00Z");
    assert_eq!(result.success_count, 1);
    assert!(result.failures.is_empty());
    let imported = &target.repository.accounts[0];
    assert_eq!(imported.name, "prod");
    assert_eq!(imported.provider, ProviderType::Cloudflare);
    assert_ne!(imported.id, "source-id");
    let (_, stored) = &target.credential_store.creds[0];
    assert_eq!(stored, &cf_creds("tok-123"));
}

#[test]
fn encrypted_export_round_trips_through_import() {
    let mut source = service();
    let request = CreateAccountRequest {
        name: "prod".to_string(),
        provider: ProviderType::Dnspod,
        credentials: vec![
            ("secretId".to_string(), "sid".to_string()),
            ("secretKey".to_string(), "sk".to_string()),
        ],
    };
    source
        .create_account(&request, true, "source-id".to_string(), "now")
        .unwrap();
    let export = source
        .export_accounts(
            &ExportAccountsRequest {
                account_ids: vec!["source-id".to_string()],
                encrypt: true,
                password: Some("pw".to_string()),
            },
            "0.9.0",
            "now",
            "stamp",
        )
        .unwrap();
    let parsed: serde_json::Value = serde_json::from_str(&export.content).unwrap();
    let file = ExportFile {
        header: ExportFileHeader {
            version: parsed["header"]["version"].as_u64().unwrap() as u32,
            encrypted: parsed["header"]["encrypted"].as_bool().unwrap(),
            salt: Some(parsed["header"]["salt"].as_str().unwrap().to_string()),
            nonce: Some(parsed["header"]["nonce"].as_str().unwrap().to_string()),
            exported_at: "t".to_string(),
            app_version: "0.9.0".to_string(),
        },
        data: ExportData::Cipher(parsed["data"].as_str().unwrap().to_string()),
    };
    let opened = open_export_data(file, &Some("pw".to_string())).unwrap();
    let bytes = match opened {
        OpenedExport::Decrypted(b) => b,
        other => panic!("unexpected {other:?}"),
    };
    let value: serde_json::Value = serde_json::from_slice(&bytes).unwrap();
    let accounts = parse_exported_accounts(&value);
    assert_eq!(accounts.len(), 1);
    assert_eq!(accounts[0].name, "prod");
    assert_eq!(accounts[0].provider, ProviderType::Dnspod);
}

#[test]
fn export_requires_a_password_when_encrypting() {
    let svc = service();
    let r = svc.export_accounts(
        &ExportAccountsRequest {
            account_ids: vec!["missing".to_string()],
            encrypt: true,
            password: None,
        },
        "0.9.0",
        "now",
        "stamp",
    );
    assert!(r.is_err());
}

#[test]
fn restore_marks_every_account_when_the_bulk_load_fails() {
    let mut svc = AccountService::new(
        MemRepo {
            accounts: vec![
                account("a1", "one"),
                account("a2", "two"),
                account("a3", "three"),
            ],
            fail_all: false,
        },
        MemStore { creds: Vec::new(), fail_load_all: true, fail_save: false },
    );
    let result = svc.restore_accounts().unwrap();
    assert_eq!(result.success_count, 0);
    assert_eq!(result.error_count, 3);
    for a in &svc.repository.accounts {
        assert_eq!(a.status, Some(AccountStatus::Error));
        assert_eq!(a.error.as_deref(), Some("bulk load failed"));
    }
}

fn account(id: &str, name: &str) -> Account {
    Account {
        id: id.to_string(),
        name: name.to_string(),
        provider: ProviderType::Cloudflare,
        created_at: "t".to_string(),
        updated_at: "t".to_string(),
        status: None,
        error: None,
    }
}

#[test]
fn restore_registers_complete_accounts_and_marks_the_rest() {
    let mut svc = AccountService::new(
        MemRepo {
            accounts: vec![account("a1", "one"), account("a2", "two"), account("a3", "three")],
            fail_all: false,
        },
        MemStore {
            creds: vec![
                ("a1".to_string(), cf_creds("tok")),
                ("a2".to_string(), vec![("wrongKey".to_string(), "v".to_string())]),
            ],
            fail_load_all: false,
            fail_save: false,
        },
    );
    let result = svc.restore_accounts().unwrap();
    assert_eq!(result.success_count, 1);
    assert_eq!(result.error_count, 2);
    assert!(svc.registry.get("a1").is_some());
    assert!(svc.registry.get("a2").is_none());
    assert_eq!(svc.repository.accounts[0].status, Some(AccountStatus::Active));
    assert_eq!(svc.repository.accounts[1].status, Some(AccountStatus::Error));
    assert_eq!(
        svc.repository.accounts[1].error.as_deref(),
        Some("Invalid credentials format: Missing field: apiToken")
    );
    assert_eq!(svc.repository.accounts[2].status, Some(AccountStatus::Error));
    assert_eq!(svc.repository.accounts[2].error.as_deref(), Some("Credentials not found"));
}

#[test]
fn restore_plan_is_pure_and_exact() {
    let accounts = vec![account("a1", "one")];
    let plan = restore_plan(&accounts, &Err("down".to_string()));
    assert_eq!(plan.result.success_count, 0);
    assert_eq!(plan.result.error_count, 1);
    assert_eq!(plan.updates.len(), 1);
    assert_eq!(plan.updates[0].0, "a1");
    assert_eq!(plan.updates[0].1, AccountStatus::Error);
    assert_eq!(plan.updates[0].2.as_deref(), Some("down"));
    assert!(plan.registrations.is_empty());
}
