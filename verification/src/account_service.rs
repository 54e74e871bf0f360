//! Account lifecycle orchestration: create, delete, export, preview
//! import, import, and restore at startup.
//!
//! The metadata store and the credential store are external collaborators
//! behind the two traits below; network validation of credentials happens
//! outside this module, and its outcome is handed in as a plain value.
//! Within one account's lifecycle operation the steps run strictly in the
//! order written here.

use vstd::prelude::*;

use crate::credentials::{
    create_provider, creds_match_map, instance_matches_creds, map_complete_for, missing_field_msg,
    provider_tag, CredMap, ProviderCredentials, ProviderInstance, ProviderType,
};
use crate::crypto::{blob_opened, encrypt};
use crate::errors::CoreError;
use crate::export::{
    accounts_json, export_file_json, ExportAccountsRequest, ExportAccountsResponse, ExportData,
    ExportFile, ExportFileHeader, ExportedAccount, ImportFailure, ImportPreview,
    ImportPreviewAccount, ImportResult, RestoreResult,
};
use crate::primitives::{chars_of_bytes, new_uuid};
use crate::registry::ProviderRegistry;
use crate::strutil::str_eq;
use crate::types::{Account, AccountStatus, CreateAccountRequest, ProviderMetadata};
use vstd::string::StrSliceExecFns;
use vstd::string::StringExecFns;
use vstd::string::StringSliceAdditionalSpecFns;

verus! {

/// The account-metadata store collaborator. Implementations persist
/// metadata only; credentials never pass through here.
pub trait AccountRepository {
    fn find_all(&self) -> Result<Vec<Account>, String>;

    fn find_by_id(&self, id: &str) -> Result<Option<Account>, String>;

    fn save(&mut self, account: &Account) -> Result<(), String>;

    fn delete(&mut self, id: &str) -> Result<(), String>;

    fn save_all(&mut self, accounts: &Vec<Account>) -> Result<(), String>;

    fn update_status(&mut self, id: &str, status: AccountStatus, error: Option<String>) -> Result<
        (),
        String,
    >;
}

/// The credential store collaborator: account id to raw key/value map,
/// persisted encrypted at rest by the implementation.
pub trait CredentialStore {
    fn save(&mut self, account_id: &str, credentials: &CredMap) -> Result<(), String>;

    fn load(&self, account_id: &str) -> Result<CredMap, String>;

    fn delete(&mut self, account_id: &str) -> Result<(), String>;

    fn load_all(&self) -> Result<Vec<(String, CredMap)>, String>;
}

/// Whether one of the names equals `n`.
pub open spec fn contains_name(names: Seq<String>, n: Seq<char>) -> bool {
    exists|j: int| 0 <= j < names.len() && names[j]@ == n
}

/// Whether one of the ids equals `n`.
pub fn name_exists(names: &Vec<String>, n: &str) -> (r: bool)
    ensures
        r == contains_name(names@, n@),
{
    let k = names.len();
    for j in 0..k
        invariant
            k == names@.len(),
            forall|i: int| 0 <= i < j ==> names@[i]@ != n@,
    {
        if str_eq(names[j].as_str(), n) {
            return true;
        }
    }
    false
}

/// The names of a list of accounts, in order.
pub fn account_names(accounts: &Vec<Account>) -> (r: Vec<String>)
    ensures
        r@.len() == accounts@.len(),
        forall|i: int| 0 <= i < r@.len() ==> r@[i]@ == accounts@[i].name@,
{
    let mut out: Vec<String> = Vec::new();
    let n = accounts.len();
    for i in 0..n
        invariant
            n == accounts@.len(),
            out@.len() == i,
            forall|j: int| 0 <= j < i ==> out@[j]@ == accounts@[j].name@,
    {
        out.push(accounts[i].name.clone());
    }
    out
}

/// Reject export files claiming a format version newer than this build.
pub fn check_version(header: &ExportFileHeader) -> (r: Result<(), CoreError>)
    ensures
        (r is Ok) == (header.version <= crate::CURRENT_FILE_VERSION),
        r matches Err(e) ==> e == CoreError::UnsupportedFileVersion,
{
    if header.version > crate::CURRENT_FILE_VERSION {
        Err(CoreError::UnsupportedFileVersion)
    } else {
        Ok(())
    }
}

/// The preview answered for an encrypted file when no password was given:
/// only the encryption flag, a zero count, and no account list — nothing
/// was decrypted.
pub fn preview_without_password() -> (r: ImportPreview)
    ensures
        r.encrypted == true,
        r.account_count == 0,
        r.accounts is None,
{
    ImportPreview { encrypted: true, account_count: 0, accounts: None }
}

/// The error an import answers when the file is encrypted and no password
/// was given.
pub fn password_required_error() -> (r: CoreError)
    ensures
        r matches CoreError::ImportExportError(m) && m@ == "Encrypted file requires a password"@,
{
    CoreError::ImportExportError(String::from_str("Encrypted file requires a password"))
}

/// What opening an export file yields before any account is touched.
#[derive(Debug)]
pub enum OpenedExport {
    /// The file is encrypted and no password was given; nothing was
    /// decrypted.
    NeedsPassword,
    /// The plain account list of an unencrypted file.
    Accounts(Vec<ExportedAccount>),
    /// The decrypted payload bytes of an encrypted file: the JSON text of
    /// the account array.
    Decrypted(Vec<u8>),
}

/// Open an export file: gate the format version, refuse to touch an
/// encrypted payload without a password, and otherwise decrypt or unwrap
/// the account data. A wrong password and corrupted data fail alike.
pub fn open_export_data(file: ExportFile, password: &Option<String>) -> (r: Result<
    OpenedExport,
    CoreError,
>)
    ensures
        file.header.version > crate::CURRENT_FILE_VERSION <==> r matches Err(
            CoreError::UnsupportedFileVersion,
        ),
        (file.header.version <= crate::CURRENT_FILE_VERSION && file.header.encrypted && password
            is None) ==> r matches Ok(OpenedExport::NeedsPassword),
        (file.header.version <= crate::CURRENT_FILE_VERSION && !file.header.encrypted) ==> (
        match file.data {
            ExportData::Accounts(v) => r matches Ok(OpenedExport::Accounts(w)) && w == v,
            ExportData::Cipher(_) => r matches Err(CoreError::ImportExportError(m)) && m@
                == "Invalid account data"@,
        }),
        (file.header.version <= crate::CURRENT_FILE_VERSION && file.header.encrypted && password
            is Some) ==> (match (file.data, file.header.salt, file.header.nonce) {
            (ExportData::Cipher(c), Some(salt), Some(nonce)) => {
                match blob_opened(
                    c@,
                    vstd::utf8::encode_utf8((*password)->Some_0@),
                    salt@,
                    nonce@,
                    crate::spec_pbkdf2_iterations(crate::CURRENT_FILE_VERSION),
                ) {
                    Some(pt) => r matches Ok(OpenedExport::Decrypted(b)) && b@ == pt,
                    None => r matches Err(CoreError::ImportExportError(m)) && m@
                        == "Decryption failed: invalid password or corrupted data"@,
                }
            },
            (ExportData::Accounts(_), _, _) => r matches Err(CoreError::ImportExportError(m))
                && m@ == "Invalid encrypted data"@,
            (ExportData::Cipher(_), None, _) => r matches Err(CoreError::ImportExportError(m))
                && m@ == "Missing encryption salt"@,
            (ExportData::Cipher(_), Some(_), None) => r matches Err(
                CoreError::ImportExportError(m),
            ) && m@ == "Missing encryption nonce"@,
        }),
{
    if file.header.version > crate::CURRENT_FILE_VERSION {
        return Err(CoreError::UnsupportedFileVersion);
    }
    if !file.header.encrypted {
        match file.data {
            ExportData::Accounts(v) => {
                return Ok(OpenedExport::Accounts(v));
            },
            ExportData::Cipher(_) => {
                return Err(
                    CoreError::ImportExportError(String::from_str("Invalid account data")),
                );
            },
        }
    }
    let pw = match password {
        Some(p) => p,
        None => {
            return Ok(OpenedExport::NeedsPassword);
        },
    };
    let cipher = match file.data {
        ExportData::Cipher(c) => c,
        ExportData::Accounts(_) => {
            return Err(CoreError::ImportExportError(String::from_str("Invalid encrypted data")));
        },
    };
    let salt = match file.header.salt {
        Some(s) => s,
        None => {
            return Err(CoreError::ImportExportError(String::from_str("Missing encryption salt")));
        },
    };
    let nonce = match file.header.nonce {
        Some(s) => s,
        None => {
            return Err(
                CoreError::ImportExportError(String::from_str("Missing encryption nonce")),
            );
        },
    };
    match crate::crypto::decrypt(cipher.as_str(), pw.as_str(), salt.as_str(), nonce.as_str()) {
        Ok(plaintext) => Ok(OpenedExport::Decrypted(plaintext)),
        Err(_) => Err(
            CoreError::ImportExportError(
                String::from_str("Decryption failed: invalid password or corrupted data"),
            ),
        ),
    }
}

/// Build the preview of a parsed account list against the existing account
/// names: an entry conflicts exactly when its name equals an existing
/// account's name; ids are never compared.
pub fn preview_from_accounts(
    encrypted: bool,
    accounts: &Vec<ExportedAccount>,
    existing_names: &Vec<String>,
) -> (r: ImportPreview)
    ensures
        r.encrypted == encrypted,
        r.account_count == accounts@.len(),
        r.accounts matches Some(v) && v@.len() == accounts@.len() && forall|i: int|
            0 <= i < accounts@.len() ==> (#[trigger] v@[i]).name@ == accounts@[i].name@
                && v@[i].provider == accounts@[i].provider && v@[i].has_conflict == contains_name(
                existing_names@,
                accounts@[i].name@,
            ),
{
    let mut entries: Vec<ImportPreviewAccount> = Vec::new();
    let n = accounts.len();
    for i in 0..n
        invariant
            n == accounts@.len(),
            entries@.len() == i,
            forall|j: int|
                0 <= j < i ==> (#[trigger] entries@[j]).name@ == accounts@[j].name@
                    && entries@[j].provider == accounts@[j].provider && entries@[j].has_conflict
                    == contains_name(existing_names@, accounts@[j].name@),
    {
        let has_conflict = name_exists(existing_names, accounts[i].name.as_str());
        entries.push(
            ImportPreviewAccount {
                name: accounts[i].name.clone(),
                provider: accounts[i].provider,
                has_conflict,
            },
        );
    }
    ImportPreview { encrypted, account_count: accounts.len(), accounts: Some(entries) }
}

/// The subsequence of accounts whose id is among the requested ids,
/// order kept.
pub open spec fn selected_accounts(all: Seq<Account>, requested: Seq<String>) -> Seq<Account>
    decreases all.len(),
{
    if all.len() == 0 {
        all
    } else {
        selected_accounts(all.drop_last(), requested) + (if contains_name(
            requested,
            all.last().id@,
        ) {
            seq![all.last()]
        } else {
            Seq::<Account>::empty()
        })
    }
}

/// An empty request selects nothing.
pub proof fn lemma_selected_no_requests(all: Seq<Account>, requested: Seq<String>)
    requires
        requested.len() == 0,
    ensures
        selected_accounts(all, requested).len() == 0,
    decreases all.len(),
{
    if all.len() > 0 {
        lemma_selected_no_requests(all.drop_last(), requested);
    }
}

/// Pick the accounts whose id the request names; unknown requested ids
/// are silently ignored.
pub fn select_accounts(all: &Vec<Account>, requested: &Vec<String>) -> (r: Vec<Account>)
    ensures
        r@ == selected_accounts(all@, requested@),
{
    let mut out: Vec<Account> = Vec::new();
    let n = all.len();
    for i in 0..n
        invariant
            n == all@.len(),
            out@ == selected_accounts(all@.take(i as int), requested@),
    {
        proof {
            assert(all@.take(i + 1).drop_last() =~= all@.take(i as int));
            assert(all@.take(i + 1).last() == all@[i as int]);
        }
        if name_exists(requested, all[i].id.as_str()) {
            out.push(all[i].clone());
            proof {
                assert(out@ =~= selected_accounts(all@.take(i + 1), requested@));
            }
        } else {
            proof {
                assert(out@ =~= selected_accounts(all@.take(i + 1), requested@));
            }
        }
    }
    proof {
        assert(all@.take(n as int) =~= all@);
    }
    out
}

/// Whether two credential maps spell the same keys and values.
pub open spec fn cred_views_match(a: Seq<(String, String)>, b: Seq<(String, String)>) -> bool {
    a.len() == b.len() && forall|i: int|
        0 <= i < a.len() ==> (#[trigger] a[i]).0@ == b[i].0@ && a[i].1@ == b[i].1@
}

/// Copy a credential map, key and value views kept.
pub fn clone_cred_map(m: &CredMap) -> (r: CredMap)
    ensures
        cred_views_match(r@, m@),
{
    let mut out: CredMap = Vec::new();
    let n = m.len();
    for i in 0..n
        invariant
            n == m@.len(),
            out@.len() == i,
            forall|j: int| 0 <= j < i ==> (#[trigger] out@[j]).0@ == m@[j].0@ && out@[j].1@
                == m@[j].1@,
    {
        out.push((m[i].0.clone(), m[i].1.clone()));
    }
    out
}

/// The subsequence of accounts whose credentials were loaded, order kept.
pub open spec fn exportable(accounts: Seq<Account>, creds: Seq<(String, CredMap)>) -> Seq<Account>
    decreases accounts.len(),
{
    if accounts.len() == 0 {
        accounts
    } else {
        exportable(accounts.drop_last(), creds) + (if cred_map_lookup(
            creds,
            accounts.last().id@,
        ) is Some {
            seq![accounts.last()]
        } else {
            Seq::<Account>::empty()
        })
    }
}

/// What one export entry carries for its source account: a fresh 36-char
/// id, the account's name, vendor tag and timestamps, and exactly the
/// credentials loaded for it.
pub open spec fn export_entry_for(
    a: Account,
    creds: Seq<(String, CredMap)>,
    e: ExportedAccount,
) -> bool {
    &&& e.id@.len() == 36
    &&& e.name@ == a.name@
    &&& e.provider == a.provider
    &&& e.created_at@ == a.created_at@
    &&& e.updated_at@ == a.updated_at@
    &&& cred_map_lookup(creds, a.id@) matches Some(m) && cred_views_match(e.credentials@, m@)
}

/// Fix the export entry list from the loaded accounts and their loaded
/// credentials: one entry per account whose credentials are present, in
/// order, each carrying that account's fields and a freshly minted id.
pub fn plan_export_entries(accounts: &Vec<Account>, creds: &Vec<(String, CredMap)>) -> (r: Vec<
    ExportedAccount,
>)
    ensures
        r@.len() == exportable(accounts@, creds@).len(),
        forall|i: int|
            0 <= i < r@.len() ==> export_entry_for(
                exportable(accounts@, creds@)[i],
                creds@,
                #[trigger] r@[i],
            ),
{
    let mut out: Vec<ExportedAccount> = Vec::new();
    let n = accounts.len();
    for i in 0..n
        invariant
            n == accounts@.len(),
            out@.len() == exportable(accounts@.take(i as int), creds@).len(),
            forall|j: int|
                0 <= j < out@.len() ==> export_entry_for(
                    exportable(accounts@.take(i as int), creds@)[j],
                    creds@,
                    #[trigger] out@[j],
                ),
    {
        proof {
            assert(accounts@.take(i + 1).drop_last() =~= accounts@.take(i as int));
            assert(accounts@.take(i + 1).last() == accounts@[i as int]);
        }
        let account = &accounts[i];
        match cred_map_get(creds, account.id.as_str()) {
            Some(m) => {
                let entry = ExportedAccount {
                    id: new_uuid(),
                    name: account.name.clone(),
                    provider: account.provider,
                    created_at: account.created_at.clone(),
                    updated_at: account.updated_at.clone(),
                    credentials: clone_cred_map(m),
                };
                proof {
                    assert(export_entry_for(accounts@[i as int], creds@, entry));
                }
                let ghost prev = out@;
                out.push(entry);
                proof {
                    let grown = exportable(accounts@.take(i + 1), creds@);
                    assert(grown =~= exportable(accounts@.take(i as int), creds@) + seq![
                        accounts@[i as int],
                    ]);
                    assert(forall|j: int| 0 <= j < prev.len() ==> out@[j] == prev[j]);
                    assert(grown[out@.len() - 1] == accounts@[i as int]);
                }
            },
            None => {
                proof {
                    assert(exportable(accounts@.take(i + 1), creds@) =~= exportable(
                        accounts@.take(i as int),
                        creds@,
                    ));
                }
            },
        }
    }
    proof {
        assert(accounts@.take(n as int) =~= accounts@);
    }
    out
}

/// What a built entry list says of the stores it was drawn from: some
/// loaded metadata and credentials exist under which the requested ids
/// select a nonempty account set, and the entries are exactly the export
/// plan for that selection.
pub open spec fn entries_from_stores(
    entries: Seq<ExportedAccount>,
    requested: Seq<String>,
) -> bool {
    exists|all: Seq<Account>, loaded: Seq<(String, CredMap)>|
        #![trigger exportable(selected_accounts(all, requested), loaded)]
        {
            &&& selected_accounts(all, requested).len() > 0
            &&& entries.len() == exportable(selected_accounts(all, requested), loaded).len()
            &&& forall|i: int|
                0 <= i < entries.len() ==> export_entry_for(
                    exportable(selected_accounts(all, requested), loaded)[i],
                    loaded,
                    #[trigger] entries[i],
                )
        }
}

/// The header and data of a plain export file for an entry list.
pub open spec fn plain_export_file(
    f: ExportFile,
    entries: Seq<ExportedAccount>,
    now: Seq<char>,
    app_version: Seq<char>,
) -> bool {
    &&& f.header.version == crate::CURRENT_FILE_VERSION
    &&& f.header.encrypted == false
    &&& f.header.salt is None
    &&& f.header.nonce is None
    &&& f.header.exported_at@ == now
    &&& f.header.app_version@ == app_version
    &&& f.data matches ExportData::Accounts(v) && v@ == entries
}

/// The header and data of a password-sealed export file for an entry
/// list: the data field decrypts under the password to exactly the
/// serialized account array.
pub open spec fn sealed_export_file(
    f: ExportFile,
    entries: Seq<ExportedAccount>,
    pw: Seq<u8>,
    now: Seq<char>,
    app_version: Seq<char>,
) -> bool {
    &&& f.header.version == crate::CURRENT_FILE_VERSION
    &&& f.header.encrypted == true
    &&& f.header.exported_at@ == now
    &&& f.header.app_version@ == app_version
    &&& f.header.salt matches Some(salt) && f.header.nonce matches Some(nonce) && f.data
        matches ExportData::Cipher(c) && blob_opened(
        c@,
        pw,
        salt@,
        nonce@,
        crate::spec_pbkdf2_iterations(crate::CURRENT_FILE_VERSION),
    ) == Some(accounts_json(entries))
}

/// Render a built entry list into the final export file text. When
/// encryption is requested, the serialized account array is sealed under
/// the password with a fresh salt and nonce, and decrypting the data field
/// with that password regenerates exactly the serialized array.
pub fn build_export_response(
    entries: Vec<ExportedAccount>,
    encrypt_payload: bool,
    password: &Option<String>,
    now: &str,
    app_version: &str,
    filename_stamp: &str,
) -> (r: Result<ExportAccountsResponse, CoreError>)
    ensures
        (encrypt_payload && password is None) ==> (r matches Err(CoreError::ValidationError(m))
            && m@ == "Password required for encrypted export"@),
        (encrypt_payload && password is Some && accounts_json(entries@).len()
            <= 0x10_0000_0000) ==> r is Ok,
        (!encrypt_payload) ==> (r matches Ok(resp) && exists|f: ExportFile|
            resp.content@ == chars_of_bytes(export_file_json(f)) && #[trigger] plain_export_file(
                f,
                entries@,
                now@,
                app_version@,
            )),
        (encrypt_payload && password is Some) ==> (r matches Ok(resp) ==> exists|f: ExportFile|
            resp.content@ == chars_of_bytes(export_file_json(f)) && #[trigger] sealed_export_file(
                f,
                entries@,
                vstd::utf8::encode_utf8((*password)->Some_0@),
                now@,
                app_version@,
            )),
        r matches Ok(resp) ==> resp.suggested_filename@ == "dns-orchestrator-backup-"@
            + filename_stamp@ + ".dnso"@,
{
    let file: ExportFile;
    if encrypt_payload {
        let pw = match password {
            Some(p) => p,
            None => {
                return Err(
                    CoreError::ValidationError(
                        String::from_str("Password required for encrypted export"),
                    ),
                );
            },
        };
        let mut plaintext: Vec<u8> = Vec::new();
        crate::export::push_accounts_json(&mut plaintext, &entries);
        let (salt, nonce, ciphertext) = match encrypt(plaintext.as_slice(), pw.as_str()) {
            Ok(t) => t,
            Err(_) => {
                return Err(CoreError::ImportExportError(String::from_str("Encryption failed")));
            },
        };
        file = ExportFile {
            header: ExportFileHeader {
                version: crate::CURRENT_FILE_VERSION,
                encrypted: true,
                salt: Some(salt),
                nonce: Some(nonce),
                exported_at: String::from_str(now),
                app_version: String::from_str(app_version),
            },
            data: ExportData::Cipher(ciphertext),
        };
    } else {
        file = ExportFile {
            header: ExportFileHeader {
                version: crate::CURRENT_FILE_VERSION,
                encrypted: false,
                salt: None,
                nonce: None,
                exported_at: String::from_str(now),
                app_version: String::from_str(app_version),
            },
            data: ExportData::Accounts(entries),
        };
    }
    let content = crate::export::render_export_file(&file);
    proof {
        if !encrypt_payload {
            assert(plain_export_file(file, entries@, now@, app_version@));
        } else {
            assert(sealed_export_file(
                file,
                entries@,
                vstd::utf8::encode_utf8((*password)->Some_0@),
                now@,
                app_version@,
            ));
        }
    }
    let mut suggested_filename = String::new();
    suggested_filename.append("dns-orchestrator-backup-");
    suggested_filename.append(filename_stamp);
    suggested_filename.append(".dnso");
    proof {
        assert(suggested_filename@ =~= "dns-orchestrator-backup-"@ + filename_stamp@ + ".dnso"@);
    }
    Ok(ExportAccountsResponse { content, suggested_filename })
}

/// First-match lookup of an account's credentials in a bulk-loaded list.
pub open spec fn cred_map_lookup(creds: Seq<(String, CredMap)>, id: Seq<char>) -> Option<CredMap>
    decreases creds.len(),
{
    if creds.len() == 0 {
        None
    } else if creds[0].0@ == id {
        Some(creds[0].1)
    } else {
        cred_map_lookup(creds.drop_first(), id)
    }
}

/// Find an account's credentials in a bulk-loaded list.
pub fn cred_map_get<'a>(creds: &'a Vec<(String, CredMap)>, id: &str) -> (r: Option<&'a CredMap>)
    ensures
        r matches Some(v) ==> cred_map_lookup(creds@, id@) == Some(*v),
        (r is Some) == (cred_map_lookup(creds@, id@) is Some),
{
    let n = creds.len();
    proof {
        assert(creds@.skip(0) =~= creds@);
    }
    for i in 0..n
        invariant
            n == creds@.len(),
            cred_map_lookup(creds@, id@) == cred_map_lookup(creds@.skip(i as int), id@),
            forall|j: int| 0 <= j < i ==> creds@[j].0@ != id@,
    {
        proof {
            assert(creds@.skip(i as int)[0] == creds@[i as int]);
            assert(creds@.skip(i as int).drop_first() =~= creds@.skip(i + 1));
        }
        if str_eq(creds[i].0.as_str(), id) {
            return Some(&creds[i].1);
        }
    }
    proof {
        assert(creds@.skip(n as int).len() == 0);
    }
    None
}

/// Whether an account comes back to life from the bulk-loaded credentials:
/// its credentials are present and structurally complete.
pub open spec fn account_restores(a: Account, creds: Seq<(String, CredMap)>) -> bool {
    match cred_map_lookup(creds, a.id@) {
        Some(m) => map_complete_for(a.provider, m@),
        None => false,
    }
}

/// How many of the first `i` accounts restore.
pub open spec fn count_restored(accounts: Seq<Account>, creds: Seq<(String, CredMap)>, i: int) -> int
    decreases i,
{
    if i <= 0 {
        0
    } else {
        count_restored(accounts, creds, i - 1) + (if account_restores(accounts[i - 1], creds) {
            1int
        } else {
            0int
        })
    }
}

/// The status write restore plans for one account.
pub open spec fn planned_update(
    a: Account,
    creds: Seq<(String, CredMap)>,
    u: (String, AccountStatus, Option<String>),
) -> bool {
    &&& u.0@ == a.id@
    &&& match cred_map_lookup(creds, a.id@) {
        None => u.1 == AccountStatus::Error && (u.2 matches Some(e) && e@
            == "Credentials not found"@),
        Some(m) => {
            if map_complete_for(a.provider, m@) {
                u.1 == AccountStatus::Active && u.2 is None
            } else {
                u.1 == AccountStatus::Error && (u.2 matches Some(e) && e@
                    == "Invalid credentials format: "@ + missing_field_msg(a.provider, m@))
            }
        },
    }
}

/// The map after registering a list of adapters, last entry first: the
/// order the restore path applies them in.
pub open spec fn insert_all(
    m: Map<Seq<char>, ProviderInstance>,
    regs: Seq<(String, ProviderInstance)>,
) -> Map<Seq<char>, ProviderInstance>
    decreases regs.len(),
{
    if regs.len() == 0 {
        m
    } else {
        insert_all(m.insert(regs.last().0@, regs.last().1), regs.drop_last())
    }
}

/// The counts a restore reports for loaded metadata and a bulk credential
/// load's outcome: a failed load means zero successes and one error per
/// account; otherwise exactly the accounts whose credentials are present
/// and complete succeed.
pub open spec fn restore_counts_for(
    accounts: Seq<Account>,
    loaded: Result<Vec<(String, CredMap)>, String>,
    res: RestoreResult,
) -> bool {
    match loaded {
        Err(_) => res.success_count == 0 && res.error_count == accounts.len(),
        Ok(creds) => {
            &&& res.success_count == count_restored(accounts, creds@, accounts.len() as int)
            &&& res.success_count + res.error_count == accounts.len()
        },
    }
}

/// What a finished restore left behind: its counts follow some loaded
/// metadata and bulk-load outcome, and the registry grew by exactly one
/// registration per reported success.
pub open spec fn restore_applied(
    old_registry: Map<Seq<char>, ProviderInstance>,
    new_registry: Map<Seq<char>, ProviderInstance>,
    res: RestoreResult,
) -> bool {
    exists|
        accounts: Seq<Account>,
        loaded: Result<Vec<(String, CredMap)>, String>,
        regs: Seq<(String, ProviderInstance)>,
    |
        #![trigger restore_counts_for(accounts, loaded, res), insert_all(old_registry, regs)]
        {
            &&& restore_counts_for(accounts, loaded, res)
            &&& regs.len() == res.success_count
            &&& new_registry == insert_all(old_registry, regs)
        }
}

/// What the restore path decides before touching any store: the counts it
/// reports, the status each account is to be given, and the adapters to
/// register.
pub struct RestorePlan {
    pub result: RestoreResult,
    pub updates: Vec<(String, AccountStatus, Option<String>)>,
    pub registrations: Vec<(String, ProviderInstance)>,
}

/// Decide the whole restore from the loaded metadata and the bulk
/// credential load's outcome. When the bulk load itself failed, every
/// account is marked with that one failure and no adapter is registered:
/// the restore reports zero successes.
pub fn restore_plan(
    accounts: &Vec<Account>,
    creds_result: &Result<Vec<(String, CredMap)>, String>,
) -> (r: RestorePlan)
    ensures
        creds_result matches Err(m) ==> {
            &&& r.result.success_count == 0
            &&& r.result.error_count == accounts@.len()
            &&& r.registrations@.len() == 0
            &&& r.updates@.len() == accounts@.len()
            &&& forall|i: int|
                0 <= i < accounts@.len() ==> (#[trigger] r.updates@[i]).0@ == accounts@[i].id@
                    && r.updates@[i].1 == AccountStatus::Error && (r.updates@[i].2 matches Some(e)
                    && e@ == m@)
        },
        creds_result matches Ok(creds) ==> {
            &&& r.result.success_count == count_restored(accounts@, creds@, accounts@.len() as int)
            &&& r.result.success_count + r.result.error_count == accounts@.len()
            &&& r.updates@.len() == accounts@.len()
            &&& forall|i: int|
                0 <= i < accounts@.len() ==> planned_update(
                    accounts@[i],
                    creds@,
                    #[trigger] r.updates@[i],
                )
            &&& r.registrations@.len() == r.result.success_count
        },
{
    let mut updates: Vec<(String, AccountStatus, Option<String>)> = Vec::new();
    let mut registrations: Vec<(String, ProviderInstance)> = Vec::new();
    let mut success_count: usize = 0;
    let mut error_count: usize = 0;
    let n = accounts.len();
    match creds_result {
        Err(m) => {
            for i in 0..n
                invariant
                    n == accounts@.len(),
                    updates@.len() == i,
                    forall|j: int|
                        0 <= j < i ==> (#[trigger] updates@[j]).0@ == accounts@[j].id@
                            && updates@[j].1 == AccountStatus::Error && (updates@[j].2
                            matches Some(e) && e@ == m@),
            {
                updates.push((accounts[i].id.clone(), AccountStatus::Error, Some(m.clone())));
            }
            RestorePlan {
                result: RestoreResult { success_count: 0, error_count: accounts.len() },
                updates,
                registrations,
            }
        },
        Ok(creds) => {
            for i in 0..n
                invariant
                    n == accounts@.len(),
                    updates@.len() == i,
                    success_count + error_count == i,
                    success_count == count_restored(accounts@, creds@, i as int),
                    registrations@.len() == success_count,
                    forall|j: int|
                        0 <= j < i ==> planned_update(accounts@[j], creds@, #[trigger] updates@[j]),
            {
                let account = &accounts[i];
                match cred_map_get(creds, account.id.as_str()) {
                    None => {
                        updates.push(
                            (
                                account.id.clone(),
                                AccountStatus::Error,
                                Some(String::from_str("Credentials not found")),
                            ),
                        );
                        error_count = error_count + 1;
                    },
                    Some(m) => {
                        match ProviderCredentials::from_map(&account.provider, m) {
                            Err(e) => {
                                let mut reason = String::new();
                                reason.append("Invalid credentials format: ");
                                reason.append(e.as_str());
                                proof {
                                    assert(reason@ =~= "Invalid credentials format: "@ + e@);
                                }
                                updates.push(
                                    (account.id.clone(), AccountStatus::Error, Some(reason)),
                                );
                                error_count = error_count + 1;
                            },
                            Ok(creds_value) => {
                                match create_provider(creds_value) {
                                    Ok(instance) => {
                                        registrations.push((account.id.clone(), instance));
                                        updates.push(
                                            (account.id.clone(), AccountStatus::Active, None),
                                        );
                                        success_count = success_count + 1;
                                    },
                                    Err(_) => {
                                        updates.push(
                                            (
                                                account.id.clone(),
                                                AccountStatus::Error,
                                                Some(
                                                    String::from_str("Failed to create provider"),
                                                ),
                                            ),
                                        );
                                        error_count = error_count + 1;
                                    },
                                }
                            },
                        }
                    },
                }
            }
            RestorePlan {
                result: RestoreResult { success_count, error_count },
                updates,
                registrations,
            }
        },
    }
}

/// The failure reason recorded for a structurally invalid imported
/// account.
pub open spec fn invalid_creds_reason(p: ProviderType, m: Seq<(String, String)>) -> Seq<char> {
    "Invalid credentials format: "@ + missing_field_msg(p, m)
}

/// What a recorded import failure says about the input account it names:
/// a structurally invalid account carries the invalid-credentials reason
/// exactly; a structurally complete one failed at a later step and carries
/// that step's reason.
/// Every recorded failure traces back to one of the input accounts.
pub open spec fn failures_trace_to(
    accounts: Seq<ExportedAccount>,
    failures: Seq<ImportFailure>,
) -> bool {
    forall|j: int|
        0 <= j < failures.len() ==> exists|i: int|
            0 <= i < accounts.len() && import_failure_for(accounts[i], #[trigger] failures[j])
}

pub open spec fn import_failure_for(a: ExportedAccount, f: ImportFailure) -> bool {
    &&& f.name@ == a.name@
    &&& if !map_complete_for(a.provider, a.credentials@) {
        f.reason@ == invalid_creds_reason(a.provider, a.credentials@)
    } else {
        ||| f.reason@ == "Failed to create provider"@
        ||| exists|d: Seq<char>| f.reason@ == "Failed to save credentials: "@ + d
        ||| exists|d: Seq<char>| f.reason@ == "Failed to save account: "@ + d
    }
}

/// The account lifecycle orchestrator, owning the live-adapter registry
/// and the two injected store collaborators.
pub struct AccountService<R: AccountRepository, C: CredentialStore> {
    pub repository: R,
    pub credential_store: C,
    pub registry: ProviderRegistry,
}

impl<R: AccountRepository, C: CredentialStore> AccountService<R, C> {
    /// The registry bookkeeping is intact.
    pub open spec fn wf(&self) -> bool {
        self.registry.wf()
    }

    /// Build a service around the two injected stores, with an empty
    /// registry.
    pub fn new(repository: R, credential_store: C) -> (r: AccountService<R, C>)
        ensures
            r.wf(),
            r.registry@ == Map::<Seq<char>, ProviderInstance>::empty(),
    {
        AccountService { repository, credential_store, registry: ProviderRegistry::new() }
    }

    /// List all account metadata.
    pub fn list_accounts(&self) -> (r: Result<Vec<Account>, CoreError>)
        ensures
            r matches Err(e) ==> e matches CoreError::StorageError(_),
    {
        match self.repository.find_all() {
            Ok(v) => Ok(v),
            Err(e) => Err(CoreError::StorageError(e)),
        }
    }

    /// The static vendor capability table.
    pub fn list_providers(&self) -> (r: Vec<ProviderMetadata>)
        ensures
            r@.len() == 4,
            r@[0].id@ == provider_tag(ProviderType::Cloudflare),
            r@[1].id@ == provider_tag(ProviderType::Aliyun),
            r@[2].id@ == provider_tag(ProviderType::Dnspod),
            r@[3].id@ == provider_tag(ProviderType::Huaweicloud),
    {
        crate::misc::get_all_provider_metadata()
    }

    /// Commit one account whose credentials the vendor has already judged:
    /// read and reject malformed credentials, refuse a failed
    /// validation with nothing persisted, then persist credentials,
    /// register the adapter, and persist metadata — in that order, so a
    /// partially failed create never registers an adapter without durable
    /// credentials.
    pub fn create_account(
        &mut self,
        request: &CreateAccountRequest,
        credentials_valid: bool,
        account_id: String,
        now: &str,
    ) -> (r: Result<Account, CoreError>)
        requires
            old(self).wf(),
        ensures
            final(self).wf(),
            !map_complete_for(request.provider, request.credentials@) ==> (r matches Err(
                CoreError::CredentialValidation(m),
            ) && m@ == missing_field_msg(request.provider, request.credentials@) && final(self).registry@ == old(self).registry@),
            (map_complete_for(request.provider, request.credentials@) && !credentials_valid) ==> (
            r matches Err(CoreError::InvalidCredentials(p)) && p@ == provider_tag(request.provider)
                && final(self).registry@ == old(self).registry@),
            r matches Err(CoreError::CredentialError(_)) ==> final(self).registry@ == old(
                self,
            ).registry@,
            r matches Err(CoreError::CredentialValidation(_)) ==> !map_complete_for(
                request.provider,
                request.credentials@,
            ),
            r matches Err(CoreError::InvalidCredentials(_)) ==> map_complete_for(
                request.provider,
                request.credentials@,
            ) && !credentials_valid,
            r matches Ok(a) ==> {
                &&& a.id@ == account_id@
                &&& a.name@ == request.name@
                &&& a.provider == request.provider
                &&& a.created_at@ == now@
                &&& a.updated_at@ == now@
                &&& a.status == Some(AccountStatus::Active)
                &&& a.error is None
            },
            (r matches Ok(_) || r matches Err(CoreError::StorageError(_))) ==> (exists|
                inst: ProviderInstance,
                c: ProviderCredentials,
            |
                final(self).registry@ == old(self).registry@.insert(account_id@, inst)
                    && creds_match_map(request.provider, request.credentials@, c)
                    && instance_matches_creds(inst, c)),
    {
        let credentials = match ProviderCredentials::from_map(
            &request.provider,
            &request.credentials,
        ) {
            Ok(c) => c,
            Err(e) => {
                return Err(CoreError::CredentialValidation(e));
            },
        };
        let provider = match create_provider(credentials) {
            Ok(p) => p,
            Err(_) => {
                return Err(
                    CoreError::CredentialValidation(String::from_str("Unsupported provider")),
                );
            },
        };
        if !credentials_valid {
            return Err(CoreError::InvalidCredentials(request.provider.name()));
        }
        match self.credential_store.save(account_id.as_str(), &request.credentials) {
            Ok(()) => {},
            Err(e) => {
                return Err(CoreError::CredentialError(e));
            },
        }
        self.registry.register(account_id.clone(), provider);
        let account = Account {
            id: account_id,
            name: request.name.clone(),
            provider: request.provider,
            created_at: String::from_str(now),
            updated_at: String::from_str(now),
            status: Some(AccountStatus::Active),
            error: None,
        };
        match self.repository.save(&account) {
            Ok(()) => Ok(account),
            Err(e) => Err(CoreError::StorageError(e)),
        }
    }

    /// Delete an account: require its metadata to exist, unregister the
    /// adapter, delete credentials tolerating absence, then delete the
    /// metadata — the operation of record.
    pub fn delete_account(&mut self, account_id: &str) -> (r: Result<(), CoreError>)
        requires
            old(self).wf(),
        ensures
            final(self).wf(),
            r matches Err(CoreError::AccountNotFound(n)) ==> n@ == account_id@ && final(self).registry@ == old(self).registry@,
            r is Ok ==> final(self).registry@ == old(self).registry@.remove(account_id@),
    {
        match self.repository.find_by_id(account_id) {
            Ok(Some(_)) => {},
            Ok(None) => {
                return Err(CoreError::AccountNotFound(String::from_str(account_id)));
            },
            Err(e) => {
                return Err(CoreError::StorageError(e));
            },
        }
        self.registry.unregister(account_id);
        let _ignored = self.credential_store.delete(account_id);
        match self.repository.delete(account_id) {
            Ok(()) => Ok(()),
            Err(e) => Err(CoreError::StorageError(e)),
        }
    }

    /// Collect the export entries for the requested account ids: select by
    /// id (unknown ids are silently ignored), load each selected account's
    /// credentials skipping accounts whose load fails rather than failing
    /// the batch, and fix the entries through the export plan, with a
    /// fresh id minted per entry so an import can never collide with a
    /// source id.
    pub fn build_export_entries(&self, request: &ExportAccountsRequest) -> (r: Result<
        Vec<ExportedAccount>,
        CoreError,
    >)
        ensures
            request.account_ids@.len() == 0 ==> r is Err,
            r matches Err(e) ==> (e matches CoreError::StorageError(_) || e
                == CoreError::NoAccountsSelected),
            r matches Ok(v) ==> entries_from_stores(v@, request.account_ids@),
    {
        let all_accounts = match self.repository.find_all() {
            Ok(v) => v,
            Err(e) => {
                return Err(CoreError::StorageError(e));
            },
        };
        let selected = select_accounts(&all_accounts, &request.account_ids);
        proof {
            if request.account_ids@.len() == 0 {
                lemma_selected_no_requests(all_accounts@, request.account_ids@);
            }
        }
        if selected.len() == 0 {
            return Err(CoreError::NoAccountsSelected);
        }
        let mut loaded: Vec<(String, CredMap)> = Vec::new();
        let k = selected.len();
        for i in 0..k
            invariant
                k == selected@.len(),
        {
            match self.credential_store.load(selected[i].id.as_str()) {
                Ok(credentials) => {
                    loaded.push((selected[i].id.clone(), credentials));
                },
                Err(_) => {},
            }
        }
        let entries = plan_export_entries(&selected, &loaded);
        proof {
            assert(selected@ == selected_accounts(all_accounts@, request.account_ids@));
            assert(selected_accounts(all_accounts@, request.account_ids@).len() > 0);
            assert(entries@.len() == exportable(
                selected_accounts(all_accounts@, request.account_ids@),
                loaded@,
            ).len());
            assert(forall|i: int|
                0 <= i < entries@.len() ==> export_entry_for(
                    exportable(selected_accounts(all_accounts@, request.account_ids@), loaded@)[i],
                    loaded@,
                    #[trigger] entries@[i],
                ));
            assert(entries_from_stores(entries@, request.account_ids@));
        }
        Ok(entries)
    }

    /// Export the requested accounts into a file, optionally sealing the
    /// payload under a password. The caller supplies the UTC timestamp and
    /// the local-time stamp for the suggested file name.
    pub fn export_accounts(
        &self,
        request: &ExportAccountsRequest,
        app_version: &str,
        now: &str,
        filename_stamp: &str,
    ) -> (r: Result<ExportAccountsResponse, CoreError>)
        ensures
            (request.encrypt && request.password is None) ==> r is Err,
            request.account_ids@.len() == 0 ==> r is Err,
            r matches Ok(resp) ==> resp.suggested_filename@ == "dns-orchestrator-backup-"@
                + filename_stamp@ + ".dnso"@,
            (!request.encrypt) ==> (r matches Ok(resp) ==> exists|
                f: ExportFile,
                entries: Seq<ExportedAccount>,
            |
                {
                    &&& resp.content@ == chars_of_bytes(export_file_json(f))
                    &&& #[trigger] plain_export_file(f, entries, now@, app_version@)
                    &&& entries_from_stores(entries, request.account_ids@)
                }),
            (request.encrypt && request.password is Some) ==> (r matches Ok(resp) ==> exists|
                f: ExportFile,
                entries: Seq<ExportedAccount>,
            |
                {
                    &&& resp.content@ == chars_of_bytes(export_file_json(f))
                    &&& #[trigger] sealed_export_file(
                        f,
                        entries,
                        vstd::utf8::encode_utf8((request.password)->Some_0@),
                        now@,
                        app_version@,
                    )
                    &&& entries_from_stores(entries, request.account_ids@)
                }),
    {
        let entries = match self.build_export_entries(request) {
            Ok(v) => v,
            Err(e) => {
                return Err(e);
            },
        };
        let ghost entries_view = entries@;
        let result = build_export_response(
            entries,
            request.encrypt,
            &request.password,
            now,
            app_version,
            filename_stamp,
        );
        proof {
            if result is Ok {
                let resp = result->Ok_0;
                if !request.encrypt {
                    let f = choose|f: ExportFile|
                        resp.content@ == chars_of_bytes(export_file_json(f))
                            && #[trigger] plain_export_file(f, entries_view, now@, app_version@);
                    assert(resp.content@ == chars_of_bytes(export_file_json(f))
                        && plain_export_file(f, entries_view, now@, app_version@));
                    assert(entries_from_stores(entries_view, request.account_ids@));
                } else if request.password is Some {
                    let f = choose|f: ExportFile|
                        resp.content@ == chars_of_bytes(export_file_json(f))
                            && #[trigger] sealed_export_file(
                            f,
                            entries_view,
                            vstd::utf8::encode_utf8((request.password)->Some_0@),
                            now@,
                            app_version@,
                        );
                    assert(resp.content@ == chars_of_bytes(export_file_json(f))
                        && sealed_export_file(
                        f,
                        entries_view,
                        vstd::utf8::encode_utf8((request.password)->Some_0@),
                        now@,
                        app_version@,
                    ));
                    assert(entries_from_stores(entries_view, request.account_ids@));
                }
            }
        }
        result
    }

    /// Preview a parsed account list against the stored accounts: the only
    /// conflict signal is a name equal to an existing account's name.
    pub fn preview_import(&self, encrypted: bool, accounts: &Vec<ExportedAccount>) -> (r: Result<
        ImportPreview,
        CoreError,
    >)
        ensures
            r matches Ok(p) ==> {
                &&& p.encrypted == encrypted
                &&& p.account_count == accounts@.len()
                &&& p.accounts matches Some(v) && v@.len() == accounts@.len() && forall|i: int|
                    0 <= i < accounts@.len() ==> (#[trigger] v@[i]).name@ == accounts@[i].name@
                        && v@[i].provider == accounts@[i].provider
            },
            r matches Err(e) ==> e matches CoreError::StorageError(_),
    {
        let existing = match self.repository.find_all() {
            Ok(v) => v,
            Err(e) => {
                return Err(CoreError::StorageError(e));
            },
        };
        let names = account_names(&existing);
        Ok(preview_from_accounts(encrypted, accounts, &names))
    }

    /// Import a parsed account list, one account at a time: read the
    /// credentials, mint a fresh id, persist credentials, register the
    /// adapter, persist metadata. A failing account is recorded with its
    /// name and reason and the rest of the batch goes on.
    pub fn import_accounts(&mut self, accounts: &Vec<ExportedAccount>, now: &str) -> (r:
        ImportResult)
        requires
            old(self).wf(),
        ensures
            final(self).wf(),
            r.success_count + r.failures@.len() == accounts@.len(),
            forall|i: int|
                0 <= i < accounts@.len() && !map_complete_for(
                    (#[trigger] accounts@[i]).provider,
                    accounts@[i].credentials@,
                ) ==> exists|j: int|
                    0 <= j < r.failures@.len() && (#[trigger] r.failures@[j]).name@
                        == accounts@[i].name@ && r.failures@[j].reason@ == invalid_creds_reason(
                        accounts@[i].provider,
                        accounts@[i].credentials@,
                    ),
            failures_trace_to(accounts@, r.failures@),
    {
        let mut success_count: usize = 0;
        let mut failures: Vec<ImportFailure> = Vec::new();
        let n = accounts.len();
        let mut i: usize = 0;
        while i < n
            invariant
                self.wf(),
                n == accounts@.len(),
                i <= n,
                success_count + failures@.len() == i,
                forall|k: int|
                    0 <= k < i && !map_complete_for(
                        (#[trigger] accounts@[k]).provider,
                        accounts@[k].credentials@,
                    ) ==> exists|j: int|
                        0 <= j < failures@.len() && (#[trigger] failures@[j]).name@
                            == accounts@[k].name@ && failures@[j].reason@ == invalid_creds_reason(
                            accounts@[k].provider,
                            accounts@[k].credentials@,
                        ),
                failures_trace_to(accounts@, failures@),
            decreases n - i,
        {
            let exported = &accounts[i];
            let credentials = match ProviderCredentials::from_map(
                &exported.provider,
                &exported.credentials,
            ) {
                Ok(c) => c,
                Err(e) => {
                    let mut reason = String::new();
                    reason.append("Invalid credentials format: ");
                    reason.append(e.as_str());
                    proof {
                        assert(reason@ =~= invalid_creds_reason(
                            accounts@[i as int].provider,
                            accounts@[i as int].credentials@,
                        ));
                    }
                    let ghost prev_failures = failures@;
                    failures.push(ImportFailure { name: exported.name.clone(), reason });
                    proof {
                        assert(forall|j: int|
                            0 <= j < prev_failures.len() ==> failures@[j] == prev_failures[j]);
                        assert(failures@[failures@.len() - 1].name@
                            == accounts@[i as int].name@);
                        assert(failures@[failures@.len() - 1].reason@ == invalid_creds_reason(
                            accounts@[i as int].provider,
                            accounts@[i as int].credentials@,
                        ));
                        assert(import_failure_for(
                            accounts@[i as int],
                            failures@[failures@.len() - 1],
                        ));
                    }
                    i = i + 1;
                    continue ;
                },
            };
            let provider = match create_provider(credentials) {
                Ok(p) => p,
                Err(_) => {
                    let ghost prev_failures = failures@;
                    failures.push(
                        ImportFailure {
                            name: exported.name.clone(),
                            reason: String::from_str("Failed to create provider"),
                        },
                    );
                    proof {
                        assert(forall|j: int|
                            0 <= j < prev_failures.len() ==> failures@[j] == prev_failures[j]);
                        assert(import_failure_for(
                            accounts@[i as int],
                            failures@[failures@.len() - 1],
                        ));
                    }
                    i = i + 1;
                    continue ;
                },
            };
            let account_id = new_uuid();
            match self.credential_store.save(account_id.as_str(), &exported.credentials) {
                Ok(()) => {},
                Err(e) => {
                    let mut reason = String::new();
                    reason.append("Failed to save credentials: ");
                    reason.append(e.as_str());
                    let ghost prev_failures = failures@;
                    failures.push(ImportFailure { name: exported.name.clone(), reason });
                    proof {
                        assert(forall|j: int|
                            0 <= j < prev_failures.len() ==> failures@[j] == prev_failures[j]);
                        assert(failures@[failures@.len() - 1].reason@
                            =~= "Failed to save credentials: "@ + e@);
                        assert(import_failure_for(
                            accounts@[i as int],
                            failures@[failures@.len() - 1],
                        ));
                    }
                    i = i + 1;
                    continue ;
                },
            }
            self.registry.register(account_id.clone(), provider);
            let account = Account {
                id: account_id,
                name: exported.name.clone(),
                provider: exported.provider,
                created_at: String::from_str(now),
                updated_at: String::from_str(now),
                status: Some(AccountStatus::Active),
                error: None,
            };
            match self.repository.save(&account) {
                Ok(()) => {
                    success_count = success_count + 1;
                },
                Err(e) => {
                    let mut reason = String::new();
                    reason.append("Failed to save account: ");
                    reason.append(e.as_str());
                    let ghost prev_failures = failures@;
                    failures.push(ImportFailure { name: account.name, reason });
                    proof {
                        assert(forall|j: int|
                            0 <= j < prev_failures.len() ==> failures@[j] == prev_failures[j]);
                        assert(failures@[failures@.len() - 1].reason@
                            =~= "Failed to save account: "@ + e@);
                        assert(import_failure_for(
                            accounts@[i as int],
                            failures@[failures@.len() - 1],
                        ));
                    }
                },
            }
            i = i + 1;
        }
        let ghost final_failures = failures@;
        let result = ImportResult { success_count, failures };
        proof {
            assert(result.failures@ == final_failures);
            assert(failures_trace_to(accounts@, result.failures@));
        }
        result
    }

    /// Restore all accounts at startup: load the metadata and the whole
    /// credential store, decide every account's fate, write the statuses
    /// back best-effort, and register the adapters of the accounts that
    /// restore. No network validation happens here.
    pub fn restore_accounts(&mut self) -> (r: Result<RestoreResult, CoreError>)
        requires
            old(self).wf(),
        ensures
            final(self).wf(),
            r matches Err(e) ==> (e matches CoreError::StorageError(_) && final(self).registry@
                == old(self).registry@),
            r matches Ok(res) ==> restore_applied(
                old(self).registry@,
                final(self).registry@,
                res,
            ),
    {
        let accounts = match self.repository.find_all() {
            Ok(v) => v,
            Err(e) => {
                return Err(CoreError::StorageError(e));
            },
        };
        let creds_result = self.credential_store.load_all();
        let plan = restore_plan(&accounts, &creds_result);
        let ghost regs0 = plan.registrations@;
        let plan_result = plan.result;
        let updates = plan.updates;
        let k = updates.len();
        for i in 0..k
            invariant
                self.wf(),
                k == updates@.len(),
                self.registry@ == old(self).registry@,
        {
            let error = match &updates[i].2 {
                Some(e) => Some(e.clone()),
                None => None,
            };
            let _ignored = self.repository.update_status(
                updates[i].0.as_str(),
                updates[i].1,
                error,
            );
        }
        let mut registrations = plan.registrations;
        while registrations.len() > 0
            invariant
                self.wf(),
                insert_all(old(self).registry@, regs0) == insert_all(
                    self.registry@,
                    registrations@,
                ),
            decreases registrations@.len(),
        {
            let ghost regs_pre = registrations@;
            let ghost registry_pre = self.registry@;
            match registrations.pop() {
                Some((id, instance)) => {
                    let ghost gid = id@;
                    let ghost ginst = instance;
                    self.registry.register(id, instance);
                    proof {
                        assert(regs_pre.last().0@ == gid && regs_pre.last().1 == ginst);
                        assert(insert_all(registry_pre, regs_pre) == insert_all(
                            registry_pre.insert(regs_pre.last().0@, regs_pre.last().1),
                            regs_pre.drop_last(),
                        ));
                        assert(self.registry@ == registry_pre.insert(gid, ginst));
                        assert(insert_all(self.registry@, registrations@) == insert_all(
                            registry_pre,
                            regs_pre,
                        ));
                    }
                },
                None => {},
            }
        }
        proof {
            assert(insert_all(self.registry@, registrations@) == self.registry@);
            assert(self.registry@ == insert_all(old(self).registry@, regs0));
            let ghost loaded = creds_result;
            assert(restore_counts_for(accounts@, loaded, plan_result));
            assert(regs0.len() == plan_result.success_count);
            assert(restore_applied(old(self).registry@, self.registry@, plan_result));
        }
        Ok(plan_result)
    }
}

/// Thin credential-management facade: structural validation, store
/// access, and registry registration for one adapter at a time.
pub struct CredentialManagementService<C: CredentialStore> {
    pub credential_store: C,
    pub provider_registry: ProviderRegistry,
}

impl<C: CredentialStore> CredentialManagementService<C> {
    /// Build a facade around a credential store, with an empty registry.
    pub fn new(credential_store: C) -> (r: CredentialManagementService<C>)
        ensures
            r.provider_registry.wf(),
            r.provider_registry@ == Map::<Seq<char>, ProviderInstance>::empty(),
    {
        CredentialManagementService { credential_store, provider_registry: ProviderRegistry::new() }
    }

    /// Translate credentials and build the adapter for one vendor, given
    /// the outcome of the vendor-side validation call.
    pub fn validate_and_create_provider(
        &self,
        provider_type: &ProviderType,
        credentials: &CredMap,
        credentials_valid: bool,
    ) -> (r: Result<ProviderInstance, CoreError>)
        ensures
            !map_complete_for(*provider_type, credentials@) ==> (r matches Err(
                CoreError::CredentialValidation(m),
            ) && m@ == missing_field_msg(*provider_type, credentials@)),
            (map_complete_for(*provider_type, credentials@) && !credentials_valid) ==> (r
                matches Err(CoreError::InvalidCredentials(p)) && p@ == provider_tag(
                *provider_type,
            )),
            (map_complete_for(*provider_type, credentials@) && credentials_valid) ==> (r
                matches Ok(inst) && exists|c: ProviderCredentials|
                creds_match_map(*provider_type, credentials@, c)
                    && crate::credentials::instance_matches_creds(inst, c)),
    {
        let provider_credentials = match ProviderCredentials::from_map(provider_type, credentials) {
            Ok(c) => c,
            Err(e) => {
                return Err(CoreError::CredentialValidation(e));
            },
        };
        let provider = match create_provider(provider_credentials) {
            Ok(p) => p,
            Err(_) => {
                return Err(
                    CoreError::CredentialValidation(String::from_str("Unsupported provider")),
                );
            },
        };
        if !credentials_valid {
            return Err(CoreError::InvalidCredentials(provider_type.name()));
        }
        Ok(provider)
    }

    /// Persist one account's credentials.
    pub fn save_credentials(&mut self, account_id: &str, credentials: &CredMap) -> (r: Result<
        (),
        CoreError,
    >)
        ensures
            r matches Err(e) ==> e matches CoreError::CredentialError(_),
    {
        match self.credential_store.save(account_id, credentials) {
            Ok(()) => Ok(()),
            Err(e) => Err(CoreError::CredentialError(e)),
        }
    }

    /// Load one account's credentials.
    pub fn load_credentials(&self, account_id: &str) -> (r: Result<CredMap, CoreError>)
        ensures
            r matches Err(e) ==> e matches CoreError::CredentialError(_),
    {
        match self.credential_store.load(account_id) {
            Ok(c) => Ok(c),
            Err(e) => Err(CoreError::CredentialError(e)),
        }
    }

    /// Delete one account's credentials.
    pub fn delete_credentials(&mut self, account_id: &str) -> (r: Result<(), CoreError>)
        ensures
            r matches Err(e) ==> e matches CoreError::CredentialError(_),
    {
        match self.credential_store.delete(account_id) {
            Ok(()) => Ok(()),
            Err(e) => Err(CoreError::CredentialError(e)),
        }
    }

    /// Load every account's credentials at once.
    pub fn load_all_credentials(&self) -> (r: Result<Vec<(String, CredMap)>, CoreError>)
        ensures
            r matches Err(e) ==> e matches CoreError::CredentialError(_),
    {
        match self.credential_store.load_all() {
            Ok(c) => Ok(c),
            Err(e) => Err(CoreError::CredentialError(e)),
        }
    }

    /// Register an adapter under an account id.
    pub fn register_provider(&mut self, account_id: String, provider: ProviderInstance)
        requires
            old(self).provider_registry.wf(),
        ensures
            final(self).provider_registry.wf(),
            final(self).provider_registry@ =~= old(self).provider_registry@.insert(
                account_id@,
                provider,
            ),
    {
        self.provider_registry.register(account_id, provider);
    }

    /// Drop the adapter registered under an account id.
    pub fn unregister_provider(&mut self, account_id: &str)
        requires
            old(self).provider_registry.wf(),
        ensures
            final(self).provider_registry.wf(),
            final(self).provider_registry@ =~= old(self).provider_registry@.remove(account_id@),
    {
        self.provider_registry.unregister(account_id);
    }
}

/// Thin metadata-only facade over the account repository.
pub struct AccountMetadataService<R: AccountRepository> {
    pub account_repository: R,
}

impl<R: AccountRepository> AccountMetadataService<R> {
    /// Build a facade around a repository.
    pub fn new(account_repository: R) -> AccountMetadataService<R> {
        AccountMetadataService { account_repository }
    }

    /// List all accounts.
    pub fn list_accounts(&self) -> (r: Result<Vec<Account>, CoreError>)
        ensures
            r matches Err(e) ==> e matches CoreError::StorageError(_),
    {
        match self.account_repository.find_all() {
            Ok(v) => Ok(v),
            Err(e) => Err(CoreError::StorageError(e)),
        }
    }

    /// Look one account up by id.
    pub fn get_account(&self, account_id: &str) -> (r: Result<Option<Account>, CoreError>)
        ensures
            r matches Err(e) ==> e matches CoreError::StorageError(_),
    {
        match self.account_repository.find_by_id(account_id) {
            Ok(v) => Ok(v),
            Err(e) => Err(CoreError::StorageError(e)),
        }
    }

    /// Save one account, new or updated.
    pub fn save_account(&mut self, account: &Account) -> (r: Result<(), CoreError>)
        ensures
            r matches Err(e) ==> e matches CoreError::StorageError(_),
    {
        match self.account_repository.save(account) {
            Ok(()) => Ok(()),
            Err(e) => Err(CoreError::StorageError(e)),
        }
    }

    /// Delete one account's metadata.
    pub fn delete_account(&mut self, account_id: &str) -> (r: Result<(), CoreError>)
        ensures
            r matches Err(e) ==> e matches CoreError::StorageError(_),
    {
        match self.account_repository.delete(account_id) {
            Ok(()) => Ok(()),
            Err(e) => Err(CoreError::StorageError(e)),
        }
    }

    /// Update one account's status and error note.
    pub fn update_status(
        &mut self,
        account_id: &str,
        status: AccountStatus,
        error: Option<String>,
    ) -> (r: Result<(), CoreError>)
        ensures
            r matches Err(e) ==> e matches CoreError::StorageError(_),
    {
        match self.account_repository.update_status(account_id, status, error) {
            Ok(()) => Ok(()),
            Err(e) => Err(CoreError::StorageError(e)),
        }
    }
}

} // verus!
