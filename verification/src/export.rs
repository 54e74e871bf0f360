//! The export-file format: its data model and its exact JSON text. The
//! writer emits pure-ASCII JSON (everything outside the printable ASCII
//! range is `\u`-escaped), so the text below is pinned byte for byte.

use vstd::prelude::*;

use crate::credentials::{CredMap, ProviderType};
use crate::credentials::provider_tag;
use crate::hexutil::hex_digit_of;
use crate::primitives::{ascii_to_string, chars_of_bytes};
use crate::strutil::{dec_bytes, lemma_dec_bytes_ascii, push_dec};
use vstd::string::StrSliceExecFns;

verus! {

/// One account as it travels in an export file: the only place where
/// credentials and metadata travel together. The id is freshly minted at
/// export time, never the source account's id.
#[derive(Debug)]
pub struct ExportedAccount {
    pub id: String,
    pub name: String,
    pub provider: ProviderType,
    pub created_at: String,
    pub updated_at: String,
    pub credentials: CredMap,
}

/// The plaintext head of an export file.
#[derive(Debug)]
pub struct ExportFileHeader {
    pub version: u32,
    pub encrypted: bool,
    pub salt: Option<String>,
    pub nonce: Option<String>,
    pub exported_at: String,
    pub app_version: String,
}

/// The payload of an export file: the account list in the clear, or one
/// base64 ciphertext when password-protected.
#[derive(Debug)]
pub enum ExportData {
    Accounts(Vec<ExportedAccount>),
    Cipher(String),
}

/// A whole export file.
#[derive(Debug)]
pub struct ExportFile {
    pub header: ExportFileHeader,
    pub data: ExportData,
}

/// A request to export a set of accounts.
#[derive(Debug)]
pub struct ExportAccountsRequest {
    pub account_ids: Vec<String>,
    pub encrypt: bool,
    pub password: Option<String>,
}

/// The rendered export file and a suggested file name.
#[derive(Debug)]
pub struct ExportAccountsResponse {
    pub content: String,
    pub suggested_filename: String,
}

/// A request to import accounts from file text.
#[derive(Debug)]
pub struct ImportAccountsRequest {
    pub content: String,
    pub password: Option<String>,
}

/// What a preview of an import file reports.
#[derive(Debug)]
pub struct ImportPreview {
    pub encrypted: bool,
    pub account_count: usize,
    pub accounts: Option<Vec<ImportPreviewAccount>>,
}

/// One previewed account: no secret material, only the conflict signal.
#[derive(Debug)]
pub struct ImportPreviewAccount {
    pub name: String,
    pub provider: ProviderType,
    pub has_conflict: bool,
}

/// Counts and itemized reasons of an import.
#[derive(Debug)]
pub struct ImportResult {
    pub success_count: usize,
    pub failures: Vec<ImportFailure>,
}

/// Why one account of an import failed.
#[derive(Debug)]
pub struct ImportFailure {
    pub name: String,
    pub reason: String,
}

/// Counts of a startup restore.
#[derive(Clone, Copy, PartialEq, Eq, Structural, Debug)]
pub struct RestoreResult {
    pub success_count: usize,
    pub error_count: usize,
}

/// The four lowercase hex digits of a value below 0x10000.
pub open spec fn hex4_bytes(n: int) -> Seq<u8> {
    seq![
        hex_digit_of((((n / 4096) % 16) as u8)),
        hex_digit_of((((n / 256) % 16) as u8)),
        hex_digit_of((((n / 16) % 16) as u8)),
        hex_digit_of(((n % 16) as u8)),
    ]
}

/// The JSON bytes of one character: printable ASCII stands as itself,
/// quote and backslash are escaped, everything else is `\u`-escaped, with
/// a surrogate pair above the basic plane.
pub open spec fn json_char_bytes(c: char) -> Seq<u8> {
    let u = c as u32;
    if u == 0x22 {
        seq![0x5cu8, 0x22u8]
    } else if u == 0x5c {
        seq![0x5cu8, 0x5cu8]
    } else if 0x20 <= u && u < 0x7f {
        seq![u as u8]
    } else if u < 0x10000 {
        seq![0x5cu8, 0x75u8] + hex4_bytes(u as int)
    } else {
        seq![0x5cu8, 0x75u8] + hex4_bytes(0xd800 + ((u - 0x10000) as int) / 1024) + seq![
            0x5cu8,
            0x75u8,
        ] + hex4_bytes((((u - 0x10000) as int) % 1024) + 0xdc00)
    }
}

/// The JSON bytes of the first `i` characters of a string.
pub open spec fn json_escaped(s: Seq<char>, i: int) -> Seq<u8>
    decreases i,
{
    if i <= 0 {
        Seq::empty()
    } else {
        json_escaped(s, i - 1) + json_char_bytes(s[i - 1])
    }
}

/// The JSON string literal of a character sequence.
pub open spec fn json_string_bytes(s: Seq<char>) -> Seq<u8> {
    seq![0x22u8] + json_escaped(s, s.len() as int) + seq![0x22u8]
}

/// The JSON object members of the first `i` credential entries.
pub open spec fn cred_items(m: Seq<(String, String)>, i: int) -> Seq<u8>
    decreases i,
{
    if i <= 0 {
        Seq::empty()
    } else if i == 1 {
        json_string_bytes(m[0].0@) + seq![0x3au8] + json_string_bytes(m[0].1@)
    } else {
        cred_items(m, i - 1) + seq![0x2cu8] + json_string_bytes(m[i - 1].0@) + seq![0x3au8]
            + json_string_bytes(m[i - 1].1@)
    }
}

/// The JSON object of a credential map.
pub open spec fn creds_json(m: Seq<(String, String)>) -> Seq<u8> {
    seq![0x7bu8] + cred_items(m, m.len() as int) + seq![0x7du8]
}

/// The JSON object of one exported account.
pub open spec fn exported_account_json(a: ExportedAccount) -> Seq<u8> {
    seq![0x7bu8] + json_string_bytes("id"@) + seq![0x3au8] + json_string_bytes(a.id@) + seq![
        0x2cu8,
    ] + json_string_bytes("name"@) + seq![0x3au8] + json_string_bytes(a.name@) + seq![0x2cu8]
        + json_string_bytes("provider"@) + seq![0x3au8] + json_string_bytes(provider_tag(a.provider))
        + seq![0x2cu8] + json_string_bytes("createdAt"@) + seq![0x3au8] + json_string_bytes(
        a.created_at@,
    ) + seq![0x2cu8] + json_string_bytes("updatedAt"@) + seq![0x3au8] + json_string_bytes(
        a.updated_at@,
    ) + seq![0x2cu8] + json_string_bytes("credentials"@) + seq![0x3au8] + creds_json(
        a.credentials@,
    ) + seq![0x7du8]
}

/// The JSON array items of the first `i` exported accounts.
pub open spec fn account_items(accs: Seq<ExportedAccount>, i: int) -> Seq<u8>
    decreases i,
{
    if i <= 0 {
        Seq::empty()
    } else if i == 1 {
        exported_account_json(accs[0])
    } else {
        account_items(accs, i - 1) + seq![0x2cu8] + exported_account_json(accs[i - 1])
    }
}

/// The JSON array of an exported account list.
pub open spec fn accounts_json(accs: Seq<ExportedAccount>) -> Seq<u8> {
    seq![0x5bu8] + account_items(accs, accs.len() as int) + seq![0x5du8]
}

/// The JSON bytes of a boolean.
pub open spec fn bool_json(b: bool) -> Seq<u8> {
    if b {
        seq![0x74u8, 0x72u8, 0x75u8, 0x65u8]
    } else {
        seq![0x66u8, 0x61u8, 0x6cu8, 0x73u8, 0x65u8]
    }
}

/// One optional string member, preceded by a comma; absent fields are
/// left out entirely.
pub open spec fn opt_field_json(name: Seq<char>, v: Option<String>) -> Seq<u8> {
    match v {
        Some(s) => seq![0x2cu8] + json_string_bytes(name) + seq![0x3au8] + json_string_bytes(s@),
        None => Seq::empty(),
    }
}

/// The leading members of a header: format version and encryption flag.
pub open spec fn header_lead_json(h: ExportFileHeader) -> Seq<u8> {
    seq![0x7bu8] + json_string_bytes("version"@) + seq![0x3au8] + dec_bytes(h.version as nat)
        + seq![0x2cu8] + json_string_bytes("encrypted"@) + seq![0x3au8] + bool_json(h.encrypted)
}

/// The trailing members of a header: export time and app version.
pub open spec fn header_tail_json(h: ExportFileHeader) -> Seq<u8> {
    seq![0x2cu8] + json_string_bytes("exportedAt"@) + seq![0x3au8] + json_string_bytes(
        h.exported_at@,
    ) + seq![0x2cu8] + json_string_bytes("appVersion"@) + seq![0x3au8] + json_string_bytes(
        h.app_version@,
    ) + seq![0x7du8]
}

/// The JSON object of an export-file header; absent salt and nonce fields
/// are left out entirely.
pub open spec fn header_json(h: ExportFileHeader) -> Seq<u8> {
    header_lead_json(h) + opt_field_json("salt"@, h.salt) + opt_field_json("nonce"@, h.nonce)
        + header_tail_json(h)
}

/// The JSON bytes of an export file's payload.
pub open spec fn data_json(d: ExportData) -> Seq<u8> {
    match d {
        ExportData::Accounts(v) => accounts_json(v@),
        ExportData::Cipher(c) => json_string_bytes(c@),
    }
}

/// The JSON text of a whole export file.
pub open spec fn export_file_json(f: ExportFile) -> Seq<u8> {
    seq![0x7bu8] + json_string_bytes("header"@) + seq![0x3au8] + header_json(f.header) + seq![
        0x2cu8,
    ] + json_string_bytes("data"@) + seq![0x3au8] + data_json(f.data) + seq![0x7du8]
}

/// All output of the JSON writer is ASCII.
pub open spec fn ascii_range(s: Seq<u8>, from: int, to: int) -> bool {
    forall|j: int| from <= j < to ==> s[j] < 128
}

/// Append the JSON bytes of one character.
fn push_json_char(out: &mut Vec<u8>, c: char)
    ensures
        final(out)@ == old(out)@ + json_char_bytes(c),
        ascii_range(final(out)@, old(out)@.len() as int, final(out)@.len() as int),
        ascii_range(old(out)@, 0, old(out)@.len() as int) ==> ascii_range(
            final(out)@,
            0,
            final(out)@.len() as int,
        ),
{
    let u = c as u32;
    if u == 0x22 {
        out.push(0x5c);
        out.push(0x22);
    } else if u == 0x5c {
        out.push(0x5c);
        out.push(0x5c);
    } else if 0x20 <= u && u < 0x7f {
        out.push(u as u8);
    } else if u < 0x10000 {
        out.push(0x5c);
        out.push(0x75);
        push_hex4(out, u);
    } else {
        let v = u - 0x10000;
        out.push(0x5c);
        out.push(0x75);
        push_hex4(out, 0xd800 + v / 1024);
        out.push(0x5c);
        out.push(0x75);
        push_hex4(out, 0xdc00 + v % 1024);
        proof {
            assert(out@ =~= old(out)@ + json_char_bytes(c));
        }
    }
    proof {
        assert(out@ =~= old(out)@ + json_char_bytes(c));
    }
}

/// Append four lowercase hex digits.
fn push_hex4(out: &mut Vec<u8>, n: u32)
    requires
        n < 0x10000,
    ensures
        final(out)@ == old(out)@ + hex4_bytes(n as int),
        ascii_range(final(out)@, old(out)@.len() as int, final(out)@.len() as int),
        ascii_range(old(out)@, 0, old(out)@.len() as int) ==> ascii_range(
            final(out)@,
            0,
            final(out)@.len() as int,
        ),
{
    let d0 = ((n / 4096) % 16) as u8;
    let d1 = ((n / 256) % 16) as u8;
    let d2 = ((n / 16) % 16) as u8;
    let d3 = (n % 16) as u8;
    out.push(if d0 < 10 { 0x30 + d0 } else { 0x57 + d0 });
    out.push(if d1 < 10 { 0x30 + d1 } else { 0x57 + d1 });
    out.push(if d2 < 10 { 0x30 + d2 } else { 0x57 + d2 });
    out.push(if d3 < 10 { 0x30 + d3 } else { 0x57 + d3 });
    proof {
        assert(out@ =~= old(out)@ + hex4_bytes(n as int));
    }
}

/// Append a JSON string literal.
fn push_json_string(out: &mut Vec<u8>, s: &str)
    ensures
        final(out)@ == old(out)@ + json_string_bytes(s@),
        ascii_range(final(out)@, old(out)@.len() as int, final(out)@.len() as int),
        ascii_range(old(out)@, 0, old(out)@.len() as int) ==> ascii_range(
            final(out)@,
            0,
            final(out)@.len() as int,
        ),
{
    let ghost base = out@;
    out.push(0x22);
    let n = s.unicode_len();
    let mut i: usize = 0;
    while i < n
        invariant
            n == s@.len(),
            i <= n,
            out@ == base + seq![0x22u8] + json_escaped(s@, i as int),
            ascii_range(out@, base.len() as int, out@.len() as int),
        decreases n - i,
    {
        let c = s.get_char(i);
        push_json_char(out, c);
        i = i + 1;
    }
    out.push(0x22);
    proof {
        assert(out@ =~= base + json_string_bytes(s@));
    }
}

/// Append the JSON object of a credential map.
fn push_creds_json(out: &mut Vec<u8>, m: &CredMap)
    ensures
        final(out)@ == old(out)@ + creds_json(m@),
        ascii_range(final(out)@, old(out)@.len() as int, final(out)@.len() as int),
        ascii_range(old(out)@, 0, old(out)@.len() as int) ==> ascii_range(
            final(out)@,
            0,
            final(out)@.len() as int,
        ),
{
    let ghost base = out@;
    out.push(0x7b);
    let n = m.len();
    for i in 0..n
        invariant
            n == m@.len(),
            out@ == base + seq![0x7bu8] + cred_items(m@, i as int),
            ascii_range(out@, base.len() as int, out@.len() as int),
    {
        if i > 0 {
            out.push(0x2c);
        }
        push_json_string(out, m[i].0.as_str());
        out.push(0x3a);
        push_json_string(out, m[i].1.as_str());
        proof {
            assert(out@ =~= base + seq![0x7bu8] + cred_items(m@, i + 1));
        }
    }
    out.push(0x7d);
    proof {
        assert(out@ =~= base + creds_json(m@));
    }
}

/// Append the JSON object of one exported account.
#[verifier::rlimit(100)]
fn push_exported_account(out: &mut Vec<u8>, a: &ExportedAccount)
    ensures
        final(out)@ == old(out)@ + exported_account_json(*a),
        ascii_range(final(out)@, old(out)@.len() as int, final(out)@.len() as int),
        ascii_range(old(out)@, 0, old(out)@.len() as int) ==> ascii_range(
            final(out)@,
            0,
            final(out)@.len() as int,
        ),
{
    let ghost base = out@;
    out.push(0x7b);
    push_json_string(out, "id");
    out.push(0x3a);
    push_json_string(out, a.id.as_str());
    out.push(0x2c);
    push_json_string(out, "name");
    out.push(0x3a);
    push_json_string(out, a.name.as_str());
    out.push(0x2c);
    push_json_string(out, "provider");
    out.push(0x3a);
    let tag = a.provider.name();
    push_json_string(out, tag.as_str());
    out.push(0x2c);
    push_json_string(out, "createdAt");
    out.push(0x3a);
    push_json_string(out, a.created_at.as_str());
    out.push(0x2c);
    push_json_string(out, "updatedAt");
    out.push(0x3a);
    push_json_string(out, a.updated_at.as_str());
    out.push(0x2c);
    push_json_string(out, "credentials");
    out.push(0x3a);
    push_creds_json(out, &a.credentials);
    out.push(0x7d);
    proof {
        assert(out@ =~= base + exported_account_json(*a));
    }
}

/// Append the JSON array of an exported account list.
#[verifier::rlimit(100)]
pub fn push_accounts_json(out: &mut Vec<u8>, accs: &Vec<ExportedAccount>)
    ensures
        final(out)@ == old(out)@ + accounts_json(accs@),
        ascii_range(final(out)@, old(out)@.len() as int, final(out)@.len() as int),
        ascii_range(old(out)@, 0, old(out)@.len() as int) ==> ascii_range(
            final(out)@,
            0,
            final(out)@.len() as int,
        ),
{
    let ghost base = out@;
    out.push(0x5b);
    let n = accs.len();
    for i in 0..n
        invariant
            n == accs@.len(),
            out@ == base + seq![0x5bu8] + account_items(accs@, i as int),
            ascii_range(out@, base.len() as int, out@.len() as int),
    {
        if i > 0 {
            out.push(0x2c);
        }
        push_exported_account(out, &accs[i]);
        proof {
            assert(out@ =~= base + seq![0x5bu8] + account_items(accs@, i + 1));
        }
    }
    out.push(0x5d);
    proof {
        assert(out@ =~= base + accounts_json(accs@));
    }
}

/// Append the leading members of a header.
fn push_header_lead(out: &mut Vec<u8>, h: &ExportFileHeader)
    ensures
        final(out)@ == old(out)@ + header_lead_json(*h),
        ascii_range(final(out)@, old(out)@.len() as int, final(out)@.len() as int),
        ascii_range(old(out)@, 0, old(out)@.len() as int) ==> ascii_range(
            final(out)@,
            0,
            final(out)@.len() as int,
        ),
{
    let ghost base = out@;
    out.push(0x7b);
    push_json_string(out, "version");
    out.push(0x3a);
    push_dec(out, h.version as u64);
    proof {
        lemma_dec_bytes_ascii(h.version as nat);
    }
    out.push(0x2c);
    push_json_string(out, "encrypted");
    out.push(0x3a);
    if h.encrypted {
        out.push(0x74);
        out.push(0x72);
        out.push(0x75);
        out.push(0x65);
    } else {
        out.push(0x66);
        out.push(0x61);
        out.push(0x6c);
        out.push(0x73);
        out.push(0x65);
    }
    proof {
        assert(out@ =~= base + header_lead_json(*h));
    }
}

/// Append one optional string member, comma first; skip absent fields.
fn push_opt_field(out: &mut Vec<u8>, name: &str, v: &Option<String>)
    ensures
        final(out)@ == old(out)@ + opt_field_json(name@, *v),
        ascii_range(final(out)@, old(out)@.len() as int, final(out)@.len() as int),
        ascii_range(old(out)@, 0, old(out)@.len() as int) ==> ascii_range(
            final(out)@,
            0,
            final(out)@.len() as int,
        ),
{
    let ghost base = out@;
    match v {
        Some(s) => {
            out.push(0x2c);
            push_json_string(out, name);
            out.push(0x3a);
            push_json_string(out, s.as_str());
            proof {
                assert(out@ =~= base + opt_field_json(name@, *v));
            }
        },
        None => {},
    }
}

/// Append the trailing members of a header.
fn push_header_tail(out: &mut Vec<u8>, h: &ExportFileHeader)
    ensures
        final(out)@ == old(out)@ + header_tail_json(*h),
        ascii_range(final(out)@, old(out)@.len() as int, final(out)@.len() as int),
        ascii_range(old(out)@, 0, old(out)@.len() as int) ==> ascii_range(
            final(out)@,
            0,
            final(out)@.len() as int,
        ),
{
    let ghost base = out@;
    out.push(0x2c);
    push_json_string(out, "exportedAt");
    out.push(0x3a);
    push_json_string(out, h.exported_at.as_str());
    out.push(0x2c);
    push_json_string(out, "appVersion");
    out.push(0x3a);
    push_json_string(out, h.app_version.as_str());
    out.push(0x7d);
    proof {
        assert(out@ =~= base + header_tail_json(*h));
    }
}

/// Append the JSON object of a header.
fn push_header_json(out: &mut Vec<u8>, h: &ExportFileHeader)
    ensures
        final(out)@ == old(out)@ + header_json(*h),
        ascii_range(final(out)@, old(out)@.len() as int, final(out)@.len() as int),
        ascii_range(old(out)@, 0, old(out)@.len() as int) ==> ascii_range(
            final(out)@,
            0,
            final(out)@.len() as int,
        ),
{
    let ghost base = out@;
    push_header_lead(out, h);
    push_opt_field(out, "salt", &h.salt);
    push_opt_field(out, "nonce", &h.nonce);
    push_header_tail(out, h);
    proof {
        assert(out@ =~= base + header_json(*h));
    }
}

/// Render a whole export file as JSON text.
#[verifier::rlimit(100)]
pub fn render_export_file(f: &ExportFile) -> (r: String)
    ensures
        r@ == chars_of_bytes(export_file_json(*f)),
{
    let mut out: Vec<u8> = Vec::new();
    out.push(0x7b);
    push_json_string(&mut out, "header");
    out.push(0x3a);
    push_header_json(&mut out, &f.header);
    out.push(0x2c);
    push_json_string(&mut out, "data");
    out.push(0x3a);
    match &f.data {
        ExportData::Accounts(v) => {
            push_accounts_json(&mut out, v);
        },
        ExportData::Cipher(c) => {
            push_json_string(&mut out, c.as_str());
        },
    }
    out.push(0x7d);
    proof {
        assert(out@ =~= export_file_json(*f));
        assert(ascii_range(out@, 0, out@.len() as int));
    }
    ascii_to_string(out)
}

} // verus!
