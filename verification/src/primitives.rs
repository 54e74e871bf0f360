//! Wrappers around the cryptographic and encoding crates the cipher layer
//! is built on: randomness, PBKDF2, AES-256-GCM, SHA-256, base64, and
//! process-unique id generation.

use aes_gcm::aead::{Aead, KeyInit};
use base64::Engine;
use rand::RngCore;
use vstd::prelude::*;

verus! {

/// True when every character of the sequence is ASCII.
pub open spec fn ascii_chars(s: Seq<char>) -> bool {
    forall|i: int| 0 <= i < s.len() ==> (s[i] as u32) < 128
}

/// The characters spelled by a byte sequence, one character per byte.
pub open spec fn chars_of_bytes(b: Seq<u8>) -> Seq<char> {
    b.map(|_i: int, c: u8| c as char)
}

/// The bytes of an ASCII character sequence, one byte per character.
pub open spec fn bytes_of_chars(s: Seq<char>) -> Seq<u8> {
    s.map(|_i: int, c: char| c as u8)
}

/// Relies on rand: `rng().fill_bytes` fills the whole buffer with random
/// bytes. Nothing is promised of the values: a fresh draw on every call.
#[verifier::external_body]
pub fn fill_random(len: usize) -> (r: Vec<u8>)
    ensures
        r@.len() == len,
{
    let mut buf = vec![0u8; len];
    rand::rng().fill_bytes(&mut buf);
    buf
}

/// The 32-byte key PBKDF2-HMAC-SHA256 derives from a password, salt and
/// iteration count: a function of its arguments alone.
pub uninterp spec fn pbkdf2_key_of(password: Seq<u8>, salt: Seq<u8>, iterations: u32) -> Seq<u8>;

/// Relies on pbkdf2: `pbkdf2_hmac_array::<Sha256, 32>` returns the 32-byte
/// derived key, determined by password, salt and round count.
#[verifier::external_body]
pub fn derive_key_bytes(password: &[u8], salt: &[u8], iterations: u32) -> (r: Vec<u8>)
    ensures
        r@ == pbkdf2_key_of(password@, salt@, iterations),
        r@.len() == 32,
{
    pbkdf2::pbkdf2_hmac_array::<sha2::Sha256, 32>(password, salt, iterations).to_vec()
}

/// The AES-256-GCM ciphertext (with appended tag) for a key, nonce and
/// plaintext: a function of its arguments alone.
pub uninterp spec fn aead_sealed(key: Seq<u8>, nonce: Seq<u8>, plaintext: Seq<u8>) -> Seq<u8>;

/// What AES-256-GCM decryption yields for a key, nonce and ciphertext:
/// `None` when authentication fails, otherwise the recovered plaintext.
pub uninterp spec fn aead_opened(key: Seq<u8>, nonce: Seq<u8>, ciphertext: Seq<u8>) -> Option<
    Seq<u8>,
>;

/// Relies on aes_gcm: `Aes256Gcm::encrypt` produces the ciphertext-with-tag
/// that `Aes256Gcm::decrypt` under the same key and nonce recovers the
/// plaintext from (AEAD round trip, stated by the aead crate's contract).
/// Encryption fails only for plaintexts above 2^36 bytes, and the 16-byte
/// authentication tag is appended to the ciphertext.
#[verifier::external_body]
pub fn aead_encrypt(key: &[u8], nonce: &[u8], plaintext: &[u8]) -> (r: Result<Vec<u8>, ()>)
    requires
        key@.len() == 32,
        nonce@.len() == 12,
    ensures
        plaintext@.len() <= 0x10_0000_0000 ==> r is Ok,
        r matches Ok(c) ==> c@.len() == plaintext@.len() + 16,
        r matches Ok(c) ==> c@ == aead_sealed(key@, nonce@, plaintext@),
        r matches Ok(c) ==> aead_opened(key@, nonce@, c@) == Some(plaintext@),
{
    let cipher = aes_gcm::Aes256Gcm::new_from_slice(key).map_err(|_| ())?;
    cipher.encrypt(aes_gcm::Nonce::from_slice(nonce), plaintext).map_err(|_| ())
}

/// Relies on aes_gcm: `Aes256Gcm::decrypt` recovers the plaintext exactly
/// when the key and nonce authenticate the ciphertext, and fails otherwise.
#[verifier::external_body]
pub fn aead_decrypt(key: &[u8], nonce: &[u8], ciphertext: &[u8]) -> (r: Result<Vec<u8>, ()>)
    requires
        key@.len() == 32,
        nonce@.len() == 12,
    ensures
        (r is Ok) == (aead_opened(key@, nonce@, ciphertext@) is Some),
        r matches Ok(p) ==> aead_opened(key@, nonce@, ciphertext@) == Some(p@),
{
    let cipher = aes_gcm::Aes256Gcm::new_from_slice(key).map_err(|_| ())?;
    cipher.decrypt(aes_gcm::Nonce::from_slice(nonce), ciphertext).map_err(|_| ())
}

/// What standard-alphabet base64 decoding yields for a character sequence:
/// `None` when the text is not valid base64.
pub uninterp spec fn base64_decoded(s: Seq<char>) -> Option<Seq<u8>>;

/// Relies on base64: `STANDARD.encode` emits ASCII text that
/// `STANDARD.decode` maps back to the input bytes.
#[verifier::external_body]
pub fn b64_encode(data: &[u8]) -> (r: String)
    ensures
        base64_decoded(r@) == Some(data@),
        ascii_chars(r@),
{
    base64::engine::general_purpose::STANDARD.encode(data)
}

/// Relies on base64: `STANDARD.decode` succeeds exactly on valid base64
/// text and returns the decoded bytes.
#[verifier::external_body]
pub fn b64_decode(s: &str) -> (r: Result<Vec<u8>, ()>)
    ensures
        (r is Ok) == (base64_decoded(s@) is Some),
        r matches Ok(v) ==> base64_decoded(s@) == Some(v@),
{
    base64::engine::general_purpose::STANDARD.decode(s).map_err(|_| ())
}

/// The SHA-256 digest of a byte sequence: a function of its argument alone.
pub uninterp spec fn sha256_of(data: Seq<u8>) -> Seq<u8>;

/// Relies on sha2: `Sha256::digest` returns the 32-byte SHA-256 digest of
/// its input.
#[verifier::external_body]
pub fn sha256(data: &[u8]) -> (r: Vec<u8>)
    ensures
        r@ == sha256_of(data@),
        r@.len() == 32,
{
    <sha2::Sha256 as sha2::Digest>::digest(data).to_vec()
}

/// Relies on uuid: `Uuid::new_v4().to_string()` is the 36-character ASCII
/// hyphenated form of a freshly drawn random id. Nothing is promised of the
/// value itself.
#[verifier::external_body]
pub fn new_uuid() -> (r: String)
    ensures
        r@.len() == 36,
        ascii_chars(r@),
{
    uuid::Uuid::new_v4().to_string()
}

/// Relies on std: `String::from_utf8` succeeds exactly on valid UTF-8 and
/// returns the string whose characters those bytes encode.
#[verifier::external_body]
pub fn utf8_to_string(bytes: Vec<u8>) -> (r: Result<String, ()>)
    ensures
        (r is Ok) == vstd::utf8::valid_utf8(bytes@),
        r matches Ok(s) ==> s@ == vstd::utf8::decode_utf8(bytes@),
        r matches Ok(s) ==> vstd::utf8::encode_utf8(s@) == bytes@,
{
    String::from_utf8(bytes).map_err(|_| ())
}

/// Relies on std: `String::from_utf8` on ASCII bytes yields the string
/// spelling those bytes, one character per byte.
#[verifier::external_body]
pub fn ascii_to_string(bytes: Vec<u8>) -> (r: String)
    requires
        forall|i: int| 0 <= i < bytes@.len() ==> bytes@[i] < 128,
    ensures
        r@ == chars_of_bytes(bytes@),
{
    String::from_utf8(bytes).unwrap_or_default()
}

} // verus!
