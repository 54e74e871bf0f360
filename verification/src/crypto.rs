//! Symmetric protection of secret blobs: AES-256-GCM with a password-derived
//! key (PBKDF2-HMAC-SHA256) or a fixed operator-supplied key.
//!
//! Two blob encodings exist. Structured storage carries salt, nonce and
//! ciphertext as three independent base64 fields; the password-protected
//! export path concatenates `salt(16) || nonce(12) || ciphertext` into one
//! base64 blob, and the fixed-key path `nonce(12) || ciphertext`.

use vstd::prelude::*;

use crate::errors::{ApiError, CoreError};
use crate::hexutil::{hex_decode, hex_decoded, hex_string, lemma_hex_round_trip};
use crate::primitives::{
    aead_decrypt, aead_encrypt, aead_opened, b64_decode, b64_encode, base64_decoded,
    derive_key_bytes, fill_random, pbkdf2_key_of, utf8_to_string,
};
use crate::spec_pbkdf2_iterations;
use vstd::string::StrSliceExecFns;
use vstd::string::StringExecFns;
use vstd::string::StringSliceAdditionalSpecFns;
use vstd::utf8::{encode_utf8, valid_utf8};

verus! {

pub const SALT_LENGTH: usize = 16;

pub const NONCE_LENGTH: usize = 12;

pub const KEY_LENGTH: usize = 32;

/// What decrypting a structured blob (three base64 fields) yields under a
/// password and iteration count: `None` on malformed fields or failed
/// authentication.
pub open spec fn blob_opened(
    ct_b64: Seq<char>,
    pw: Seq<u8>,
    salt_b64: Seq<char>,
    nonce_b64: Seq<char>,
    iterations: u32,
) -> Option<Seq<u8>> {
    match (base64_decoded(salt_b64), base64_decoded(nonce_b64), base64_decoded(ct_b64)) {
        (Some(salt), Some(nonce), Some(ct)) => {
            if nonce.len() == 12 {
                aead_opened(pbkdf2_key_of(pw, salt, iterations), nonce, ct)
            } else {
                None
            }
        },
        _ => None,
    }
}

/// The error message `decrypt_with_iterations` reports for a blob it
/// rejects. Failed authentication and a wrong password share one opaque
/// message; malformed fields are reported as structural errors.
pub open spec fn blob_failure_msg(
    ct_b64: Seq<char>,
    salt_b64: Seq<char>,
    nonce_b64: Seq<char>,
) -> Seq<char> {
    if base64_decoded(salt_b64) is None {
        "Invalid salt"@
    } else if base64_decoded(nonce_b64) is None {
        "Invalid nonce"@
    } else if base64_decoded(ct_b64) is None {
        "Invalid ciphertext"@
    } else if base64_decoded(nonce_b64)->Some_0.len() != 12 {
        "Invalid nonce length"@
    } else {
        "Decryption failed: invalid password or corrupted data"@
    }
}

/// Encrypt a secret blob under a password, drawing a fresh 16-byte salt and
/// 12-byte nonce, and return `(salt, nonce, ciphertext)` as base64 text.
/// Decrypting the result with the same password and the current iteration
/// count regenerates the plaintext.
pub fn encrypt(plaintext: &[u8], password: &str) -> (r: Result<(String, String, String), CoreError>)
    ensures
        plaintext@.len() <= 0x10_0000_0000 ==> r is Ok,
        r matches Ok(t) ==> {
            &&& base64_decoded(t.0@) matches Some(s) && s.len() == 16
            &&& base64_decoded(t.1@) matches Some(n) && n.len() == 12
            &&& base64_decoded(t.2@) matches Some(ct) && ct.len() == plaintext@.len() + 16
            &&& blob_opened(
                t.2@,
                password.spec_bytes(),
                t.0@,
                t.1@,
                spec_pbkdf2_iterations(crate::CURRENT_FILE_VERSION),
            ) == Some(plaintext@)
        },
        r matches Err(e) ==> e matches CoreError::SerializationError(m) && m@
            == "Encryption failed"@,
{
    let salt = fill_random(SALT_LENGTH);
    let nonce = fill_random(NONCE_LENGTH);
    let key = derive_key_bytes(password.as_bytes(), salt.as_slice(), crate::get_current_iterations());
    let ciphertext = match aead_encrypt(key.as_slice(), nonce.as_slice(), plaintext) {
        Ok(c) => c,
        Err(_) => {
            return Err(CoreError::SerializationError(String::from_str("Encryption failed")));
        },
    };
    Ok((b64_encode(salt.as_slice()), b64_encode(nonce.as_slice()), b64_encode(ciphertext.as_slice())))
}

/// Decrypt a structured blob with the current default iteration count.
pub fn decrypt(ciphertext_b64: &str, password: &str, salt_b64: &str, nonce_b64: &str) -> (r: Result<
    Vec<u8>,
    CoreError,
>)
    ensures
        (r is Ok) == (blob_opened(
            ciphertext_b64@,
            password.spec_bytes(),
            salt_b64@,
            nonce_b64@,
            spec_pbkdf2_iterations(crate::CURRENT_FILE_VERSION),
        ) is Some),
        r matches Ok(v) ==> blob_opened(
            ciphertext_b64@,
            password.spec_bytes(),
            salt_b64@,
            nonce_b64@,
            spec_pbkdf2_iterations(crate::CURRENT_FILE_VERSION),
        ) == Some(v@),
        r matches Err(e) ==> e matches CoreError::SerializationError(m) && m@ == blob_failure_msg(
            ciphertext_b64@,
            salt_b64@,
            nonce_b64@,
        ),
{
    decrypt_with_iterations(
        ciphertext_b64,
        password,
        salt_b64,
        nonce_b64,
        crate::get_current_iterations(),
    )
}

/// Decrypt a structured blob with a caller-supplied iteration count, so
/// blobs written by builds with an older default stay readable: a blob
/// encrypted under iteration count `n` decrypts under that same `n`,
/// whatever the current default is.
pub fn decrypt_with_iterations(
    ciphertext_b64: &str,
    password: &str,
    salt_b64: &str,
    nonce_b64: &str,
    iterations: u32,
) -> (r: Result<Vec<u8>, CoreError>)
    ensures
        (r is Ok) == (blob_opened(
            ciphertext_b64@,
            password.spec_bytes(),
            salt_b64@,
            nonce_b64@,
            iterations,
        ) is Some),
        r matches Ok(v) ==> blob_opened(
            ciphertext_b64@,
            password.spec_bytes(),
            salt_b64@,
            nonce_b64@,
            iterations,
        ) == Some(v@),
        r matches Err(e) ==> e matches CoreError::SerializationError(m) && m@ == blob_failure_msg(
            ciphertext_b64@,
            salt_b64@,
            nonce_b64@,
        ),
{
    let salt = match b64_decode(salt_b64) {
        Ok(v) => v,
        Err(_) => {
            return Err(CoreError::SerializationError(String::from_str("Invalid salt")));
        },
    };
    let nonce = match b64_decode(nonce_b64) {
        Ok(v) => v,
        Err(_) => {
            return Err(CoreError::SerializationError(String::from_str("Invalid nonce")));
        },
    };
    let ciphertext = match b64_decode(ciphertext_b64) {
        Ok(v) => v,
        Err(_) => {
            return Err(CoreError::SerializationError(String::from_str("Invalid ciphertext")));
        },
    };
    if nonce.len() != NONCE_LENGTH {
        return Err(CoreError::SerializationError(String::from_str("Invalid nonce length")));
    }
    let key = derive_key_bytes(password.as_bytes(), salt.as_slice(), iterations);
    match aead_decrypt(key.as_slice(), nonce.as_slice(), ciphertext.as_slice()) {
        Ok(p) => Ok(p),
        Err(_) => Err(
            CoreError::SerializationError(
                String::from_str("Decryption failed: invalid password or corrupted data"),
            ),
        ),
    }
}

/// What decrypting a single-blob password encoding yields: base64 of
/// `salt(16) || nonce(12) || ciphertext`, opened under the password.
pub open spec fn packed_opened(data: Seq<char>, pw: Seq<u8>, iterations: u32) -> Option<Seq<u8>> {
    match base64_decoded(data) {
        Some(combined) => {
            if combined.len() >= 28 {
                aead_opened(
                    pbkdf2_key_of(pw, combined.take(16), iterations),
                    combined.subrange(16, 28),
                    combined.skip(28),
                )
            } else {
                None
            }
        },
        None => None,
    }
}

/// The error message `decrypt_with_password` reports for a blob it rejects.
pub open spec fn packed_failure_msg(data: Seq<char>, pw: Seq<u8>, iterations: u32) -> Seq<char> {
    if base64_decoded(data) is None {
        "Invalid base64 data"@
    } else if base64_decoded(data)->Some_0.len() < 28 {
        "Invalid encrypted data"@
    } else if packed_opened(data, pw, iterations) is None {
        "Decryption failed: invalid password or corrupted data"@
    } else {
        "Invalid UTF-8 in decrypted data"@
    }
}

/// Encrypt text under a password into the single-blob encoding
/// `base64(salt || nonce || ciphertext)`, with fresh salt and nonce.
pub fn encrypt_with_password(data: &str, password: &str) -> (r: Result<String, CoreError>)
    ensures
        data.spec_bytes().len() <= 0x10_0000_0000 ==> r is Ok,
        r matches Ok(s) ==> (base64_decoded(s@) matches Some(combined) && combined.len() == 28
            + data.spec_bytes().len() + 16),
        r matches Ok(s) ==> packed_opened(
            s@,
            password.spec_bytes(),
            spec_pbkdf2_iterations(crate::CURRENT_FILE_VERSION),
        ) == Some(data.spec_bytes()),
        r matches Err(e) ==> e matches CoreError::SerializationError(m) && m@
            == "Encryption failed"@,
{
    let salt = fill_random(SALT_LENGTH);
    let nonce = fill_random(NONCE_LENGTH);
    let key = derive_key_bytes(password.as_bytes(), salt.as_slice(), crate::get_current_iterations());
    let ciphertext = match aead_encrypt(key.as_slice(), nonce.as_slice(), data.as_bytes()) {
        Ok(c) => c,
        Err(_) => {
            return Err(CoreError::SerializationError(String::from_str("Encryption failed")));
        },
    };
    let mut combined: Vec<u8> = Vec::new();
    combined.append(&mut salt.clone());
    combined.append(&mut nonce.clone());
    combined.append(&mut ciphertext.clone());
    proof {
        assert(combined@.take(16) =~= salt@);
        assert(combined@.subrange(16, 28) =~= nonce@);
        assert(combined@.skip(28) =~= ciphertext@);
    }
    Ok(b64_encode(combined.as_slice()))
}

/// Decrypt the single-blob password encoding back to text. A wrong password
/// and corrupted data fail with one indistinguishable message.
pub fn decrypt_with_password(data: &str, password: &str) -> (r: Result<String, CoreError>)
    ensures
        (r is Ok) == (packed_opened(
            data@,
            password.spec_bytes(),
            spec_pbkdf2_iterations(crate::CURRENT_FILE_VERSION),
        ) matches Some(p) && valid_utf8(p)),
        r matches Ok(s) ==> packed_opened(
            data@,
            password.spec_bytes(),
            spec_pbkdf2_iterations(crate::CURRENT_FILE_VERSION),
        ) == Some(encode_utf8(s@)),
        r matches Err(e) ==> e matches CoreError::SerializationError(m) && m@ == packed_failure_msg(
            data@,
            password.spec_bytes(),
            spec_pbkdf2_iterations(crate::CURRENT_FILE_VERSION),
        ),
{
    let combined = match b64_decode(data) {
        Ok(v) => v,
        Err(_) => {
            return Err(CoreError::SerializationError(String::from_str("Invalid base64 data")));
        },
    };
    if combined.len() < 28 {
        return Err(CoreError::SerializationError(String::from_str("Invalid encrypted data")));
    }
    let salt = crate::strutil::sub_bytes(&combined, 0, 16);
    let nonce = crate::strutil::sub_bytes(&combined, 16, 28);
    let ciphertext = crate::strutil::sub_bytes(&combined, 28, combined.len());
    proof {
        assert(salt@ =~= combined@.take(16));
    }
    let key = derive_key_bytes(password.as_bytes(), salt.as_slice(), crate::get_current_iterations());
    let plaintext = match aead_decrypt(key.as_slice(), nonce.as_slice(), ciphertext.as_slice()) {
        Ok(p) => p,
        Err(_) => {
            return Err(
                CoreError::SerializationError(
                    String::from_str("Decryption failed: invalid password or corrupted data"),
                ),
            );
        },
    };
    match utf8_to_string(plaintext) {
        Ok(s) => Ok(s),
        Err(_) => Err(
            CoreError::SerializationError(String::from_str("Invalid UTF-8 in decrypted data")),
        ),
    }
}

/// What decrypting the fixed-key encoding `base64(nonce || ciphertext)`
/// yields under a key.
pub open spec fn keyed_opened(key: Seq<u8>, enc: Seq<char>) -> Option<Seq<u8>> {
    match base64_decoded(enc) {
        Some(combined) => {
            if combined.len() >= 12 {
                aead_opened(key, combined.take(12), combined.skip(12))
            } else {
                None
            }
        },
        None => None,
    }
}

/// The error message `CryptoManager::decrypt` reports.
pub open spec fn keyed_failure_msg(key: Seq<u8>, enc: Seq<char>) -> Seq<char> {
    if base64_decoded(enc) is None {
        "Invalid base64 data"@
    } else if base64_decoded(enc)->Some_0.len() < 12 {
        "Invalid encrypted data"@
    } else if keyed_opened(key, enc) is None {
        "Decryption failed: invalid password or corrupted data"@
    } else {
        "Invalid UTF-8 in decrypted data"@
    }
}

/// Fixed-key cipher for server-side at-rest credential storage: the
/// operator supplies the 256-bit key as hex text.
pub struct CryptoManager {
    key: Vec<u8>,
}

impl CryptoManager {
    /// The key is exactly 32 bytes.
    pub closed spec fn wf(&self) -> bool {
        self.key@.len() == 32
    }

    /// The key this manager encrypts and decrypts under.
    pub closed spec fn spec_key(&self) -> Seq<u8> {
        self.key@
    }

    /// Parse a 64-hex-character operator key.
    pub fn from_hex_key(hex_key: &str) -> (r: Result<CryptoManager, ApiError>)
        ensures
            (r is Ok) == (hex_decoded(hex_key@) matches Some(k) && k.len() == 32),
            r matches Ok(m) ==> m.wf() && hex_decoded(hex_key@) == Some(m.spec_key()),
            r matches Err(e) ==> e matches ApiError::Encryption(msg) && msg@ == (if hex_decoded(
                hex_key@,
            ) is None {
                "Invalid key format"@
            } else {
                "Key must be 64 hex characters"@
            }),
    {
        let key = match hex_decode(hex_key) {
            Ok(k) => k,
            Err(_) => {
                return Err(ApiError::Encryption(String::from_str("Invalid key format")));
            },
        };
        if key.len() != KEY_LENGTH {
            return Err(ApiError::Encryption(String::from_str("Key must be 64 hex characters")));
        }
        Ok(CryptoManager { key })
    }

    /// Draw a fresh random 256-bit key, hex-encoded; `from_hex_key` accepts
    /// every key this returns.
    pub fn generate_key() -> (r: String)
        ensures
            hex_decoded(r@) matches Some(k) && k.len() == 32,
    {
        let key = fill_random(KEY_LENGTH);
        let out = hex_string(key.as_slice());
        proof {
            lemma_hex_round_trip(key@);
        }
        out
    }

    /// Encrypt text under the fixed key into `base64(nonce || ciphertext)`
    /// with a fresh nonce.
    pub fn encrypt(&self, plaintext: &str) -> (r: Result<String, ApiError>)
        requires
            self.wf(),
        ensures
            plaintext.spec_bytes().len() <= 0x10_0000_0000 ==> r is Ok,
            r matches Ok(s) ==> (base64_decoded(s@) matches Some(combined) && combined.len() == 12
                + plaintext.spec_bytes().len() + 16),
            r matches Ok(s) ==> keyed_opened(self.spec_key(), s@) == Some(plaintext.spec_bytes()),
            r matches Err(e) ==> e matches ApiError::Encryption(m) && m@ == "Encryption failed"@,
    {
        let nonce = fill_random(NONCE_LENGTH);
        let ciphertext = match aead_encrypt(self.key.as_slice(), nonce.as_slice(), plaintext.as_bytes()) {
            Ok(c) => c,
            Err(_) => {
                return Err(ApiError::Encryption(String::from_str("Encryption failed")));
            },
        };
        let mut combined: Vec<u8> = Vec::new();
        combined.append(&mut nonce.clone());
        combined.append(&mut ciphertext.clone());
        proof {
            assert(combined@.take(12) =~= nonce@);
            assert(combined@.skip(12) =~= ciphertext@);
        }
        Ok(b64_encode(combined.as_slice()))
    }

    /// Decrypt `base64(nonce || ciphertext)` back to text under the fixed
    /// key; authentication failure and corruption share one message.
    pub fn decrypt(&self, encrypted: &str) -> (r: Result<String, ApiError>)
        requires
            self.wf(),
        ensures
            (r is Ok) == (keyed_opened(self.spec_key(), encrypted@) matches Some(p) && valid_utf8(
                p,
            )),
            r matches Ok(s) ==> keyed_opened(self.spec_key(), encrypted@) == Some(
                encode_utf8(s@),
            ),
            r matches Err(e) ==> e matches ApiError::Encryption(m) && m@ == keyed_failure_msg(
                self.spec_key(),
                encrypted@,
            ),
    {
        let combined = match b64_decode(encrypted) {
            Ok(v) => v,
            Err(_) => {
                return Err(ApiError::Encryption(String::from_str("Invalid base64 data")));
            },
        };
        if combined.len() < NONCE_LENGTH {
            return Err(ApiError::Encryption(String::from_str("Invalid encrypted data")));
        }
        let nonce = crate::strutil::sub_bytes(&combined, 0, 12);
        let ciphertext = crate::strutil::sub_bytes(&combined, 12, combined.len());
        proof {
            assert(nonce@ =~= combined@.take(12));
        }
        let plaintext = match aead_decrypt(self.key.as_slice(), nonce.as_slice(), ciphertext.as_slice()) {
            Ok(p) => p,
            Err(_) => {
                return Err(
                    ApiError::Encryption(
                        String::from_str("Decryption failed: invalid password or corrupted data"),
                    ),
                );
            },
        };
        match utf8_to_string(plaintext) {
            Ok(s) => Ok(s),
            Err(_) => Err(
                ApiError::Encryption(String::from_str("Invalid UTF-8 in decrypted data")),
            ),
        }
    }
}

} // verus!
