use aes_gcm::aead::{Aead, KeyInit};
use base64::Engine;
use dns_orchestrator::crypto;
use dns_orchestrator::CryptoManager;

const B64: base64::engine::general_purpose::GeneralPurpose =
    base64::engine::general_purpose::STANDARD;

#[test]
fn test_encrypt_decrypt() {
    let key = CryptoManager::generate_key();
    let crypto = CryptoManager::from_hex_key(&key).unwrap();

    let plaintext = r#"{"apiToken":"test-token-12345"}"#;
    let encrypted = crypto.encrypt(plaintext).unwrap();
    let decrypted = crypto.decrypt(&encrypted).unwrap();

    assert_eq!(plaintext, decrypted);
}

#[test]
fn round_trip_restores_plaintext() {
    let plaintext = b"secret credential payload";
    let (salt, nonce, ciphertext) = crypto::encrypt(plaintext, "hunter2").unwrap();
    let recovered = crypto::decrypt(&ciphertext, "hunter2", &salt, &nonce).unwrap();
    assert_eq!(recovered, plaintext.to_vec());
}

#[test]
fn wrong_password_and_corruption_fail_alike() {
    let plaintext = b"secret credential payload";
    let (salt, nonce, ciphertext) = crypto::encrypt(plaintext, "hunter2").unwrap();

    let wrong = crypto::decrypt(&ciphertext, "hunter3", &salt, &nonce);
    let wrong_msg = match wrong {
        Err(dns_orchestrator::CoreError::SerializationError(m)) => m,
        other => panic!("expected decryption failure, got {:?}", other),
    };

    let mut raw = B64.decode(&ciphertext).unwrap();
    raw[0] ^= 0x01;
    let corrupted = B64.encode(&raw);
    let corrupt = crypto::decrypt(&corrupted, "hunter2", &salt, &nonce);
    let corrupt_msg = match corrupt {
        Err(dns_orchestrator::CoreError::SerializationError(m)) => m,
        other => panic!("expected decryption failure, got {:?}", other),
    };

    assert_eq!(wrong_msg, corrupt_msg);
    assert_eq!(wrong_msg, "Decryption failed: invalid password or corrupted data");
}

#[test]
fn every_encryption_draws_fresh_salt_and_nonce() {
    let plaintext = b"same plaintext";
    let (salt1, nonce1, ct1) = crypto::encrypt(plaintext, "pw").unwrap();
    let (salt2, nonce2, ct2) = crypto::encrypt(plaintext, "pw").unwrap();
    assert_ne!(salt1, salt2);
    assert_ne!(nonce1, nonce2);
    assert_ne!(ct1, ct2);
}

#[test]
fn explicit_iteration_count_reads_old_blobs() {
    // Build a blob by hand with a historical iteration count far from the
    // current default, then decrypt it by supplying that count.
    let password = "legacy-password";
    let iterations = 1_000u32;
    let salt = [7u8; 16];
    let nonce = [9u8; 12];
    let plaintext = b"written by an older build";
    let key = pbkdf2::pbkdf2_hmac_array::<sha2::Sha256, 32>(password.as_bytes(), &salt, iterations);
    let cipher = aes_gcm::Aes256Gcm::new_from_slice(&key).unwrap();
    let ct = cipher
        .encrypt(aes_gcm::Nonce::from_slice(&nonce), plaintext.as_slice())
        .unwrap();

    let recovered = crypto::decrypt_with_iterations(
        &B64.encode(ct),
        password,
        &B64.encode(salt),
        &B64.encode(nonce),
        iterations,
    )
    .unwrap();
    assert_eq!(recovered, plaintext.to_vec());

    // The default count differs, so decrypting without the explicit count fails.
    assert!(dns_orchestrator::get_current_iterations() != iterations);
    let with_default = crypto::decrypt(
        &B64.encode(cipher.encrypt(aes_gcm::Nonce::from_slice(&nonce), plaintext.as_slice()).unwrap()),
        password,
        &B64.encode(salt),
        &B64.encode(nonce),
    );
    assert!(with_default.is_err());
}

#[test]
fn malformed_fields_fail_structurally() {
    let r = crypto::decrypt("AAAA", "pw", "not base64!!", "AAAA");
    match r {
        Err(dns_orchestrator::CoreError::SerializationError(m)) => assert_eq!(m, "Invalid salt"),
        other => panic!("unexpected {:?}", other),
    }
    let r = crypto::decrypt("AAAA", "pw", "AAAA", "AAAA");
    match r {
        Err(dns_orchestrator::CoreError::SerializationError(m)) => {
            assert_eq!(m, "Invalid nonce length")
        }
        other => panic!("unexpected {:?}", other),
    }
}

#[test]
fn password_blob_round_trip() {
    let sealed = crypto::encrypt_with_password("the export payload", "pw").unwrap();
    let opened = crypto::decrypt_with_password(&sealed, "pw").unwrap();
    assert_eq!(opened, "the export payload");
    assert!(crypto::decrypt_with_password(&sealed, "other").is_err());

    // The blob is one base64 field: salt(16) || nonce(12) || ciphertext.
    let raw = B64.decode(&sealed).unwrap();
    assert!(raw.len() > 28);
}

#[test]
fn fixed_key_manager_rejects_bad_keys() {
    assert!(CryptoManager::from_hex_key("zz").is_err());
    assert!(CryptoManager::from_hex_key("abcd").is_err());
    let key = CryptoManager::generate_key();
    assert_eq!(key.len(), 64);
    assert!(CryptoManager::from_hex_key(&key).is_ok());
}

#[test]
fn hex_matches_reference_implementation() {
    let data: Vec<u8> = (0u8..=255).collect();
    assert_eq!(
        dns_orchestrator::hexutil::hex_string(&data),
        hex::encode(&data)
    );
    assert_eq!(
        dns_orchestrator::hexutil::hex_decode(&hex::encode(&data)).unwrap(),
        data
    );
    assert_eq!(dns_orchestrator::hexutil::hex_decode("ABCDEF").unwrap(), vec![0xab, 0xcd, 0xef]);
    assert!(dns_orchestrator::hexutil::hex_decode("abc").is_err());
    assert!(dns_orchestrator::hexutil::hex_decode("zz").is_err());
}
