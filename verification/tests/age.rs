use ponder::crypto::age::{decryption_result, encryption_result, DecryptOutcome, EncryptOutcome};
use ponder::crypto::session::Passphrase;
use ponder::crypto::{decrypt_with_passphrase, encrypt_with_passphrase};
use ponder::errors::{AppError, CryptoError, IoErrorKind};

#[test]
fn test_encrypt_decrypt_roundtrip() {
    let passphrase = Passphrase::new("test-passphrase-12345".to_string());
    let plaintext: &[u8] =
        b"This is a secret journal entry with multiple lines.\nAnd some special chars: !@#$%^&*()";
    let encrypted = encrypt_with_passphrase(plaintext, &passphrase).expect("encryption should succeed");
    assert_ne!(encrypted.as_slice(), plaintext);
    let decrypted = decrypt_with_passphrase(&encrypted, &passphrase).expect("decryption should succeed");
    assert_eq!(decrypted.as_slice(), plaintext);
}

#[test]
fn age_test_wrong_passphrase_fails() {
    let correct_passphrase = Passphrase::new("correct-passphrase".to_string());
    let wrong_passphrase = Passphrase::new("wrong-passphrase".to_string());
    let plaintext: &[u8] = b"Secret data";
    let encrypted =
        encrypt_with_passphrase(plaintext, &correct_passphrase).expect("encryption should succeed");
    let result = decrypt_with_passphrase(&encrypted, &wrong_passphrase);
    assert!(result.is_err(), "decryption with wrong passphrase should fail");
    assert!(matches!(result, Err(AppError::Crypto(CryptoError::InvalidPassphrase(_)))));
}

#[test]
fn decrypting_garbage_reports_an_unreadable_header() {
    let passphrase = Passphrase::new("p".to_string());
    let result = decrypt_with_passphrase(b"not an age file", &passphrase);
    assert!(matches!(result, Err(AppError::Crypto(CryptoError::DecryptionFailed(_)))));
}

#[test]
fn ciphertext_starts_with_the_age_header() {
    let passphrase = Passphrase::new("p".to_string());
    let encrypted = encrypt_with_passphrase(b"x", &passphrase).unwrap();
    assert!(encrypted.starts_with(b"age-encryption.org/v1\n"));
}

#[test]
fn decryption_outcomes_map_to_errors() {
    assert_eq!(decryption_result(DecryptOutcome::Plaintext(vec![1, 2])).unwrap(), vec![1, 2]);
    assert!(matches!(
        decryption_result(DecryptOutcome::HeaderInvalid("bad".to_string())),
        Err(AppError::Crypto(CryptoError::DecryptionFailed(m))) if m == "bad"
    ));
    assert!(matches!(
        decryption_result(DecryptOutcome::NotPassphraseEncrypted),
        Err(AppError::Crypto(CryptoError::UnsupportedFormat))
    ));
    assert!(matches!(
        decryption_result(DecryptOutcome::WrongPassphrase("no".to_string())),
        Err(AppError::Crypto(CryptoError::InvalidPassphrase(m))) if m == "no"
    ));
    let corrupted = std::io::Error::new(std::io::ErrorKind::InvalidData, "eof");
    match decryption_result(DecryptOutcome::ReadFailed(corrupted)) {
        Err(AppError::Io(f)) => {
            assert_eq!(f.kind(), IoErrorKind::InvalidData);
            assert_eq!(f.to_string(), "eof");
        }
        _ => panic!("expected an I/O error"),
    }
}

#[test]
fn encryption_outcomes_map_to_errors() {
    assert_eq!(encryption_result(EncryptOutcome::Ciphertext(vec![9])).unwrap(), vec![9]);
    let e = encryption_result(EncryptOutcome::SetupFailed("scrypt".to_string())).unwrap_err();
    assert_eq!(e.to_string(), "Cryptographic error: Encryption failed: scrypt");
    let e = encryption_result(EncryptOutcome::WriteFailed(std::io::Error::new(std::io::ErrorKind::WriteZero, "full"))).unwrap_err();
    assert_eq!(e.to_string(), "I/O error: full");
    match e {
        AppError::Io(f) => assert_eq!(f.kind(), IoErrorKind::WriteZero),
        _ => panic!("expected an I/O error"),
    }
}

#[test]
fn own_ciphertext_never_has_an_unreadable_header() {
    let p = Passphrase::new("right".to_string());
    let q = Passphrase::new("wrong".to_string());
    let c = encrypt_with_passphrase(b"data", &p).unwrap();
    let r = decrypt_with_passphrase(&c, &q);
    assert!(!matches!(r, Err(AppError::Crypto(CryptoError::DecryptionFailed(_)))));
    assert!(!matches!(r, Err(AppError::Crypto(CryptoError::UnsupportedFormat))));
}

#[test]
fn corrupted_payload_is_an_invalid_data_error() {
    let p = Passphrase::new("right".to_string());
    let mut c = encrypt_with_passphrase(b"journal entry", &p).unwrap();
    let last = c.len() - 1;
    c[last] ^= 0x01;
    match decrypt_with_passphrase(&c, &p) {
        Err(AppError::Io(f)) => assert_eq!(f.kind(), IoErrorKind::InvalidData),
        other => panic!("expected an invalid-data error, got {:?}", other.map(|v| v.len())),
    }
}
