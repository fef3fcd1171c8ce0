//! Passphrase encryption of journal data in the age format.
//!
//! The age library does the cryptography; this module decides what each of
//! its outcomes means for the application.
use vstd::prelude::*;
use crate::crypto::session::{passphrase_text, Passphrase};
use crate::errors::{AppError, AppResult, CryptoError, IoErrorKind, IoFailure};
use std::io::ErrorKind;

verus! {

#[verifier::external_type_specification]
#[verifier::external_body]
pub struct ExIoError(std::io::Error);

/// `std::io::Error::kind` and its `Display` text: the failure as the
/// library's value, its kind read variant by variant (kinds the library does
/// not list become `Other`). Which kind and text an error has is not stated.
#[verifier::external_body]
fn io_failure_from(e: &std::io::Error) -> (r: IoFailure) {
    let kind = match e.kind() {
        ErrorKind::NotFound => IoErrorKind::NotFound, ErrorKind::PermissionDenied => IoErrorKind::PermissionDenied,
        ErrorKind::ConnectionRefused => IoErrorKind::ConnectionRefused, ErrorKind::ConnectionReset => IoErrorKind::ConnectionReset,
        ErrorKind::NetworkUnreachable => IoErrorKind::NetworkUnreachable, ErrorKind::AlreadyExists => IoErrorKind::AlreadyExists,
        ErrorKind::WouldBlock => IoErrorKind::WouldBlock, ErrorKind::InvalidInput => IoErrorKind::InvalidInput,
        ErrorKind::InvalidData => IoErrorKind::InvalidData, ErrorKind::TimedOut => IoErrorKind::TimedOut,
        ErrorKind::WriteZero => IoErrorKind::WriteZero, ErrorKind::Interrupted => IoErrorKind::Interrupted,
        ErrorKind::Unsupported => IoErrorKind::Unsupported, ErrorKind::UnexpectedEof => IoErrorKind::UnexpectedEof,
        ErrorKind::OutOfMemory => IoErrorKind::OutOfMemory, _ => IoErrorKind::Other,
    };
    IoFailure { kind, message: e.to_string() }
}

/// What came of encrypting data with the age library.
#[derive(Debug)]
pub enum EncryptOutcome {
    /// The encrypted data.
    Ciphertext(Vec<u8>),
    /// The library could not set up encryption (its message).
    SetupFailed(String),
    /// Writing the encrypted stream failed.
    WriteFailed(std::io::Error),
}

/// What came of decrypting data with the age library.
#[derive(Debug)]
pub enum DecryptOutcome {
    /// The decrypted data.
    Plaintext(Vec<u8>),
    /// The data has no readable age header (the library's message).
    HeaderInvalid(String),
    /// The data is encrypted to recipient keys, not to a passphrase.
    NotPassphraseEncrypted,
    /// The passphrase does not unlock the data (the library's message).
    WrongPassphrase(String),
    /// Reading the decrypted stream failed (a corrupted payload reads as
    /// invalid data).
    ReadFailed(std::io::Error),
}

/// The data that decrypting `ciphertext` with a passphrase gives when it
/// succeeds (header, scrypt and the ciphers are deterministic once the
/// ciphertext is fixed).
pub uninterp spec fn age_plaintext(ciphertext: Seq<u8>, passphrase: Seq<char>) -> Seq<u8>;

/// Whether `age::Decryptor::new` reads the header of `ciphertext` as that
/// of data encrypted to one passphrase (it reads the header alone).
pub uninterp spec fn age_header_is_passphrase(ciphertext: Seq<u8>) -> bool;

/// `age::Encryptor::with_user_passphrase`, `wrap_output`, `write_all` and
/// `finish`: encrypts `plaintext` to the passphrase. Encrypting to a
/// passphrase into memory cannot fail (wrapping the file key with scrypt
/// returns no error and writes into a `Vec` succeed), so a ciphertext comes
/// back. Its header holds the one scrypt stanza of a passphrase. The file
/// key and the scrypt salt are random and the work factor is measured on
/// this machine, so of the ciphertext only this is stated besides: decrypting
/// it with the same passphrase, when that succeeds, gives back `plaintext`.
#[verifier::external_body]
fn age_encrypt(plaintext: &[u8], passphrase: &Passphrase) -> (r: EncryptOutcome)
    ensures
        r is Ciphertext,
        r matches EncryptOutcome::Ciphertext(c) ==> age_header_is_passphrase(c@),
        r matches EncryptOutcome::Ciphertext(c) ==> age_plaintext(c@, passphrase_text(*passphrase)) == plaintext@,
{
    let encryptor = ::age::Encryptor::with_user_passphrase(passphrase.secret.clone());
    let mut out: Vec<u8> = Vec::new();
    let mut writer = match encryptor.wrap_output(&mut out) {
        Ok(w) => w,
        Err(e) => return EncryptOutcome::SetupFailed(e.to_string()),
    };
    let written = std::io::Write::write_all(&mut writer, plaintext).and_then(|_| writer.finish().map(|_| ()));
    match written {
        Ok(()) => EncryptOutcome::Ciphertext(out),
        Err(e) => EncryptOutcome::WriteFailed(e),
    }
}

/// `age::Decryptor::new`, `PassphraseDecryptor::decrypt` (with the default
/// work-factor limit) and `read_to_end`: decrypts `ciphertext` with the
/// passphrase. The header decides whether the data can be decrypted with a
/// passphrase at all; after that the accepted work factor is measured on
/// this machine, so which outcome comes is not stated; decrypted data is
/// [`age_plaintext`].
#[verifier::external_body]
fn age_decrypt(ciphertext: &[u8], passphrase: &Passphrase) -> (r: DecryptOutcome)
    ensures
        age_header_is_passphrase(ciphertext@) ==> !(r is HeaderInvalid) && !(r is NotPassphraseEncrypted),
        !age_header_is_passphrase(ciphertext@) ==> (r is HeaderInvalid || r is NotPassphraseEncrypted),
        r matches DecryptOutcome::Plaintext(p) ==> p@ == age_plaintext(ciphertext@, passphrase_text(*passphrase)),
{
    let decryptor = match ::age::Decryptor::new(ciphertext) {
        Ok(::age::Decryptor::Passphrase(d)) => d,
        Ok(_) => return DecryptOutcome::NotPassphraseEncrypted,
        Err(e) => return DecryptOutcome::HeaderInvalid(e.to_string()),
    };
    let mut reader = match decryptor.decrypt(&passphrase.secret, None) {
        Ok(r) => r,
        Err(e) => return DecryptOutcome::WrongPassphrase(e.to_string()),
    };
    let mut out: Vec<u8> = Vec::new();
    match std::io::Read::read_to_end(&mut reader, &mut out) {
        Ok(_) => DecryptOutcome::Plaintext(out),
        Err(e) => DecryptOutcome::ReadFailed(e),
    }
}

/// Whether `r` is the application's result for an encryption outcome: the
/// ciphertext, an encryption error for a failed setup, an I/O error (of the
/// failure's kind) for a failed write.
pub open spec fn encryption_result_spec(outcome: EncryptOutcome, r: AppResult<Vec<u8>>) -> bool {
    match outcome {
        EncryptOutcome::Ciphertext(c) => r == Ok::<Vec<u8>, AppError>(c),
        EncryptOutcome::SetupFailed(m) => r == Err::<Vec<u8>, AppError>(AppError::Crypto(CryptoError::EncryptionFailed(m))),
        EncryptOutcome::WriteFailed(_) => r matches Err(AppError::Io(_)),
    }
}

/// Whether `r` is the application's result for a decryption outcome: the
/// plaintext; a decryption error for an unreadable header; an
/// unsupported-format error for data not encrypted to a passphrase; an
/// invalid-passphrase error when the passphrase does not unlock it; an I/O
/// error (of the failure's kind) when reading fails.
pub open spec fn decryption_result_spec(outcome: DecryptOutcome, r: AppResult<Vec<u8>>) -> bool {
    match outcome {
        DecryptOutcome::Plaintext(p) => r == Ok::<Vec<u8>, AppError>(p),
        DecryptOutcome::HeaderInvalid(m) => r == Err::<Vec<u8>, AppError>(AppError::Crypto(CryptoError::DecryptionFailed(m))),
        DecryptOutcome::NotPassphraseEncrypted => r == Err::<Vec<u8>, AppError>(AppError::Crypto(CryptoError::UnsupportedFormat)),
        DecryptOutcome::WrongPassphrase(m) => r == Err::<Vec<u8>, AppError>(AppError::Crypto(CryptoError::InvalidPassphrase(m))),
        DecryptOutcome::ReadFailed(_) => r matches Err(AppError::Io(_)),
    }
}

/// Maps an encryption outcome to the application's result.
pub fn encryption_result(outcome: EncryptOutcome) -> (r: AppResult<Vec<u8>>)
    ensures
        encryption_result_spec(outcome, r),
{
    match outcome {
        EncryptOutcome::Ciphertext(c) => Ok(c),
        EncryptOutcome::SetupFailed(m) => Err(AppError::Crypto(CryptoError::EncryptionFailed(m))),
        EncryptOutcome::WriteFailed(e) => Err(AppError::Io(io_failure_from(&e))),
    }
}

/// Maps a decryption outcome to the application's result.
pub fn decryption_result(outcome: DecryptOutcome) -> (r: AppResult<Vec<u8>>)
    ensures
        decryption_result_spec(outcome, r),
{
    match outcome {
        DecryptOutcome::Plaintext(p) => Ok(p),
        DecryptOutcome::HeaderInvalid(m) => Err(AppError::Crypto(CryptoError::DecryptionFailed(m))),
        DecryptOutcome::NotPassphraseEncrypted => Err(AppError::Crypto(CryptoError::UnsupportedFormat)),
        DecryptOutcome::WrongPassphrase(m) => Err(AppError::Crypto(CryptoError::InvalidPassphrase(m))),
        DecryptOutcome::ReadFailed(e) => Err(AppError::Io(io_failure_from(&e))),
    }
}

/// Encrypts `plaintext` with the passphrase in the age format: it always
/// succeeds, with a ciphertext that decrypts, under the same passphrase, to
/// `plaintext`.
pub fn encrypt_with_passphrase(plaintext: &[u8], passphrase: &Passphrase) -> (r: AppResult<Vec<u8>>)
    ensures
        r is Ok,
        r matches Ok(c) ==> age_header_is_passphrase(c@),
        exists|o: EncryptOutcome| encryption_result_spec(o, r),
        r matches Ok(c) ==> age_plaintext(c@, passphrase_text(*passphrase)) == plaintext@,
{
    let outcome = age_encrypt(plaintext, passphrase);
    let ghost o = outcome;
    let r = encryption_result(outcome);
    assert(encryption_result_spec(o, r));
    r
}

/// Decrypts age data encrypted with a passphrase. The result is the mapping
/// of whatever the library produced (see `decryption_result`).
pub fn decrypt_with_passphrase(ciphertext: &[u8], passphrase: &Passphrase) -> (r: AppResult<Vec<u8>>)
    ensures
        exists|o: DecryptOutcome| decryption_result_spec(o, r) && (age_header_is_passphrase(ciphertext@)
            <==> !(o is HeaderInvalid || o is NotPassphraseEncrypted)),
        age_header_is_passphrase(ciphertext@) ==> !(r matches Err(AppError::Crypto(CryptoError::DecryptionFailed(_))))
            && !(r matches Err(AppError::Crypto(CryptoError::UnsupportedFormat))),
        r matches Ok(p) ==> p@ == age_plaintext(ciphertext@, passphrase_text(*passphrase)),
{
    let outcome = age_decrypt(ciphertext, passphrase);
    let ghost o = outcome;
    let r = decryption_result(outcome);
    assert(decryption_result_spec(o, r));
    assert(age_header_is_passphrase(ciphertext@) <==> !(o is HeaderInvalid || o is NotPassphraseEncrypted));
    r
}

/// Law: data encrypted with a passphrase and then decrypted with the same
/// passphrase comes back unchanged: what `encrypt_with_passphrase` returns
/// decrypts, whenever decryption succeeds, to its input, and what
/// `decrypt_with_passphrase` returns is that decryption.
pub proof fn law_decryption_inverts_encryption(
    plaintext: Seq<u8>,
    ciphertext: Seq<u8>,
    passphrase: Passphrase,
    decrypted: Seq<u8>,
)
    requires
        age_plaintext(ciphertext, passphrase_text(passphrase)) == plaintext,
        decrypted == age_plaintext(ciphertext, passphrase_text(passphrase)),
    ensures
        decrypted == plaintext,
{
}

} // verus!
