//! Cryptographic primitives consumed as opaque operations: Argon2id and
//! SHA-256 hashing and AES-256-GCM encryption, each behind a trusted wrapper
//! whose result is named by an uninterpreted spec function.

use vstd::prelude::*;

use aes_gcm::aead::{Aead, NewAead};
use aes_gcm::{Aes256Gcm, Key, Nonce};
use argon2::password_hash::{PasswordHash, SaltString};
use argon2::{Argon2, PasswordHasher, PasswordVerifier};
use sha2::{Digest, Sha256};

verus! {

/// The view of a string-or-string-error result.
pub open spec fn str_result_view(r: Result<String, String>) -> Result<Seq<char>, Seq<char>> {
    match r {
        Ok(s) => Ok(s@),
        Err(e) => Err(e@),
    }
}

/// The view of a bytes-or-string-error result.
pub open spec fn bytes_result_view(r: Result<Vec<u8>, String>) -> Result<Seq<u8>, Seq<char>> {
    match r {
        Ok(b) => Ok(b@),
        Err(e) => Err(e@),
    }
}

/// The hexadecimal SHA-256 digest of a string, as computed by `sha2`.
pub uninterp spec fn sha256_hex_of(input: Seq<char>) -> Seq<char>;

/// Relies on `sha2::Sha256`: the digest depends on the input alone, is 32
/// bytes long, and is rendered here as 64 lower-case hexadecimal digits.
#[verifier::external_body]
pub fn hash_sha256(input: &str) -> (r: String)
    ensures
        r@ == sha256_hex_of(input@),
        r@.len() == 64,
{
    let mut hasher = Sha256::new();
    hasher.update(input.as_bytes());
    format!("{:x}", hasher.finalize())
}

/// The PHC-format Argon2id hash of a password under a developer-provided
/// salt, or the error text when the salt cannot be encoded; both depend on
/// the arguments alone.
pub uninterp spec fn argon2id_of(password: Seq<char>, salt: Seq<char>) -> Result<
    Seq<char>,
    Seq<char>,
>;

/// Relies on `argon2::Argon2::hash_password` with the default parameters and
/// `SaltString::b64_encode`: hashing is deterministic in the password and the
/// salt, and fails exactly when the salt cannot be used — too long for the
/// salt buffer to encode, or too short to form a valid salt string.
#[verifier::external_body]
pub fn hash_argon2id(password: &str, salt: &str) -> (r: Result<String, String>)
    ensures
        str_result_view(r) == argon2id_of(password@, salt@),
{
    let salt = match SaltString::b64_encode(salt.as_bytes()) {
        Ok(s) => s,
        Err(e) => {
            return Err(e.to_string());
        },
    };
    let argon = Argon2::default();
    match argon.hash_password(password.as_bytes(), &salt) {
        Ok(hash) => Ok(hash.to_string()),
        Err(e) => Err(e.to_string()),
    }
}

/// Whether a password verifies against a PHC-format Argon2id hash string;
/// depends on the two arguments alone.
pub uninterp spec fn argon2id_verifies(password: Seq<char>, hash: Seq<char>) -> bool;

/// Relies on `argon2::Argon2::verify_password` and
/// `password_hash::PasswordHash::new`: verification is deterministic in the
/// password and the hash string, and an unparsable hash never verifies.
#[verifier::external_body]
pub fn verify_argon2id(password: &str, hash: &str) -> (r: bool)
    ensures
        r == argon2id_verifies(password@, hash@),
{
    if let Ok(parsed) = PasswordHash::new(hash) {
        Argon2::default().verify_password(password.as_bytes(), &parsed).is_ok()
    } else {
        false
    }
}

/// The AES-256-GCM sealing of a plaintext under a key and nonce, or the
/// error text; deterministic in the three arguments.
pub uninterp spec fn aes256gcm_seal(key: Seq<u8>, nonce: Seq<u8>, plaintext: Seq<char>) -> Result<
    Seq<u8>,
    Seq<char>,
>;

/// Relies on `aes_gcm::Aes256Gcm::encrypt`: the ciphertext depends only on
/// the key, the nonce and the plaintext bytes.
#[verifier::external_body]
pub fn encrypt_aes256(key: &[u8; 32], nonce: &[u8; 12], plaintext: &str) -> (r: Result<
    Vec<u8>,
    String,
>)
    ensures
        bytes_result_view(r) == aes256gcm_seal(key@, nonce@, plaintext@),
{
    let cipher = Aes256Gcm::new(Key::from_slice(key));
    cipher.encrypt(Nonce::from_slice(nonce), plaintext.as_bytes()).map_err(|e| e.to_string())
}

/// The AES-256-GCM opening of a ciphertext under a key and nonce, decoded as
/// UTF-8, or the error text; deterministic in the three arguments.
pub uninterp spec fn aes256gcm_open(key: Seq<u8>, nonce: Seq<u8>, ciphertext: Seq<u8>) -> Result<
    Seq<char>,
    Seq<char>,
>;

/// Relies on `aes_gcm::Aes256Gcm::decrypt` and `String::from_utf8`: the
/// decrypted text depends only on the key, the nonce and the ciphertext, and
/// tampered ciphertexts are rejected.
#[verifier::external_body]
pub fn decrypt_aes256(key: &[u8; 32], nonce: &[u8; 12], ciphertext: &[u8]) -> (r: Result<
    String,
    String,
>)
    ensures
        str_result_view(r) == aes256gcm_open(key@, nonce@, ciphertext@),
{
    let cipher = Aes256Gcm::new(Key::from_slice(key));
    let decrypted = cipher.decrypt(Nonce::from_slice(nonce), ciphertext).map_err(
        |e| e.to_string(),
    )?;
    String::from_utf8(decrypted).map_err(|e| e.to_string())
}

} // verus!
