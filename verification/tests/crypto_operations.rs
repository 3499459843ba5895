use sentinel::crypto::{decrypt_aes256, encrypt_aes256};
use sentinel::work::Work;

const KEY: [u8; 32] = [7u8; 32];
const NONCE: [u8; 12] = [9u8; 12];

#[test]
fn encrypt_then_decrypt_returns_the_plaintext() {
    let ciphertext = encrypt_aes256(&KEY, &NONCE, "attack at dawn").unwrap();
    assert_ne!(ciphertext, b"attack at dawn".to_vec());
    let plaintext = decrypt_aes256(&KEY, &NONCE, &ciphertext).unwrap();
    assert_eq!(plaintext, "attack at dawn");
}

#[test]
fn tampered_ciphertext_is_rejected() {
    let mut ciphertext = encrypt_aes256(&KEY, &NONCE, "payload").unwrap();
    ciphertext[0] ^= 0xff;
    assert!(decrypt_aes256(&KEY, &NONCE, &ciphertext).is_err());
}

#[test]
fn wrong_key_is_rejected() {
    let ciphertext = encrypt_aes256(&KEY, &NONCE, "payload").unwrap();
    let other_key = [8u8; 32];
    assert!(decrypt_aes256(&other_key, &NONCE, &ciphertext).is_err());
}

#[test]
fn work_crypto_delegates_match_direct_calls() {
    let work = Work::new();
    assert_eq!(work.hash_sha256("abc"), sentinel::crypto::hash_sha256("abc"));
    let hash = work.hash_argon2id("pw", "somesalt").unwrap();
    assert!(sentinel::crypto::verify_argon2id("pw", &hash));
    let ciphertext = work.encrypt_aes256(&KEY, &NONCE, "hi").unwrap();
    assert_eq!(work.decrypt_aes256(&KEY, &NONCE, &ciphertext).unwrap(), "hi");
}
