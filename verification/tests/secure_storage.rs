use base64::Engine;
use nebulaterm::secure_storage::{init_database, SecureDatabase};

fn create_test_db() -> SecureDatabase {
    init_database()
}

#[test]
fn test_database_initialization() {
    let db = create_test_db();
    assert!(!db.is_unlocked());
}

#[test]
fn test_master_password_not_set_initially() {
    let db = create_test_db();

    let has_password = db.has_master_password();
    assert!(!has_password);
}

#[test]
fn test_set_master_password() {
    let mut db = create_test_db();

    let result = db.set_master_password("test_password");
    assert!(result.is_ok());

    let has_password = db.has_master_password();
    assert!(has_password);
}

#[test]
fn test_unlock_with_correct_password() {
    let mut db = create_test_db();

    db.set_master_password("test_password").unwrap();

    let result = db.unlock("test_password");
    assert!(result.is_ok());
}

#[test]
fn test_unlock_with_wrong_password() {
    let mut db = create_test_db();

    db.set_master_password("test_password").unwrap();

    let result = db.unlock("wrong_password");
    assert!(result.is_err());
    assert_eq!(result.unwrap_err(), "Invalid password");
}

#[test]
fn test_encryption_decryption() {
    let mut db = create_test_db();

    db.set_master_password("test_password").unwrap();

    let original_text = "This is a secret message";
    let encrypted = db.encrypt(original_text).unwrap();

    // Encrypted text should be different from original
    assert_ne!(encrypted, original_text);

    // Decryption should restore original text
    let decrypted = db.decrypt(&encrypted).unwrap();
    assert_eq!(decrypted, original_text);
}

#[test]
fn test_encryption_without_unlock_fails() {
    let db = create_test_db();

    let result = db.encrypt("test");
    assert!(result.is_err());
    assert_eq!(result.unwrap_err(), "Database not unlocked");
}

#[test]
fn test_decryption_without_unlock_fails() {
    let db = create_test_db();

    let result = db.decrypt("fake_encrypted_data");
    assert!(result.is_err());
    assert_eq!(result.unwrap_err(), "Database not unlocked");
}

#[test]
fn test_encrypt_decrypt_multiple_messages() {
    let mut db = create_test_db();

    db.set_master_password("test_password").unwrap();

    let messages = vec![
        "First message",
        "Second message with special chars: !@#$%^&*()",
        "Third message with numbers: 123456",
        "Unicode: 你好世界",
    ];

    for msg in &messages {
        let encrypted = db.encrypt(msg).unwrap();
        let decrypted = db.decrypt(&encrypted).unwrap();
        assert_eq!(decrypted, *msg);
    }
}

#[test]
fn test_derive_key_deterministic() {
    let password = "test_password";
    let salt = "test_salt";

    let key1 = SecureDatabase::derive_key(password, salt).unwrap();
    let key2 = SecureDatabase::derive_key(password, salt).unwrap();

    // Same password and salt should produce same key
    assert_eq!(key1, key2);

    // Key should be 32 bytes (256 bits) for AES-256
    assert_eq!(key1.len(), 32);
}

#[test]
fn test_different_salts_produce_different_keys() {
    let password = "test_password";

    // Use longer salts (Argon2 requires at least 8 bytes)
    let key1 = SecureDatabase::derive_key(password, "salt_string_1").unwrap();
    let key2 = SecureDatabase::derive_key(password, "salt_string_2").unwrap();

    // Different salts should produce different keys
    assert_ne!(key1, key2);
}

#[test]
fn test_empty_string_round_trip() {
    let mut db = create_test_db();
    db.set_master_password("test_password").unwrap();

    let encrypted = db.encrypt("").unwrap();
    assert_eq!(db.decrypt(&encrypted).unwrap(), "");
}

#[test]
fn test_two_encryptions_differ() {
    let mut db = create_test_db();
    db.set_master_password("test_password").unwrap();

    let first = db.encrypt("same plaintext").unwrap();
    let second = db.encrypt("same plaintext").unwrap();

    // A fresh random nonce per call makes the ciphertexts differ
    assert_ne!(first, second);

    // while both still decrypt to the same plaintext
    assert_eq!(db.decrypt(&first).unwrap(), "same plaintext");
    assert_eq!(db.decrypt(&second).unwrap(), "same plaintext");
}

#[test]
fn test_encrypted_length() {
    let mut db = create_test_db();
    db.set_master_password("test_password").unwrap();

    // base64 of 12 nonce bytes plus ciphertext-and-tag (plaintext + 16):
    // four characters per started group of three bytes
    let encrypted = db.encrypt("abc").unwrap();
    assert_eq!(encrypted.len(), 4 * (((12 + 3 + 16) + 2) / 3));

    let empty = db.encrypt("").unwrap();
    assert_eq!(empty.len(), 4 * (((12 + 16) + 2) / 3));
}

#[test]
fn test_decrypt_rejects_short_input() {
    let mut db = create_test_db();
    db.set_master_password("test_password").unwrap();

    // "AAAA" is valid base64 of three bytes, shorter than the 12-byte nonce
    let result = db.decrypt("AAAA");
    assert_eq!(result.unwrap_err(), "Invalid encrypted data");
}

#[test]
fn test_decrypt_rejects_invalid_base64() {
    let mut db = create_test_db();
    db.set_master_password("test_password").unwrap();

    let result = db.decrypt("not base64 at all!");
    assert!(result.unwrap_err().starts_with("Failed to decode base64: "));
}

#[test]
fn test_decrypt_fails_closed_on_tampering() {
    let mut db = create_test_db();
    db.set_master_password("test_password").unwrap();

    let encrypted = db.encrypt("authentic data").unwrap();
    let mut raw = base64::engine::general_purpose::STANDARD
        .decode(&encrypted)
        .unwrap();
    let last = raw.len() - 1;
    raw[last] ^= 0x01;
    let tampered = base64::engine::general_purpose::STANDARD.encode(&raw);

    let result = db.decrypt(&tampered);
    assert!(result.unwrap_err().starts_with("Decryption failed: "));
}

#[test]
fn test_decrypt_fails_under_wrong_key() {
    let mut db = create_test_db();
    db.set_master_password("one password").unwrap();
    let encrypted = db.encrypt("secret").unwrap();

    let mut other = create_test_db();
    other.set_master_password("another password").unwrap();
    assert!(other.decrypt(&encrypted).is_err());
}

#[test]
fn test_unlock_without_master_password() {
    let mut db = create_test_db();
    let result = db.unlock("anything");
    assert_eq!(result.unwrap_err(), "No master password set");
    assert!(!db.is_unlocked());
}

#[test]
fn test_unlock_fresh_vault_with_stored_hash() {
    let mut first = create_test_db();
    first.set_master_password("p1").unwrap();
    assert!(first.has_master_password());
    assert!(first.is_unlocked());

    let hash = first.config_value("master_password_hash").unwrap();

    // A fresh vault rehydrated with the persisted hash behaves like a
    // fresh process: wrong password fails and leaves it locked, the
    // right one unlocks it.
    let mut second = init_database();
    second.load_config_value("master_password_hash", &hash);
    assert!(second.has_master_password());

    let wrong = second.unlock("wrong");
    assert_eq!(wrong.unwrap_err(), "Invalid password");
    assert!(!second.is_unlocked());

    second.unlock("p1").unwrap();
    assert!(second.is_unlocked());
}

#[test]
fn test_unlock_again_allows_decryption() {
    let mut db = create_test_db();
    db.set_master_password("p1").unwrap();
    let encrypted = db.encrypt("kept across unlocks").unwrap();

    let hash = db.config_value("master_password_hash").unwrap();
    let mut second = init_database();
    second.load_config_value("master_password_hash", &hash);
    second.unlock("p1").unwrap();
    assert_eq!(second.decrypt(&encrypted).unwrap(), "kept across unlocks");
}

#[test]
fn test_store_and_get_credential() {
    let mut db = create_test_db();
    db.set_master_password("master").unwrap();

    db.store_credential(
        "cred1",
        "My Server",
        Some("user"),
        Some("secret"),
        Some("/home/user/.ssh/id_ed25519"),
        None,
    )
    .unwrap();

    let stored = db.get_credential("cred1").unwrap();
    assert_eq!(stored.name, "My Server");
    assert_eq!(stored.username.as_deref(), Some("user"));
    assert_eq!(stored.ssh_key_path.as_deref(), Some("/home/user/.ssh/id_ed25519"));
    assert!(stored.passphrase_encrypted.is_none());

    // The password is stored encrypted, never in the clear
    let encrypted = stored.password_encrypted.clone().unwrap();
    assert_ne!(encrypted, "secret");

    let password = db.decrypt_password(stored.password_encrypted).unwrap();
    assert_eq!(password.as_deref(), Some("secret"));

    let decrypted = db.get_credential_decrypted("cred1").unwrap();
    assert_eq!(decrypted.name, "My Server");
    assert_eq!(decrypted.username.as_deref(), Some("user"));
    assert_eq!(decrypted.ssh_key_path.as_deref(), Some("/home/user/.ssh/id_ed25519"));
    assert_eq!(decrypted.password.as_deref(), Some("secret"));
    assert!(decrypted.passphrase.is_none());
}

#[test]
fn test_get_credential_not_found() {
    let db = create_test_db();
    let result = db.get_credential("missing");
    assert_eq!(result.unwrap_err(), "Credential not found");
}

#[test]
fn test_store_credential_overwrites() {
    let mut db = create_test_db();
    db.set_master_password("master").unwrap();

    db.store_credential("cred1", "First", None, None, None, None).unwrap();
    db.store_credential("cred1", "Second", Some("u"), None, None, None).unwrap();

    let stored = db.get_credential("cred1").unwrap();
    assert_eq!(stored.name, "Second");
    assert_eq!(stored.username.as_deref(), Some("u"));
}

#[test]
fn test_store_credential_locked() {
    let mut db = create_test_db();

    // Storing a secret needs the key
    let result = db.store_credential("cred1", "Server", None, Some("pw"), None, None);
    assert_eq!(result.unwrap_err(), "Database not unlocked");

    // A record without secret fields needs none
    db.store_credential("cred1", "Server", Some("u"), None, None, None).unwrap();
    assert_eq!(db.get_credential("cred1").unwrap().name, "Server");
}

#[test]
fn test_delete_credential() {
    let mut db = create_test_db();
    db.set_master_password("master").unwrap();
    db.store_credential("cred1", "Server", None, None, None, None).unwrap();

    db.delete_credential("cred1").unwrap();
    assert_eq!(db.get_credential("cred1").unwrap_err(), "Credential not found");

    // Deleting an absent record still succeeds
    db.delete_credential("cred1").unwrap();
}

#[test]
fn test_decrypt_password_absent_field() {
    let db = create_test_db();
    let result = db.decrypt_password(None).unwrap();
    assert!(result.is_none());
}
