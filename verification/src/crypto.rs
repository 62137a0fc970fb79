//! Trusted boundary of the credential vault: named results and thin
//! wrappers for the password-hashing, key-derivation, authenticated
//! encryption and base64 primitives the vault's verified logic calls.

use aes_gcm::KeyInit;
use aes_gcm::aead::Aead;
use aes_gcm::aead::Generate;
use argon2::PasswordHasher;
use argon2::PasswordVerifier;
use base64::Engine;
use vstd::prelude::*;
use vstd::string::StringSliceAdditionalSpecFns;

verus! {

/// The PHC hash string argon2 produces for this password and salt.
pub uninterp spec fn phc_hash_of(password: Seq<char>, salt: Seq<u8>) -> Seq<char>;

/// Whether argon2 accepts this password against this PHC hash string.
pub uninterp spec fn hash_verifies(password: Seq<char>, hash: Seq<char>) -> bool;

/// Whether this text parses as a PHC hash string.
pub uninterp spec fn hash_parses(hash: Seq<char>) -> bool;

/// The salt embedded in this PHC hash string, if it holds one.
pub uninterp spec fn salt_of_hash(hash: Seq<char>) -> Option<Seq<u8>>;

/// The 256-bit key argon2 derives from this password and salt.
pub uninterp spec fn derived_key_of(password: Seq<char>, salt: Seq<u8>) -> Seq<u8>;

/// The AES-256-GCM ciphertext (with tag) for this key, nonce and plaintext.
pub uninterp spec fn aes_ct_of(key: Seq<u8>, nonce: Seq<u8>, plaintext: Seq<u8>) -> Seq<u8>;

/// The plaintext AES-256-GCM authenticated decryption recovers, if the
/// ciphertext is authentic under this key and nonce.
pub uninterp spec fn aes_pt_of(key: Seq<u8>, nonce: Seq<u8>, ciphertext: Seq<u8>) -> Option<
    Seq<u8>,
>;

/// The standard base64 encoding of these bytes.
pub uninterp spec fn b64_of(bytes: Seq<u8>) -> Seq<char>;

/// The bytes standard base64 decoding recovers from this text, if valid.
pub uninterp spec fn b64_decoded_of(text: Seq<char>) -> Option<Seq<u8>>;

/// Relies on phc::Salt::generate: a fresh random salt of the
/// recommended 16-byte length.
#[verifier::external_body]
pub(crate) fn generate_salt() -> (r: Vec<u8>)
    ensures
        r@.len() == 16,
{
    argon2::password_hash::phc::Salt::generate().as_ref().to_vec()
}

/// Relies on aead's Generate for the AES-GCM nonce type: 96 fresh
/// random bits.
#[verifier::external_body]
pub(crate) fn generate_nonce() -> (r: Vec<u8>)
    ensures
        r@.len() == 12,
{
    aes_gcm::Nonce::<<aes_gcm::Aes256Gcm as aes_gcm::AeadCore>::NonceSize>::generate().to_vec()
}

/// Relies on argon2's PasswordHasher::hash_password_with_salt: the PHC
/// string it returns is a function of password and salt alone, parses
/// back, embeds the salt, and verifies against the same password; with a
/// salt of 8 to 48 bytes, a password within the algorithm's length bound
/// and the default parameters, the one failure its source leaves is
/// running out of working memory.
#[verifier::external_body]
pub(crate) fn hash_password(password: &str, salt: &Vec<u8>) -> (r: Result<String, String>)
    ensures
        match r {
            Ok(h) => h@ == phc_hash_of(password@, salt@) && hash_parses(h@) && hash_verifies(
                password@,
                h@,
            ) && salt_of_hash(h@) == Some(salt@),
            Err(_) => true,
        },
        (8 <= salt@.len() <= 48 && password.spec_bytes().len() <= 0xFFFFFFFF) ==> (r is Ok || (
        r matches Err(e) && e@ == "out of memory"@)),
{
    match argon2::Argon2::default().hash_password_with_salt(password.as_bytes(), salt.as_slice()) {
        Ok(h) => Ok(h.to_string()),
        Err(e) => Err(format!("{}", e)),
    }
}

/// Relies on argon2's PasswordVerifier::verify_password: acceptance is a
/// function of password and hash string alone.
#[verifier::external_body]
pub(crate) fn verify_password(password: &str, hash: &str) -> (r: bool)
    ensures
        r == hash_verifies(password@, hash@),
{
    argon2::Argon2::default().verify_password(password.as_bytes(), hash).is_ok()
}

/// Relies on phc::PasswordHash::new: parsing is a function of the text
/// alone, and the parsed hash's salt field is the embedded salt.
#[verifier::external_body]
pub(crate) fn parse_hash_salt(hash: &str) -> (r: Result<Option<Vec<u8>>, String>)
    ensures
        r is Ok <==> hash_parses(hash@),
        match r {
            Ok(salt) => match salt {
                Some(s) => salt_of_hash(hash@) == Some(s@),
                None => salt_of_hash(hash@) is None,
            },
            Err(_) => true,
        },
{
    match argon2::password_hash::phc::PasswordHash::new(hash) {
        Ok(parsed) => Ok(parsed.salt.map(|s| s.as_ref().to_vec())),
        Err(e) => Err(format!("{}", e)),
    }
}

/// Relies on argon2's hash_password_into with a 32-byte output buffer:
/// the derived key is a function of password and salt alone, and with a
/// salt of at least 8 bytes and a password within the algorithm's length
/// bound, the one failure its source leaves is running out of working
/// memory.
#[verifier::external_body]
pub(crate) fn derive_key_bytes(password: &str, salt: &[u8]) -> (r: Result<Vec<u8>, String>)
    ensures
        match r {
            Ok(k) => k@ == derived_key_of(password@, salt@) && k@.len() == 32,
            Err(_) => true,
        },
        (8 <= salt@.len() <= 0xFFFFFFFF && password.spec_bytes().len() <= 0xFFFFFFFF) ==> (r is Ok
            || (r matches Err(e) && e@ == "Failed to derive key: out of memory"@)),
{
    let mut key = vec![0u8; 32];
    match argon2::Argon2::default().hash_password_into(password.as_bytes(), salt, &mut key) {
        Ok(()) => Ok(key),
        Err(e) => Err(format!("Failed to derive key: {}", e)),
    }
}

/// Relies on Aes256Gcm::encrypt: deterministic in key, nonce and
/// plaintext, its output is the ciphertext followed by the 16-byte tag,
/// it decrypts back to the plaintext under the same key and nonce, and
/// it fails only for plaintexts beyond the mode's length bound.
#[verifier::external_body]
pub(crate) fn aes_encrypt(key: &Vec<u8>, nonce: &Vec<u8>, plaintext: &[u8]) -> (r: Result<
    Vec<u8>,
    String,
>)
    requires
        key@.len() == 32,
        nonce@.len() == 12,
    ensures
        match r {
            Ok(c) => c@ == aes_ct_of(key@, nonce@, plaintext@) && aes_pt_of(key@, nonce@, c@)
                == Some(plaintext@) && c@.len() == plaintext@.len() + 16 && plaintext@.len()
                <= 0xF_FFFF_FFE0,
            Err(_) => true,
        },
        plaintext@.len() <= 0xF_FFFF_FFE0 ==> r is Ok,
{
    let cipher = aes_gcm::Aes256Gcm::new_from_slice(key.as_slice()).map_err(
        |e| format!("Failed to create cipher: {}", e),
    )?;
    let n = aes_gcm::Nonce::try_from(nonce.as_slice()).map_err(
        |e| format!("Failed to build nonce: {}", e),
    )?;
    cipher.encrypt(&n, plaintext).map_err(|e| format!("Encryption failed: {}", e))
}

/// Relies on Aes256Gcm::decrypt: authenticated decryption is a function
/// of key, nonce and ciphertext, and fails closed on tampering or a
/// wrong key.
#[verifier::external_body]
pub(crate) fn aes_decrypt(key: &Vec<u8>, nonce: &Vec<u8>, ciphertext: &[u8]) -> (r: Result<
    Vec<u8>,
    String,
>)
    requires
        key@.len() == 32,
        nonce@.len() == 12,
    ensures
        r is Ok <==> aes_pt_of(key@, nonce@, ciphertext@) is Some,
        match r {
            Ok(p) => aes_pt_of(key@, nonce@, ciphertext@) == Some(p@),
            Err(_) => true,
        },
{
    let cipher = aes_gcm::Aes256Gcm::new_from_slice(key.as_slice()).map_err(
        |e| format!("Failed to create cipher: {}", e),
    )?;
    let n = aes_gcm::Nonce::try_from(nonce.as_slice()).map_err(
        |e| format!("Failed to build nonce: {}", e),
    )?;
    cipher.decrypt(&n, ciphertext).map_err(|e| format!("Decryption failed: {}", e))
}

/// Relies on base64's STANDARD engine encode: deterministic, four
/// output characters for every started group of three input bytes, and
/// its output decodes back to the input bytes. The length bound keeps
/// the engine's encoded-size arithmetic from overflowing.
#[verifier::external_body]
pub(crate) fn b64_encode(bytes: &Vec<u8>) -> (r: String)
    requires
        bytes@.len() <= 0x1000_0000_0000_0000,
    ensures
        r@ == b64_of(bytes@),
        b64_decoded_of(r@) == Some(bytes@),
        r@.len() == 4 * ((bytes@.len() + 2) / 3),
{
    base64::engine::general_purpose::STANDARD.encode(bytes.as_slice())
}

/// Relies on base64's STANDARD engine decode: decoding is a function of
/// the text alone and fails exactly on invalid input.
#[verifier::external_body]
pub(crate) fn b64_decode(text: &str) -> (r: Result<Vec<u8>, String>)
    ensures
        r is Ok <==> b64_decoded_of(text@) is Some,
        match r {
            Ok(b) => b64_decoded_of(text@) == Some(b@),
            Err(_) => true,
        },
{
    base64::engine::general_purpose::STANDARD.decode(text).map_err(
        |e| format!("{}", e),
    )
}

/// Relies on String::from_utf8: succeeds exactly on valid UTF-8 and
/// decodes it.
#[verifier::external_body]
pub(crate) fn utf8_decode(bytes: Vec<u8>) -> (r: Result<String, String>)
    ensures
        r is Ok <==> vstd::utf8::valid_utf8(bytes@),
        match r {
            Ok(s) => s@ == vstd::utf8::decode_utf8(bytes@),
            Err(_) => true,
        },
{
    String::from_utf8(bytes).map_err(|e| format!("{}", e))
}

/// Relies on SystemTime::now and duration_since: seconds since the Unix
/// epoch, zero if the clock reads earlier than the epoch.
#[verifier::external_body]
pub(crate) fn now_unix_secs() -> (r: i64)
    ensures
        r >= 0,
{
    match std::time::SystemTime::now().duration_since(std::time::UNIX_EPOCH) {
        Ok(d) => d.as_secs() as i64,
        Err(_) => 0,
    }
}

} // verus!
