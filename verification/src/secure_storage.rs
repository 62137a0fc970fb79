//! The credential vault: master-password setup and verification,
//! key derivation, authenticated encryption of stored secrets, and the
//! credential records themselves.
//!
//! The vault holds its two tables — a config table keyed by fixed names
//! and a credentials table keyed by credential id — in memory; the caller
//! persists them and rehydrates a fresh vault through the load methods.
//! The 256-bit key lives only in memory and only while the vault is
//! unlocked: without it every encrypt and decrypt fails.

use crate::crypto::{
    aes_ct_of, aes_decrypt, aes_encrypt, b64_decode, b64_decoded_of, b64_encode, b64_of,
    derive_key_bytes, derived_key_of, generate_nonce, generate_salt, hash_parses, hash_password,
    hash_verifies, now_unix_secs, parse_hash_salt, phc_hash_of, salt_of_hash, verify_password,
};
use crate::str_map::StrMap;
use vstd::prelude::*;
use vstd::utf8::{decode_utf8, encode_utf8, valid_utf8};

verus! {

/// The view of an optional string.
pub open spec fn opt_str_view(o: Option<String>) -> Option<Seq<char>> {
    match o {
        Option::Some(s) => Option::Some(s@),
        Option::None => Option::None,
    }
}

/// The view of an optional borrowed string.
pub open spec fn opt_ref_view(o: Option<&str>) -> Option<Seq<char>> {
    match o {
        Option::Some(s) => Option::Some(s@),
        Option::None => Option::None,
    }
}

/// A stored credential row: unencrypted descriptive fields, encrypted
/// secret fields, and the record's timestamps.
pub struct CredentialRow {
    pub name: String,
    pub username: Option<String>,
    pub password_encrypted: Option<String>,
    pub ssh_key_path: Option<String>,
    pub passphrase_encrypted: Option<String>,
    pub created_at: i64,
    pub updated_at: i64,
}

/// The mathematical content of a credential row.
pub struct CredentialRowView {
    pub name: Seq<char>,
    pub username: Option<Seq<char>>,
    pub password_encrypted: Option<Seq<char>>,
    pub ssh_key_path: Option<Seq<char>>,
    pub passphrase_encrypted: Option<Seq<char>>,
    pub created_at: int,
    pub updated_at: int,
}

impl View for CredentialRow {
    type V = CredentialRowView;

    open spec fn view(&self) -> CredentialRowView {
        CredentialRowView {
            name: self.name@,
            username: opt_str_view(self.username),
            password_encrypted: opt_str_view(self.password_encrypted),
            ssh_key_path: opt_str_view(self.ssh_key_path),
            passphrase_encrypted: opt_str_view(self.passphrase_encrypted),
            created_at: self.created_at as int,
            updated_at: self.updated_at as int,
        }
    }
}

/// A credential as read back from the vault: the encrypted secret
/// fields still encrypted.
#[derive(Debug)]
pub struct StoredCredential {
    pub name: String,
    pub username: Option<String>,
    pub password_encrypted: Option<String>,
    pub ssh_key_path: Option<String>,
    pub passphrase_encrypted: Option<String>,
}

/// A credential with its secret fields decrypted.
#[derive(Debug)]
pub struct DecryptedCredential {
    pub name: String,
    pub username: Option<String>,
    pub password: Option<String>,
    pub ssh_key_path: Option<String>,
    pub passphrase: Option<String>,
}

/// What decrypting `text` under `key` yields: strip the base64 layer,
/// split the 96-bit nonce from the ciphertext, authenticate and decrypt,
/// and decode the plaintext as UTF-8; any failing step fails the whole.
pub open spec fn opened_of(key: Seq<u8>, text: Seq<char>) -> Option<Seq<char>> {
    match b64_decoded_of(text) {
        Option::None => Option::None,
        Option::Some(combined) => if combined.len() < 12 {
            Option::None
        } else {
            let nonce = combined.subrange(0, 12);
            let ct = combined.subrange(12, combined.len() as int);
            match crate::crypto::aes_pt_of(key, nonce, ct) {
                Option::None => Option::None,
                Option::Some(pt) => if valid_utf8(pt) {
                    Option::Some(decode_utf8(pt))
                } else {
                    Option::None
                },
            }
        },
    }
}

proof fn lemma_encode_utf8_at_least_one_byte_per_char(chars: Seq<char>)
    ensures
        encode_utf8(chars).len() >= chars.len(),
    decreases chars.len(),
{
    if chars.len() > 0 {
        lemma_encode_utf8_at_least_one_byte_per_char(chars.drop_first());
        assert(vstd::utf8::encode_scalar(chars[0] as u32).len() >= 1);
    }
}

proof fn lemma_map_values_insert<V, W>(m: Map<Seq<char>, V>, f: spec_fn(V) -> W, k: Seq<char>, v: V)
    ensures
        m.insert(k, v).map_values(f) == m.map_values(f).insert(k, f(v)),
{
    assert(m.insert(k, v).map_values(f) =~= m.map_values(f).insert(k, f(v)));
}

proof fn lemma_map_values_remove<V, W>(m: Map<Seq<char>, V>, f: spec_fn(V) -> W, k: Seq<char>)
    ensures
        m.remove(k).map_values(f) == m.map_values(f).remove(k),
{
    assert(m.remove(k).map_values(f) =~= m.map_values(f).remove(k));
}

/// Builds `prefix` followed by `tail`.
fn prefixed(prefix: &str, tail: &str) -> (r: String)
    ensures
        r@ == prefix@ + tail@,
{
    let mut s = prefix.to_owned();
    s.append(tail);
    s
}

fn opt_to_owned(o: Option<&str>) -> (r: Option<String>)
    ensures
        opt_str_view(r) == opt_ref_view(o),
{
    match o {
        Some(s) => Some(s.to_owned()),
        None => None,
    }
}

fn clone_opt(o: &Option<String>) -> (r: Option<String>)
    ensures
        opt_str_view(r) == opt_str_view(*o),
{
    match o {
        Some(s) => Some(s.clone()),
        None => None,
    }
}

/// The vault. `Locked` is a vault without its key; setting the master
/// password or unlocking with it installs the key.
pub struct SecureDatabase {
    config: StrMap<String>,
    credentials: StrMap<CredentialRow>,
    encryption_key: Option<Vec<u8>>,
}

impl SecureDatabase {
    /// Well-formedness: the tables are well-formed and a present key is
    /// 256 bits.
    pub closed spec fn wf(&self) -> bool {
        &&& self.config.wf()
        &&& self.credentials.wf()
        &&& self.encryption_key matches Some(k) ==> k@.len() == 32
    }

    /// The config table: fixed names to stored values.
    pub closed spec fn config_map(&self) -> Map<Seq<char>, Seq<char>> {
        self.config@.map_values(|v: String| v@)
    }

    /// The credentials table: credential ids to rows.
    pub closed spec fn credentials_map(&self) -> Map<Seq<char>, CredentialRowView> {
        self.credentials@.map_values(|v: CredentialRow| v@)
    }

    /// Whether the key is present.
    pub closed spec fn is_unlocked_spec(&self) -> bool {
        self.encryption_key is Some
    }

    /// The in-memory key (meaningful only while unlocked).
    pub closed spec fn key_view(&self) -> Seq<u8> {
        self.encryption_key.unwrap()@
    }

    /// A fresh vault: empty tables, locked.
    pub fn init() -> (r: Self)
        ensures
            r.wf(),
            r.config_map() == Map::<Seq<char>, Seq<char>>::empty(),
            r.credentials_map() == Map::<Seq<char>, CredentialRowView>::empty(),
            !r.is_unlocked_spec(),
    {
        let r = SecureDatabase {
            config: StrMap::new(),
            credentials: StrMap::new(),
            encryption_key: None,
        };
        proof {
            assert(r.config_map() =~= Map::<Seq<char>, Seq<char>>::empty());
            assert(r.credentials_map() =~= Map::<Seq<char>, CredentialRowView>::empty());
        }
        r
    }

    /// Whether a master password has been set: a pure existence check on
    /// the stored verification hash.
    pub fn has_master_password(&self) -> (r: bool)
        requires
            self.wf(),
        ensures
            r == self.config_map().contains_key("master_password_hash"@),
    {
        let key_name = "master_password_hash".to_owned();
        self.config.contains(&key_name)
    }

    /// Sets the master password: generates a fresh random salt, stores
    /// the password's verification hash under the fixed config name, and
    /// unlocks the vault with the key derived from password and salt.
    pub fn set_master_password(&mut self, password: &str) -> (r: Result<(), String>)
        requires
            old(self).wf(),
        ensures
            final(self).wf(),
            final(self).credentials_map() == old(self).credentials_map(),
            match r {
                Ok(_) => {
                    &&& final(self).is_unlocked_spec()
                    &&& exists|salt: Seq<u8>|
                        {
                            let h = phc_hash_of(password@, salt);
                            &&& #[trigger] salt.len() == 16
                            &&& final(self).config_map() == old(self).config_map().insert(
                                "master_password_hash"@,
                                h,
                            )
                            &&& hash_parses(h)
                            &&& hash_verifies(password@, h)
                            &&& salt_of_hash(h) == Some(salt)
                            &&& final(self).key_view() == derived_key_of(password@, salt)
                        }
                },
                Err(_) => *final(self) == *old(self),
            },
            encode_utf8(password@).len() <= 0xFFFFFFFF ==> (r is Ok || (r matches Err(e) && (e@
                == "Failed to hash password: out of memory"@ || e@
                == "Failed to derive key: out of memory"@))),
    {
        let salt = generate_salt();
        let hash = match hash_password(password, &salt) {
            Ok(h) => h,
            Err(e) => {
                let msg = prefixed("Failed to hash password: ", e.as_str());
                proof {
                    if e@ == "out of memory"@ {
                        reveal_strlit("Failed to hash password: ");
                        reveal_strlit("out of memory");
                        reveal_strlit("Failed to hash password: out of memory");
                        assert(msg@ =~= "Failed to hash password: out of memory"@);
                    }
                }
                return Err(msg);
            },
        };
        let key = match derive_key_bytes(password, salt.as_slice()) {
            Ok(k) => k,
            Err(e) => {
                return Err(e);
            },
        };
        proof {
            lemma_map_values_insert(
                self.config@,
                |v: String| v@,
                "master_password_hash"@,
                hash,
            );
        }
        self.config.insert("master_password_hash".to_owned(), hash);
        self.encryption_key = Some(key);
        Ok(())
    }

    /// Unlocks the vault: verifies the password against the stored hash,
    /// re-derives the key from the salt the hash embeds, and installs it.
    /// On any failure the vault is left exactly as it was; the errors
    /// distinguish a missing master password from a wrong one.
    pub fn unlock(&mut self, password: &str) -> (r: Result<(), String>)
        requires
            old(self).wf(),
        ensures
            final(self).wf(),
            final(self).config_map() == old(self).config_map(),
            final(self).credentials_map() == old(self).credentials_map(),
            match r {
                Ok(_) => {
                    let h = old(self).config_map()["master_password_hash"@];
                    &&& old(self).config_map().contains_key("master_password_hash"@)
                    &&& hash_parses(h)
                    &&& hash_verifies(password@, h)
                    &&& salt_of_hash(h) is Some
                    &&& final(self).is_unlocked_spec()
                    &&& final(self).key_view() == derived_key_of(
                        password@,
                        salt_of_hash(h).unwrap(),
                    )
                },
                Err(e) => {
                    let h = old(self).config_map()["master_password_hash"@];
                    &&& *final(self) == *old(self)
                    &&& !old(self).config_map().contains_key("master_password_hash"@) ==> e@
                        == "No master password set"@
                    &&& (old(self).config_map().contains_key("master_password_hash"@)
                        && hash_parses(h) && !hash_verifies(password@, h)) ==> e@
                        == "Invalid password"@
                    &&& (old(self).config_map().contains_key("master_password_hash"@)
                        && hash_parses(h) && hash_verifies(password@, h) && salt_of_hash(h)
                        is None) ==> e@ == "No salt in password hash"@
                    &&& (old(self).config_map().contains_key("master_password_hash"@)
                        && !hash_parses(h)) ==> "Invalid password hash: "@.is_prefix_of(e@)
                },
            },
            ({
                let h = old(self).config_map()["master_password_hash"@];
                (old(self).config_map().contains_key("master_password_hash"@) && hash_parses(h)
                    && hash_verifies(password@, h) && (salt_of_hash(h) matches Some(s) && 8
                    <= s.len() <= 0xFFFFFFFF) && encode_utf8(password@).len() <= 0xFFFFFFFF) ==> (r
                    is Ok || (r matches Err(e) && e@ == "Failed to derive key: out of memory"@))
            }),
    {
        let key_name = "master_password_hash".to_owned();
        let stored = match self.config.get(&key_name) {
            Some(h) => h.clone(),
            None => {
                return Err("No master password set".to_owned());
            },
        };
        let salt_opt = match parse_hash_salt(stored.as_str()) {
            Ok(o) => o,
            Err(e) => {
                let msg = prefixed("Invalid password hash: ", e.as_str());
                proof {
                    assert(msg@.subrange(0, "Invalid password hash: "@.len() as int)
                        =~= "Invalid password hash: "@);
                }
                return Err(msg);
            },
        };
        if !verify_password(password, stored.as_str()) {
            return Err("Invalid password".to_owned());
        }
        let salt = match salt_opt {
            Some(s) => s,
            None => {
                return Err("No salt in password hash".to_owned());
            },
        };
        let key = match derive_key_bytes(password, salt.as_slice()) {
            Ok(k) => k,
            Err(e) => {
                return Err(e);
            },
        };
        self.encryption_key = Some(key);
        Ok(())
    }

    /// Derives the 256-bit vault key from a password and the bytes of a
    /// salt string.
    pub fn derive_key(password: &str, salt: &str) -> (r: Result<Vec<u8>, String>)
        ensures
            match r {
                Ok(k) => k@ == derived_key_of(password@, encode_utf8(salt@)) && k@.len() == 32,
                Err(_) => true,
            },
            (8 <= encode_utf8(salt@).len() <= 0xFFFFFFFF && encode_utf8(password@).len()
                <= 0xFFFFFFFF) ==> (r is Ok || (r matches Err(e) && e@
                == "Failed to derive key: out of memory"@)),
    {
        derive_key_bytes(password, salt.as_bytes())
    }

    /// Encrypts `data` under the vault key with a fresh random 96-bit
    /// nonce: the result is base64 of nonce-then-ciphertext, and opening
    /// it under the same key recovers `data` exactly. Fails with the
    /// not-unlocked error whenever the key is absent.
    pub fn encrypt(&self, data: &str) -> (r: Result<String, String>)
        requires
            self.wf(),
        ensures
            !self.is_unlocked_spec() ==> (r matches Err(e) && e@ == "Database not unlocked"@),
            (self.is_unlocked_spec() && encode_utf8(data@).len() <= 0xF_FFFF_FFE0) ==> r is Ok,
            match r {
                Ok(c) => {
                    &&& self.is_unlocked_spec()
                    &&& opened_of(self.key_view(), c@) == Some(data@)
                    &&& c@.len() == 4 * ((12 + encode_utf8(data@).len() + 16 + 2) / 3)
                    &&& c@ != data@
                    &&& exists|nonce: Seq<u8>|
                        #[trigger] nonce.len() == 12 && c@ == b64_of(
                            nonce + aes_ct_of(self.key_view(), nonce, encode_utf8(data@)),
                        ) && b64_decoded_of(c@) == Some(
                            nonce + aes_ct_of(self.key_view(), nonce, encode_utf8(data@)),
                        )
                },
                Err(_) => true,
            },
    {
        let key = match &self.encryption_key {
            Some(k) => k,
            None => {
                return Err("Database not unlocked".to_owned());
            },
        };
        let nonce = generate_nonce();
        let ct = match aes_encrypt(key, &nonce, data.as_bytes()) {
            Ok(c) => c,
            Err(e) => {
                return Err(e);
            },
        };
        let mut combined: Vec<u8> = Vec::new();
        combined.extend_from_slice(nonce.as_slice());
        combined.extend_from_slice(ct.as_slice());
        let encoded = b64_encode(&combined);
        proof {
            vstd::utf8::encode_utf8_valid_utf8(data@);
            vstd::utf8::encode_utf8_decode_utf8(data@);
            assert(combined@ == nonce@ + ct@);
            assert(combined@.len() >= 12);
            assert(combined@.subrange(0, 12) =~= nonce@);
            assert(combined@.subrange(12, combined@.len() as int) =~= ct@);
            lemma_encode_utf8_at_least_one_byte_per_char(data@);
            assert(encoded@.len() > data@.len());
        }
        Ok(encoded)
    }

    /// Decrypts a value `encrypt` produced: exactly the opening of the
    /// text under the vault key succeeds, and inputs shorter than the
    /// nonce are rejected outright. Fails with the not-unlocked error
    /// whenever the key is absent.
    pub fn decrypt(&self, encrypted: &str) -> (r: Result<String, String>)
        requires
            self.wf(),
        ensures
            !self.is_unlocked_spec() ==> (r matches Err(e) && e@ == "Database not unlocked"@),
            self.is_unlocked_spec() ==> (r is Ok <==> opened_of(self.key_view(), encrypted@)
                is Some),
            match r {
                Ok(p) => self.is_unlocked_spec() && opened_of(self.key_view(), encrypted@) == Some(
                    p@,
                ),
                Err(_) => true,
            },
            (self.is_unlocked_spec() && (b64_decoded_of(encrypted@) matches Some(c) && c.len()
                < 12)) ==> (r matches Err(e) && e@ == "Invalid encrypted data"@),
            (self.is_unlocked_spec() && b64_decoded_of(encrypted@) is None) ==> (r matches Err(e)
                && "Failed to decode base64: "@.is_prefix_of(e@)),
    {
        let key = match &self.encryption_key {
            Some(k) => k,
            None => {
                return Err("Database not unlocked".to_owned());
            },
        };
        let mut combined = match b64_decode(encrypted) {
            Ok(c) => c,
            Err(e) => {
                let msg = prefixed("Failed to decode base64: ", e.as_str());
                proof {
                    assert(msg@.subrange(0, "Failed to decode base64: "@.len() as int)
                        =~= "Failed to decode base64: "@);
                }
                return Err(msg);
            },
        };
        if combined.len() < 12 {
            return Err("Invalid encrypted data".to_owned());
        }
        let ghost combined0 = combined@;
        let ct = combined.split_off(12);
        let nonce = combined;
        proof {
            assert(nonce@ =~= combined0.subrange(0, 12));
            assert(ct@ =~= combined0.subrange(12, combined0.len() as int));
        }
        let pt = match aes_decrypt(key, &nonce, ct.as_slice()) {
            Ok(p) => p,
            Err(e) => {
                return Err(e);
            },
        };
        match crate::crypto::utf8_decode(pt) {
            Ok(s) => Ok(s),
            Err(e) => Err(prefixed("Invalid UTF-8: ", e.as_str())),
        }
    }

    /// Stores a credential under `id`, overwriting any record already
    /// there: the password and passphrase are encrypted under the vault
    /// key, the other fields pass through unchanged, and both timestamps
    /// are set to the present call. Encrypting while locked fails with
    /// the not-unlocked error; a record without secrets needs no key.
    pub fn store_credential(
        &mut self,
        id: &str,
        name: &str,
        username: Option<&str>,
        password: Option<&str>,
        ssh_key_path: Option<&str>,
        passphrase: Option<&str>,
    ) -> (r: Result<(), String>)
        requires
            old(self).wf(),
        ensures
            final(self).wf(),
            final(self).config_map() == old(self).config_map(),
            final(self).is_unlocked_spec() == old(self).is_unlocked_spec(),
            old(self).is_unlocked_spec() ==> final(self).key_view() == old(self).key_view(),
            match r {
                Ok(_) => {
                    let row = final(self).credentials_map()[id@];
                    &&& final(self).credentials_map().contains_key(id@)
                    &&& final(self).credentials_map() == old(self).credentials_map().insert(
                        id@,
                        row,
                    )
                    &&& row.name == name@
                    &&& row.username == opt_ref_view(username)
                    &&& row.ssh_key_path == opt_ref_view(ssh_key_path)
                    &&& match password {
                        Some(p) => row.password_encrypted matches Some(c) && old(
                            self,
                        ).is_unlocked_spec() && opened_of(old(self).key_view(), c) == Some(p@),
                        None => row.password_encrypted is None,
                    }
                    &&& match passphrase {
                        Some(p) => row.passphrase_encrypted matches Some(c) && old(
                            self,
                        ).is_unlocked_spec() && opened_of(old(self).key_view(), c) == Some(p@),
                        None => row.passphrase_encrypted is None,
                    }
                    &&& row.created_at == row.updated_at
                    &&& row.created_at >= 0
                },
                Err(e) => *final(self) == *old(self) && (!old(self).is_unlocked_spec() && (password
                    is Some || passphrase is Some) ==> e@ == "Database not unlocked"@),
            },
            (password is None && passphrase is None) ==> r is Ok,
            (old(self).is_unlocked_spec() && (password matches Some(p) ==> encode_utf8(p@).len()
                <= 0xF_FFFF_FFE0) && (passphrase matches Some(p) ==> encode_utf8(p@).len()
                <= 0xF_FFFF_FFE0)) ==> r is Ok,
    {
        let now = now_unix_secs();
        let password_encrypted = match password {
            Some(p) => match self.encrypt(p) {
                Ok(c) => Some(c),
                Err(e) => {
                    return Err(e);
                },
            },
            None => None,
        };
        let passphrase_encrypted = match passphrase {
            Some(p) => match self.encrypt(p) {
                Ok(c) => Some(c),
                Err(e) => {
                    return Err(e);
                },
            },
            None => None,
        };
        let row = CredentialRow {
            name: name.to_owned(),
            username: opt_to_owned(username),
            password_encrypted,
            ssh_key_path: opt_to_owned(ssh_key_path),
            passphrase_encrypted,
            created_at: now,
            updated_at: now,
        };
        proof {
            lemma_map_values_insert(self.credentials@, |v: CredentialRow| v@, id@, row);
        }
        self.credentials.insert(id.to_owned(), row);
        Ok(())
    }

    /// The stored credential under `id`, its secret fields still
    /// encrypted; the not-found error when no record is stored there.
    pub fn get_credential(&self, id: &str) -> (r: Result<StoredCredential, String>)
        requires
            self.wf(),
        ensures
            match r {
                Ok(c) => {
                    let row = self.credentials_map()[id@];
                    &&& self.credentials_map().contains_key(id@)
                    &&& c.name@ == row.name
                    &&& opt_str_view(c.username) == row.username
                    &&& opt_str_view(c.password_encrypted) == row.password_encrypted
                    &&& opt_str_view(c.ssh_key_path) == row.ssh_key_path
                    &&& opt_str_view(c.passphrase_encrypted) == row.passphrase_encrypted
                },
                Err(e) => !self.credentials_map().contains_key(id@) && e@
                    == "Credential not found"@,
            },
    {
        let key = id.to_owned();
        match self.credentials.get(&key) {
            Some(row) => Ok(
                StoredCredential {
                    name: row.name.clone(),
                    username: clone_opt(&row.username),
                    password_encrypted: clone_opt(&row.password_encrypted),
                    ssh_key_path: clone_opt(&row.ssh_key_path),
                    passphrase_encrypted: clone_opt(&row.passphrase_encrypted),
                },
            ),
            None => Err("Credential not found".to_owned()),
        }
    }

    /// Decrypts an optional encrypted field read from a stored
    /// credential; an absent field stays absent.
    pub fn decrypt_password(&self, encrypted: Option<String>) -> (r: Result<
        Option<String>,
        String,
    >)
        requires
            self.wf(),
        ensures
            match encrypted {
                None => r matches Ok(o) && o is None,
                Some(c) => {
                    &&& match r {
                        Ok(o) => o matches Some(p) && self.is_unlocked_spec() && opened_of(
                            self.key_view(),
                            c@,
                        ) == Some(p@),
                        Err(e) => !self.is_unlocked_spec() ==> e@ == "Database not unlocked"@,
                    }
                    &&& self.is_unlocked_spec() ==> (r is Ok <==> opened_of(self.key_view(), c@)
                        is Some)
                    &&& !self.is_unlocked_spec() ==> r is Err
                },
            },
    {
        match encrypted {
            Some(c) => match self.decrypt(c.as_str()) {
                Ok(p) => Ok(Some(p)),
                Err(e) => Err(e),
            },
            None => Ok(None),
        }
    }

    /// The credential under `id` with its secret fields decrypted: the
    /// unencrypted fields pass through untouched.
    pub fn get_credential_decrypted(&self, id: &str) -> (r: Result<DecryptedCredential, String>)
        requires
            self.wf(),
        ensures
            match r {
                Ok(d) => {
                    let row = self.credentials_map()[id@];
                    &&& self.credentials_map().contains_key(id@)
                    &&& d.name@ == row.name
                    &&& opt_str_view(d.username) == row.username
                    &&& opt_str_view(d.ssh_key_path) == row.ssh_key_path
                    &&& match row.password_encrypted {
                        Some(c) => d.password matches Some(p) && self.is_unlocked_spec()
                            && opened_of(self.key_view(), c) == Some(p@),
                        None => d.password is None,
                    }
                    &&& match row.passphrase_encrypted {
                        Some(c) => d.passphrase matches Some(p) && self.is_unlocked_spec()
                            && opened_of(self.key_view(), c) == Some(p@),
                        None => d.passphrase is None,
                    }
                },
                Err(e) => !self.credentials_map().contains_key(id@) ==> e@
                    == "Credential not found"@,
            },
            ({
                let row = self.credentials_map()[id@];
                (self.credentials_map().contains_key(id@) && (row.password_encrypted matches Some(
                    c,
                ) ==> self.is_unlocked_spec() && opened_of(self.key_view(), c) is Some) && (
                row.passphrase_encrypted matches Some(c) ==> self.is_unlocked_spec() && opened_of(
                    self.key_view(),
                    c,
                ) is Some)) ==> r is Ok
            }),
            ({
                let row = self.credentials_map()[id@];
                (self.credentials_map().contains_key(id@) && !self.is_unlocked_spec() && (
                row.password_encrypted is Some || row.passphrase_encrypted is Some)) ==> (
                r matches Err(e) && e@ == "Database not unlocked"@)
            }),
    {
        let stored = match self.get_credential(id) {
            Ok(c) => c,
            Err(e) => {
                return Err(e);
            },
        };
        let password = match self.decrypt_password(stored.password_encrypted) {
            Ok(p) => p,
            Err(e) => {
                return Err(e);
            },
        };
        let passphrase = match self.decrypt_password(stored.passphrase_encrypted) {
            Ok(p) => p,
            Err(e) => {
                return Err(e);
            },
        };
        Ok(
            DecryptedCredential {
                name: stored.name,
                username: stored.username,
                password,
                ssh_key_path: stored.ssh_key_path,
                passphrase,
            },
        )
    }

    /// Deletes the credential under `id`; deleting an absent record
    /// succeeds and changes nothing.
    pub fn delete_credential(&mut self, id: &str) -> (r: Result<(), String>)
        requires
            old(self).wf(),
        ensures
            final(self).wf(),
            r is Ok,
            final(self).credentials_map() == old(self).credentials_map().remove(id@),
            final(self).config_map() == old(self).config_map(),
            final(self).is_unlocked_spec() == old(self).is_unlocked_spec(),
            old(self).is_unlocked_spec() ==> final(self).key_view() == old(self).key_view(),
    {
        proof {
            lemma_map_values_remove(self.credentials@, |v: CredentialRow| v@, id@);
        }
        let key = id.to_owned();
        let _ = self.credentials.remove(&key);
        Ok(())
    }

    /// Whether the vault is unlocked.
    pub fn is_unlocked(&self) -> (r: bool)
        ensures
            r == self.is_unlocked_spec(),
    {
        self.encryption_key.is_some()
    }

    /// The stored config value under `key`, if any; lets the caller
    /// persist what the vault stores.
    pub fn config_value(&self, key: &str) -> (r: Option<String>)
        requires
            self.wf(),
        ensures
            match r {
                Some(v) => self.config_map().contains_key(key@) && v@ == self.config_map()[key@],
                None => !self.config_map().contains_key(key@),
            },
    {
        let key_name = key.to_owned();
        match self.config.get(&key_name) {
            Some(v) => Some(v.clone()),
            None => None,
        }
    }

    /// Loads a persisted config entry into a fresh vault.
    pub fn load_config_value(&mut self, key: &str, value: &str)
        requires
            old(self).wf(),
        ensures
            final(self).wf(),
            final(self).config_map() == old(self).config_map().insert(key@, value@),
            final(self).credentials_map() == old(self).credentials_map(),
            final(self).is_unlocked_spec() == old(self).is_unlocked_spec(),
            old(self).is_unlocked_spec() ==> final(self).key_view() == old(self).key_view(),
    {
        let v = value.to_owned();
        proof {
            lemma_map_values_insert(self.config@, |s: String| s@, key@, v);
        }
        self.config.insert(key.to_owned(), v);
    }

    /// Loads a persisted credential row into a fresh vault.
    pub fn load_credential_row(&mut self, id: &str, row: CredentialRow)
        requires
            old(self).wf(),
        ensures
            final(self).wf(),
            final(self).credentials_map() == old(self).credentials_map().insert(id@, row@),
            final(self).config_map() == old(self).config_map(),
            final(self).is_unlocked_spec() == old(self).is_unlocked_spec(),
            old(self).is_unlocked_spec() ==> final(self).key_view() == old(self).key_view(),
    {
        proof {
            lemma_map_values_insert(self.credentials@, |v: CredentialRow| v@, id@, row);
        }
        self.credentials.insert(id.to_owned(), row);
    }
}

/// A fresh, locked vault; the caller owns it and rehydrates persisted
/// state through the load methods.
pub fn init_database() -> (r: SecureDatabase)
    ensures
        r.wf(),
        r.config_map() == Map::<Seq<char>, Seq<char>>::empty(),
        r.credentials_map() == Map::<Seq<char>, CredentialRowView>::empty(),
        !r.is_unlocked_spec(),
{
    SecureDatabase::init()
}

} // verus!
