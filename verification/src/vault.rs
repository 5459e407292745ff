//! From a synced vault to the SSH keys that are kept in the secret store: which items
//! count, with which key each is decrypted, what is stored of it, and which stored
//! keys have gone from the vault.
use crate::auth::opt_bytes;
use crate::asymmetric::{rsa_decrypt_spec, rsa_pkcs8_der_accepted, BWRsaPrivateKey};
use crate::enc_string::{spec_parse, CryptoError};
use crate::models::{Cipher, Organization, Profile};
use crate::primitives::{string_from_utf8, utf8_lossy};
use crate::symmetric::{symmetric_decrypt_spec, Aes256CbcHmacKey};
use crate::text::str_eq;
use crate::utils::{decrypt_field, decrypt_field_as_string, decrypt_field_spec};
use vstd::prelude::*;
use vstd::utf8::*;

verus! {

/// The application id under which every item of this agent is stored.
pub const APP_ID: &'static str = "bw-ssh-agent";

/// The stored refresh token.
pub const REFRESH_TOKEN_ENTRY: &'static str = "refresh-token";

/// The stored encryption half of the user key.
pub const USER_KEY_ENC_ENTRY: &'static str = "user-key-enc";

/// The stored MAC half of the user key.
pub const USER_KEY_MAC_ENTRY: &'static str = "user-key-mac";

/// The stored identity server URL.
pub const IDENTITY_URL_ENTRY: &'static str = "identity-url";

/// The stored API server URL.
pub const API_URL_ENTRY: &'static str = "api-url";

/// Why a key could not be obtained from the vault or from the secret store.
#[derive(Debug, Clone, Copy, PartialEq, Eq, Structural)]
pub enum VaultError {
    /// Parsing or decrypting an encrypted field failed.
    Decrypt(CryptoError),
    /// Decrypted key material is shorter than the 64 bytes of a key pair.
    KeyMaterialTooShort,
    /// The item names an organisation that the profile does not hold.
    OrganizationNotFound,
    /// A stored key half is not 32 bytes long.
    InvalidStoredKey,
    /// A stored text is not valid UTF-8.
    InvalidUtf8,
}

/// The two halves of a key pair.
pub open spec fn key_pair(k: &Aes256CbcHmacKey) -> (Seq<u8>, Seq<u8>) {
    (k.enc_key@, k.mac_key@)
}

/// Decrypted key material: the first 32 bytes encrypt, the next 32 authenticate.
pub open spec fn key_material(k: Seq<u8>) -> Result<(Seq<u8>, Seq<u8>), VaultError> {
    if k.len() < 64 {
        Err(VaultError::KeyMaterialTooShort)
    } else {
        Ok((k.subrange(0, 32), k.subrange(32, 64)))
    }
}

/// A key result as plain sequences.
pub open spec fn key_result(r: Result<Aes256CbcHmacKey, VaultError>) -> Result<
    (Seq<u8>, Seq<u8>),
    VaultError,
> {
    match r {
        Ok(k) => Ok(key_pair(&k)),
        Err(e) => Err(e),
    }
}

/// An optional key result as plain sequences.
pub open spec fn opt_key_result(r: Result<Option<Aes256CbcHmacKey>, VaultError>) -> Result<
    Option<(Seq<u8>, Seq<u8>)>,
    VaultError,
> {
    match r {
        Ok(Some(k)) => Ok(Some(key_pair(&k))),
        Ok(None) => Ok(None),
        Err(e) => Err(e),
    }
}

/// The key pair made of the first 64 bytes of `v`.
pub fn key_from_bytes(v: &[u8]) -> (r: Aes256CbcHmacKey)
    requires
        v@.len() >= 64,
    ensures
        r.enc_key@ == v@.subrange(0, 32),
        r.mac_key@ == v@.subrange(32, 64),
{
    let mut enc = [0u8; 32];
    let mut mac = [0u8; 32];
    let mut i: usize = 0;
    while i < 32
        invariant
            v@.len() >= 64,
            i <= 32,
            forall|k: int| 0 <= k < i ==> enc@[k] == v@[k],
            forall|k: int| 0 <= k < i ==> mac@[k] == v@[32 + k],
        decreases 32 - i,
    {
        enc[i] = v[i];
        mac[i] = v[32 + i];
        i = i + 1;
    }
    proof {
        assert(enc@ =~= v@.subrange(0, 32));
        assert(mac@ =~= v@.subrange(32, 64));
    }
    Aes256CbcHmacKey::new(enc, mac)
}

/// What decrypting a key that was encrypted with the user key gives.
pub open spec fn user_field_key_spec(field: Seq<char>, user_key: &Aes256CbcHmacKey) -> Result<
    (Seq<u8>, Seq<u8>),
    VaultError,
> {
    match decrypt_field_spec(field, user_key) {
        Ok(v) => key_material(v),
        Err(e) => Err(VaultError::Decrypt(e)),
    }
}

/// Decrypts a key pair that was encrypted with the user key.
pub fn decrypt_key_from_user_encrypted_field(field: String, user_key: &Aes256CbcHmacKey) -> (r:
    Result<Aes256CbcHmacKey, VaultError>)
    ensures
        key_result(r) == user_field_key_spec(field@, user_key),
{
    let ghost text = field@;
    match decrypt_field(field, user_key) {
        Ok(v) => {
            assert(decrypt_field_spec(text, user_key) == Ok::<Seq<u8>, CryptoError>(v@));
            if v.len() < 64 {
                return Err(VaultError::KeyMaterialTooShort);
            }
            Ok(key_from_bytes(v.as_slice()))
        },
        Err(e) => Err(VaultError::Decrypt(e)),
    }
}

/// `i` is the first organisation with the id `id`.
pub open spec fn is_first_org(orgs: Seq<Organization>, id: Seq<char>, i: int) -> bool {
    &&& 0 <= i < orgs.len()
    &&& orgs[i].id@ == id
    &&& forall|j: int| 0 <= j < i ==> orgs[j].id@ != id
}

/// The position of the first organisation with the id `id`, if any.
pub open spec fn first_org_index(orgs: Seq<Organization>, id: Seq<char>) -> Option<int> {
    if exists|i: int| is_first_org(orgs, id, i) {
        Some(choose|i: int| is_first_org(orgs, id, i))
    } else {
        None
    }
}

/// An optional position as an integer.
pub open spec fn opt_index(r: Option<usize>) -> Option<int> {
    match r {
        Some(i) => Some(i as int),
        None => None,
    }
}

/// Finds the first organisation with the id `id`.
pub fn find_organization(orgs: &Vec<Organization>, id: &String) -> (r: Option<usize>)
    ensures
        opt_index(r) == first_org_index(orgs@, id@),
        r is None <==> forall|j: int| 0 <= j < orgs@.len() ==> orgs@[j].id@ != id@,
{
    let mut i: usize = 0;
    while i < orgs.len()
        invariant
            i <= orgs@.len(),
            forall|j: int| 0 <= j < i ==> orgs@[j].id@ != id@,
        decreases orgs@.len() - i,
    {
        if orgs[i].id == *id {
            proof {
                assert(is_first_org(orgs@, id@, i as int));
                let c = choose|c: int| is_first_org(orgs@, id@, c);
                assert(c == i) by {
                    if c < i {
                        assert(orgs@[c].id@ != id@);
                    } else if c > i {
                        assert(orgs@[i as int].id@ != id@);
                    }
                }
            }
            return Some(i);
        }
        i = i + 1;
    }
    proof {
        assert forall|c: int| !is_first_org(orgs@, id@, c) by {
            if 0 <= c < orgs@.len() {
                assert(orgs@[c].id@ != id@);
            }
        }
    }
    None
}

/// What the organisation key gives: the profile's RSA key is decrypted with the user
/// key and read as PKCS#8 DER; the organisation key is decrypted with it and split
/// into a key pair.
pub open spec fn org_key_spec(
    private_key_field: Seq<char>,
    org_key_field: Seq<char>,
    user_key: &Aes256CbcHmacKey,
) -> Result<(Seq<u8>, Seq<u8>), VaultError> {
    match decrypt_field_spec(private_key_field, user_key) {
        Err(e) => Err(VaultError::Decrypt(e)),
        Ok(der) => if !rsa_pkcs8_der_accepted(der) {
            Err(VaultError::Decrypt(CryptoError::InvalidRsaKey))
        } else {
            match spec_parse(org_key_field) {
                Err(e) => Err(VaultError::Decrypt(e)),
                Ok(payload) => match rsa_decrypt_spec(der, payload) {
                    Err(e) => Err(VaultError::Decrypt(e)),
                    Ok(k) => key_material(k),
                },
            }
        },
    }
}

/// The key that decrypts an item: for an organisation's item, the organisation key;
/// otherwise the item's own key, if it has one; otherwise none (the user key applies).
pub open spec fn cipher_key_spec(profile: &Profile, cipher: &Cipher, user_key: &Aes256CbcHmacKey) -> Result<
    Option<(Seq<u8>, Seq<u8>)>,
    VaultError,
> {
    match cipher.organization_id {
        Some(org_id) => match first_org_index(profile.organizations@, org_id@) {
            None => Err(VaultError::OrganizationNotFound),
            Some(i) => match org_key_spec(
                profile.private_key@,
                profile.organizations@[i].key@,
                user_key,
            ) {
                Ok(pair) => Ok(Some(pair)),
                Err(e) => Err(e),
            },
        },
        None => match cipher.key {
            Some(key) => match user_field_key_spec(key@, user_key) {
                Ok(pair) => Ok(Some(pair)),
                Err(e) => Err(e),
            },
            None => Ok(None),
        },
    }
}

/// Finds the key that decrypts `cipher`; `None` means the user key itself.
pub fn get_cipher_decryption_key(profile: &Profile, cipher: &Cipher, user_key: &Aes256CbcHmacKey) -> (r:
    Result<Option<Aes256CbcHmacKey>, VaultError>)
    ensures
        opt_key_result(r) == cipher_key_spec(profile, cipher, user_key),
{
    match &cipher.organization_id {
        Some(organization_id) => {
            match find_organization(&profile.organizations, organization_id) {
                Some(i) => {
                    let organization = &profile.organizations[i];
                    let private_key = profile.private_key.clone();
                    let private_key_decrypted = match decrypt_field(private_key, user_key) {
                        Ok(v) => v,
                        Err(e) => {
                            return Err(VaultError::Decrypt(e));
                        },
                    };
                    let bw_rsa_key = match BWRsaPrivateKey::new(private_key_decrypted) {
                        Ok(k) => k,
                        Err(e) => {
                            return Err(VaultError::Decrypt(e));
                        },
                    };
                    let organization_key = match decrypt_field(organization.key.clone(), &bw_rsa_key) {
                        Ok(v) => v,
                        Err(e) => {
                            return Err(VaultError::Decrypt(e));
                        },
                    };
                    if organization_key.len() < 64 {
                        return Err(VaultError::KeyMaterialTooShort);
                    }
                    Ok(Some(key_from_bytes(organization_key.as_slice())))
                },
                None => Err(VaultError::OrganizationNotFound),
            }
        },
        None => match &cipher.key {
            Some(key) => match decrypt_key_from_user_encrypted_field(key.clone(), user_key) {
                Ok(key) => Ok(Some(key)),
                Err(e) => Err(e),
            },
            None => Ok(None),
        },
    }
}

/// Whether a vault item is an SSH key that is still in the vault (not deleted).
pub fn is_ssh_key_cipher(cipher: &Cipher) -> (r: bool)
    ensures
        r == (cipher.deleted_date is None && cipher.ssh_key is Some),
{
    cipher.deleted_date.is_none() && cipher.ssh_key.is_some()
}

/// The two stored halves of an SSH key.
#[derive(Debug, Clone, Copy, PartialEq, Eq, Structural)]
pub enum SshKeyKind {
    Public,
    Private,
}

/// The value of the `type` attribute of a stored key half.
pub open spec fn kind_text(kind: SshKeyKind) -> Seq<char> {
    match kind {
        SshKeyKind::Public => "pub-key"@,
        SshKeyKind::Private => "pri-key"@,
    }
}

impl SshKeyKind {
    /// The value of the `type` attribute: `pub-key` or `pri-key`.
    pub fn type_value(&self) -> (r: String)
        ensures
            r@ == kind_text(*self),
    {
        match self {
            SshKeyKind::Public => "pub-key".to_owned(),
            SshKeyKind::Private => "pri-key".to_owned(),
        }
    }

    /// The label of the stored half for item `cipher_id`: the type, a colon, the id.
    pub fn label(&self, cipher_id: &str) -> (r: String)
        ensures
            r@ == kind_text(*self).push(':') + cipher_id@,
    {
        let mut label = self.type_value();
        label.append(":");
        label.append(cipher_id);
        proof {
            reveal_strlit(":");
            assert(":"@ =~= seq![':']);
        }
        label
    }
}

/// What a vault SSH key yields for the secret store: its id and labels, its name and
/// fingerprint, and those of its halves that could be decrypted.
#[derive(Debug)]
pub struct SshKeyEntry {
    pub cipher_id: String,
    pub public_key_label: String,
    pub private_key_label: String,
    pub name: String,
    pub fingerprint: String,
    pub public_key: Option<String>,
    pub private_key: Option<String>,
}

/// Why an SSH key was passed over.
#[derive(Debug, Clone, Copy, PartialEq, Eq, Structural)]
pub enum SshKeyEntryError {
    /// No key to decrypt the item could be obtained.
    DecryptionKey(VaultError),
    /// The item's name could not be decrypted.
    Name(CryptoError),
    /// The key's fingerprint could not be decrypted.
    Fingerprint(CryptoError),
}

/// What decrypting the encrypted-string text `field` with the key pair gives, read
/// as (lossy) UTF-8.
pub open spec fn text_with_pair(field: Seq<char>, pair: (Seq<u8>, Seq<u8>)) -> Result<
    Seq<char>,
    CryptoError,
> {
    match spec_parse(field) {
        Err(e) => Err(e),
        Ok(payload) => match symmetric_decrypt_spec(pair.0, pair.1, payload) {
            Ok(bytes) => Ok(utf8_lossy(bytes)),
            Err(e) => Err(e),
        },
    }
}

/// The key pair an item's fields are decrypted with.
pub open spec fn entry_key_spec(profile: &Profile, cipher: &Cipher, user_key: &Aes256CbcHmacKey) -> Result<
    (Seq<u8>, Seq<u8>),
    VaultError,
> {
    match cipher_key_spec(profile, cipher, user_key) {
        Ok(Some(pair)) => Ok(pair),
        Ok(None) => Ok(key_pair(user_key)),
        Err(e) => Err(e),
    }
}

/// An optional text.
pub open spec fn opt_text(s: Option<String>) -> Option<Seq<char>> {
    match s {
        Some(t) => Some(t@),
        None => None,
    }
}

/// A text result kept only when it succeeded.
pub open spec fn ok_text(r: Result<Seq<char>, CryptoError>) -> Option<Seq<char>> {
    match r {
        Ok(t) => Some(t),
        Err(_) => None,
    }
}

/// What the entry of an SSH-key item is: a failure to obtain its key, or to decrypt
/// its name, then its fingerprint, passes the item over; otherwise the entry holds
/// the decrypted texts, and each key half that decrypts.
pub open spec fn ssh_key_entry_spec(
    profile: &Profile,
    cipher: &Cipher,
    user_key: &Aes256CbcHmacKey,
    r: Result<SshKeyEntry, SshKeyEntryError>,
) -> bool {
    let ssh_key = cipher.ssh_key->0;
    match entry_key_spec(profile, cipher, user_key) {
        Err(e) => r == Err::<SshKeyEntry, SshKeyEntryError>(SshKeyEntryError::DecryptionKey(e)),
        Ok(pair) => match text_with_pair(cipher.name@, pair) {
            Err(e) => r == Err::<SshKeyEntry, SshKeyEntryError>(SshKeyEntryError::Name(e)),
            Ok(name) => match text_with_pair(ssh_key.key_fingerprint@, pair) {
                Err(e) => r == Err::<SshKeyEntry, SshKeyEntryError>(
                    SshKeyEntryError::Fingerprint(e),
                ),
                Ok(fingerprint) => {
                    &&& r is Ok
                    &&& r->Ok_0.cipher_id@ == cipher.id@
                    &&& r->Ok_0.public_key_label@ == kind_text(SshKeyKind::Public).push(':')
                        + cipher.id@
                    &&& r->Ok_0.private_key_label@ == kind_text(SshKeyKind::Private).push(':')
                        + cipher.id@
                    &&& r->Ok_0.name@ == name
                    &&& r->Ok_0.fingerprint@ == fingerprint
                    &&& opt_text(r->Ok_0.public_key) == ok_text(
                        text_with_pair(ssh_key.public_key@, pair),
                    )
                    &&& opt_text(r->Ok_0.private_key) == ok_text(
                        text_with_pair(ssh_key.private_key@, pair),
                    )
                },
            },
        },
    }
}

/// An optional decryption as an optional text.
fn ok_string(r: Result<String, CryptoError>) -> (o: Option<String>)
    ensures
        opt_text(o) == ok_text(crate::utils::text_result(r)),
{
    match r {
        Ok(s) => Some(s),
        Err(_) => None,
    }
}

/// Attribute pairs as texts.
pub open spec fn pair_views(v: Seq<(String, String)>) -> Seq<(Seq<char>, Seq<char>)> {
    v.map_values(|p: (String, String)| (p.0@, p.1@))
}

/// The attributes a stored key half carries: the item id, the fingerprint, the name
/// as comment, and the half's type.
pub open spec fn entry_attributes_spec(entry: &SshKeyEntry, kind: SshKeyKind) -> Seq<
    (Seq<char>, Seq<char>),
> {
    seq![
        ("cipher-id"@, entry.cipher_id@),
        ("fingerprint"@, entry.fingerprint@),
        ("comment"@, entry.name@),
        ("type"@, kind_text(kind)),
    ]
}

impl SshKeyEntry {
    /// The attributes the `kind` half of this key is stored with.
    pub fn attributes(&self, kind: SshKeyKind) -> (r: Vec<(String, String)>)
        ensures
            pair_views(r@) == entry_attributes_spec(self, kind),
    {
        let mut v: Vec<(String, String)> = Vec::new();
        v.push(("cipher-id".to_owned(), self.cipher_id.clone()));
        v.push(("fingerprint".to_owned(), self.fingerprint.clone()));
        v.push(("comment".to_owned(), self.name.clone()));
        v.push(("type".to_owned(), kind.type_value()));
        proof {
            assert(pair_views(v@) =~= entry_attributes_spec(self, kind));
        }
        v
    }
}

/// The search for every stored half of the `kind` type.
pub fn kind_filter(kind: SshKeyKind) -> (r: Vec<(String, String)>)
    ensures
        pair_views(r@) == seq![("type"@, kind_text(kind))],
{
    let mut v: Vec<(String, String)> = Vec::new();
    v.push(("type".to_owned(), kind.type_value()));
    proof {
        assert(pair_views(v@) =~= seq![("type"@, kind_text(kind))]);
    }
    v
}

/// The search for the private half whose fingerprint is `fingerprint`.
pub fn private_key_filter(fingerprint: &str) -> (r: Vec<(String, String)>)
    ensures
        pair_views(r@) == seq![("type"@, kind_text(SshKeyKind::Private)), ("fingerprint"@, fingerprint@)],
{
    let mut v: Vec<(String, String)> = Vec::new();
    v.push(("type".to_owned(), SshKeyKind::Private.type_value()));
    v.push(("fingerprint".to_owned(), fingerprint.to_owned()));
    proof {
        assert(pair_views(v@) =~= seq![
            ("type"@, kind_text(SshKeyKind::Private)),
            ("fingerprint"@, fingerprint@),
        ]);
    }
    v
}

/// The search for every stored half of the item `cipher_id`.
pub fn cipher_id_filter(cipher_id: &str) -> (r: Vec<(String, String)>)
    ensures
        pair_views(r@) == seq![("cipher-id"@, cipher_id@)],
{
    let mut v: Vec<(String, String)> = Vec::new();
    v.push(("cipher-id".to_owned(), cipher_id.to_owned()));
    proof {
        assert(pair_views(v@) =~= seq![("cipher-id"@, cipher_id@)]);
    }
    v
}

/// Decrypts what the secret store keeps of an SSH-key item.
pub fn prepare_ssh_key_entry(profile: &Profile, cipher: &Cipher, user_key: &Aes256CbcHmacKey) -> (r:
    Result<SshKeyEntry, SshKeyEntryError>)
    requires
        cipher.ssh_key is Some,
    ensures
        ssh_key_entry_spec(profile, cipher, user_key, r),
{
    let decryption_key_owned = match get_cipher_decryption_key(profile, cipher, user_key) {
        Ok(k) => k,
        Err(e) => {
            return Err(SshKeyEntryError::DecryptionKey(e));
        },
    };
    let decryption_key: &Aes256CbcHmacKey = match &decryption_key_owned {
        Some(k) => k,
        None => user_key,
    };
    let ssh_key = match &cipher.ssh_key {
        Some(s) => s,
        None => {
            proof {
                assert(false);
            }
            return Err(SshKeyEntryError::DecryptionKey(VaultError::OrganizationNotFound));
        },
    };
    let public_key_label = SshKeyKind::Public.label(cipher.id.as_str());
    let private_key_label = SshKeyKind::Private.label(cipher.id.as_str());
    let name = match decrypt_field_as_string(cipher.name.clone(), decryption_key) {
        Ok(n) => n,
        Err(e) => {
            return Err(SshKeyEntryError::Name(e));
        },
    };
    let fingerprint = match decrypt_field_as_string(ssh_key.key_fingerprint.clone(), decryption_key) {
        Ok(f) => f,
        Err(e) => {
            return Err(SshKeyEntryError::Fingerprint(e));
        },
    };
    let public_key = ok_string(decrypt_field_as_string(ssh_key.public_key.clone(), decryption_key));
    let private_key = ok_string(decrypt_field_as_string(ssh_key.private_key.clone(), decryption_key));
    Ok(
        SshKeyEntry {
            cipher_id: cipher.id.clone(),
            public_key_label,
            private_key_label,
            name,
            fingerprint,
            public_key,
            private_key,
        },
    )
}

/// The texts of a sequence of strings.
pub open spec fn string_views(v: Seq<String>) -> Seq<Seq<char>> {
    v.map_values(|s: String| s@)
}

/// The texts of `stored` that are not among `current`, in order.
pub open spec fn ids_not_in(stored: Seq<Seq<char>>, current: Seq<Seq<char>>) -> Seq<Seq<char>>
    decreases stored.len(),
{
    if stored.len() == 0 {
        Seq::<Seq<char>>::empty()
    } else {
        let init = ids_not_in(stored.drop_last(), current);
        if current.contains(stored.last()) {
            init
        } else {
            init.push(stored.last())
        }
    }
}

/// Whether `id` is among `ids`.
pub fn contains_id(ids: &Vec<String>, id: &String) -> (r: bool)
    ensures
        r == string_views(ids@).contains(id@),
{
    let mut i: usize = 0;
    while i < ids.len()
        invariant
            i <= ids@.len(),
            forall|j: int| 0 <= j < i ==> ids@[j]@ != id@,
        decreases ids@.len() - i,
    {
        if ids[i] == *id {
            proof {
                assert(string_views(ids@)[i as int] == id@);
            }
            return true;
        }
        i = i + 1;
    }
    proof {
        if string_views(ids@).contains(id@) {
            let k = choose|k: int| 0 <= k < string_views(ids@).len() && string_views(ids@)[k] == id@;
            assert(ids@[k]@ == id@);
        }
    }
    false
}

/// The ids of stored keys whose items are no longer in the vault: those of `stored`
/// that are not among `current`, in the order of `stored`.
pub fn stale_cipher_ids(stored: &Vec<String>, current: &Vec<String>) -> (r: Vec<String>)
    ensures
        string_views(r@) == ids_not_in(string_views(stored@), string_views(current@)),
{
    let mut result: Vec<String> = Vec::new();
    let mut i: usize = 0;
    while i < stored.len()
        invariant
            i <= stored@.len(),
            string_views(result@) == ids_not_in(
                string_views(stored@).take(i as int),
                string_views(current@),
            ),
        decreases stored@.len() - i,
    {
        let ghost before = string_views(result@);
        proof {
            assert(string_views(stored@).take(i + 1).drop_last() == string_views(stored@).take(
                i as int,
            ));
            assert(string_views(stored@).take(i + 1).last() == stored@[i as int]@);
        }
        if !contains_id(current, &stored[i]) {
            result.push(stored[i].clone());
            proof {
                assert(string_views(result@) == before.push(stored@[i as int]@));
            }
        }
        i = i + 1;
    }
    proof {
        assert(string_views(stored@).take(stored@.len() as int) == string_views(stored@));
    }
    result
}

/// The stale ids are exactly the stored ids that are not current: nothing current is
/// ever removed, and nothing stored and gone from the vault is kept.
pub proof fn lemma_stale_ids_exact(stored: Seq<Seq<char>>, current: Seq<Seq<char>>)
    ensures
        forall|x: Seq<char>|
            #[trigger] ids_not_in(stored, current).contains(x) <==> (stored.contains(x)
                && !current.contains(x)),
    decreases stored.len(),
{
    if stored.len() > 0 {
        lemma_stale_ids_exact(stored.drop_last(), current);
        let init = ids_not_in(stored.drop_last(), current);
        let res = ids_not_in(stored, current);
        let last = stored.last();
        assert(res == if current.contains(last) { init } else { init.push(last) });
        assert forall|x: Seq<char>|
            #[trigger] ids_not_in(stored, current).contains(x) <==> (stored.contains(x)
                && !current.contains(x)) by {
            if stored.contains(x) && !current.contains(x) {
                let k = choose|k: int| 0 <= k < stored.len() && stored[k] == x;
                if k < stored.len() - 1 {
                    assert(stored.drop_last()[k] == x);
                    assert(stored.drop_last().contains(x));
                    assert(init.contains(x));
                    let j = choose|j: int| 0 <= j < init.len() && init[j] == x;
                    if !current.contains(last) {
                        assert(res[j] == x);
                    }
                } else {
                    assert(x == last);
                    assert(res[init.len() as int] == x);
                }
                assert(res.contains(x));
            }
            if res.contains(x) {
                let k = choose|k: int| 0 <= k < res.len() && res[k] == x;
                if k < init.len() {
                    assert(init[k] == x);
                    assert(init.contains(x));
                    let j = choose|j: int| 0 <= j < stored.drop_last().len() && stored.drop_last()[j]
                        == x;
                    assert(stored[j] == x);
                } else {
                    assert(!current.contains(last));
                    assert(x == last);
                    assert(stored[stored.len() - 1] == x);
                }
            }
        }
    } else {
        assert forall|x: Seq<char>|
            #[trigger] ids_not_in(stored, current).contains(x) <==> (stored.contains(x)
                && !current.contains(x)) by {
            if stored.contains(x) {
                let k = choose|k: int| 0 <= k < stored.len() && stored[k] == x;
            }
        }
    }
}

/// Reads the stored user key: both halves present give a key, when each is 32 bytes;
/// a missing half means no key is stored.
pub fn user_key_from_stored(enc: Option<Vec<u8>>, mac: Option<Vec<u8>>) -> (r: Result<
    Option<Aes256CbcHmacKey>,
    VaultError,
>)
    ensures
        opt_key_result(r) == stored_user_key_spec(opt_bytes(enc), opt_bytes(mac)),
        match (enc, mac) {
            (Some(e), Some(m)) => if e@.len() != 32 || m@.len() != 32 {
                r == Err::<Option<Aes256CbcHmacKey>, VaultError>(VaultError::InvalidStoredKey)
            } else {
                opt_key_result(r) == Ok::<Option<(Seq<u8>, Seq<u8>)>, VaultError>(Some((e@, m@)))
            },
            _ => r matches Ok(None),
        },
{
    match (enc, mac) {
        (Some(e), Some(m)) => {
            if e.len() != 32 || m.len() != 32 {
                return Err(VaultError::InvalidStoredKey);
            }
            let mut enc_key = [0u8; 32];
            let mut mac_key = [0u8; 32];
            let mut i: usize = 0;
            while i < 32
                invariant
                    e@.len() == 32,
                    m@.len() == 32,
                    i <= 32,
                    forall|k: int| 0 <= k < i ==> enc_key@[k] == e@[k],
                    forall|k: int| 0 <= k < i ==> mac_key@[k] == m@[k],
                decreases 32 - i,
            {
                enc_key[i] = e[i];
                mac_key[i] = m[i];
                i = i + 1;
            }
            proof {
                assert(enc_key@ =~= e@);
                assert(mac_key@ =~= m@);
            }
            Ok(Some(Aes256CbcHmacKey::new(enc_key, mac_key)))
        },
        _ => Ok(None),
    }
}

/// Reads the stored refresh token: its bytes must be UTF-8.
pub fn refresh_token_from_stored(value: Option<Vec<u8>>) -> (r: Result<Option<String>, VaultError>)
    ensures
        token_result(r) == stored_refresh_token_spec(opt_bytes(value)),
        match value {
            Some(v) => if valid_utf8(v@) {
                r matches Ok(Some(s)) && s@ == decode_utf8(v@)
            } else {
                r == Err::<Option<String>, VaultError>(VaultError::InvalidUtf8)
            },
            None => r matches Ok(None),
        },
{
    match value {
        Some(v) => match string_from_utf8(v) {
            Ok(s) => Ok(Some(s)),
            Err(_) => Err(VaultError::InvalidUtf8),
        },
        None => Ok(None),
    }
}


/// The value of the first attribute named `name`, if any.
pub open spec fn attr_lookup(attrs: Seq<(Seq<char>, Seq<char>)>, name: Seq<char>) -> Option<Seq<char>>
    decreases attrs.len(),
{
    if attrs.len() == 0 {
        None
    } else if attrs[0].0 == name {
        Some(attrs[0].1)
    } else {
        attr_lookup(attrs.drop_first(), name)
    }
}

/// The value of the first attribute named `name`, if any.
pub fn find_attribute(attrs: &Vec<(String, String)>, name: &str) -> (r: Option<String>)
    ensures
        opt_text(r) == attr_lookup(pair_views(attrs@), name@),
{
    let mut i: usize = 0;
    proof {
        assert(pair_views(attrs@).subrange(0, attrs@.len() as int) == pair_views(attrs@));
    }
    while i < attrs.len()
        invariant
            i <= attrs@.len(),
            attr_lookup(pair_views(attrs@), name@) == attr_lookup(
                pair_views(attrs@).subrange(i as int, attrs@.len() as int),
                name@,
            ),
        decreases attrs@.len() - i,
    {
        proof {
            let v = pair_views(attrs@).subrange(i as int, attrs@.len() as int);
            assert(v.drop_first() == pair_views(attrs@).subrange(i + 1, attrs@.len() as int));
            assert(v[0] == (attrs@[i as int].0@, attrs@[i as int].1@));
        }
        if str_eq(attrs[i].0.as_str(), name) {
            return Some(attrs[i].1.clone());
        }
        i = i + 1;
    }
    proof {
        assert(pair_views(attrs@).subrange(attrs@.len() as int, attrs@.len() as int).len() == 0);
    }
    None
}

/// Whether a key half must be written to the store: only when nothing is stored
/// under its label yet (a stored key is never overwritten).
pub fn needs_storing(stored: &Option<Vec<u8>>) -> (r: bool)
    ensures
        r == (*stored is None),
{
    stored.is_none()
}

/// Optional attribute lists as texts.
pub open spec fn opt_attr_views(v: Seq<Option<Vec<(String, String)>>>) -> Seq<
    Option<Seq<(Seq<char>, Seq<char>)>>,
> {
    v.map_values(
        |o: Option<Vec<(String, String)>>|
            match o {
                Some(a) => Some(pair_views(a@)),
                None => None,
            },
    )
}

/// The item ids of the stored public halves, as the cleanup reads them from their
/// attributes, in order: each item's `cipher-id`, once. When an item has no
/// attributes at all, there are none: the cleanup is abandoned.
pub open spec fn stored_ids_spec(attrs: Seq<Option<Seq<(Seq<char>, Seq<char>)>>>) -> Option<
    Seq<Seq<char>>,
>
    decreases attrs.len(),
{
    if attrs.len() == 0 {
        Some(Seq::<Seq<char>>::empty())
    } else {
        match stored_ids_spec(attrs.drop_last()) {
            None => None,
            Some(ids) => match attrs.last() {
                None => None,
                Some(a) => match attr_lookup(a, "cipher-id"@) {
                    None => Some(ids),
                    Some(id) => if ids.contains(id) {
                        Some(ids)
                    } else {
                        Some(ids.push(id))
                    },
                },
            },
        }
    }
}

/// Once an item without attributes is met, the ids are abandoned for good.
proof fn lemma_stored_ids_abandoned(attrs: Seq<Option<Seq<(Seq<char>, Seq<char>)>>>, j: int, k: int)
    requires
        0 <= j <= k <= attrs.len(),
        stored_ids_spec(attrs.take(j)) is None,
    ensures
        stored_ids_spec(attrs.take(k)) is None,
    decreases k - j,
{
    if j < k {
        lemma_stored_ids_abandoned(attrs, j, k - 1);
        assert(attrs.take(k).drop_last() == attrs.take(k - 1));
    }
}

/// Reads the item ids from the attributes of the stored public halves.
pub fn stored_cipher_ids(items: &Vec<Option<Vec<(String, String)>>>) -> (r: Option<Vec<String>>)
    ensures
        match stored_ids_spec(opt_attr_views(items@)) {
            None => r is None,
            Some(ids) => r matches Some(v) && string_views(v@) == ids,
        },
{
    let ghost all = opt_attr_views(items@);
    let mut ids: Vec<String> = Vec::new();
    let mut i: usize = 0;
    proof {
        assert(all.take(0) == Seq::<Option<Seq<(Seq<char>, Seq<char>)>>>::empty());
        assert(string_views(ids@) == Seq::<Seq<char>>::empty());
    }
    while i < items.len()
        invariant
            i <= items@.len(),
            all == opt_attr_views(items@),
            stored_ids_spec(all.take(i as int)) == Some(string_views(ids@)),
        decreases items@.len() - i,
    {
        proof {
            assert(all.take(i + 1).drop_last() == all.take(i as int));
            assert(all.take(i + 1).last() == all[i as int]);
        }
        match &items[i] {
            None => {
                proof {
                    lemma_stored_ids_abandoned(all, i + 1, all.len() as int);
                    assert(all.take(all.len() as int) == all);
                }
                return None;
            },
            Some(attrs) => {
                assert(all[i as int] == Some(pair_views(attrs@)));
                match find_attribute(attrs, "cipher-id") {
                    None => {},
                    Some(id) => {
                        if !contains_id(&ids, &id) {
                            let ghost before = string_views(ids@);
                            ids.push(id);
                            proof {
                                assert(string_views(ids@) == before.push(id@));
                            }
                        }
                    },
                }
            },
        }
        i = i + 1;
    }
    proof {
        assert(all.take(items@.len() as int) == all);
    }
    Some(ids)
}


/// What reading the two stored halves of the user key gives: a key when both are
/// there and each is 32 bytes, an error when one is not, nothing when one is missing.
pub open spec fn stored_user_key_spec(enc: Option<Seq<u8>>, mac: Option<Seq<u8>>) -> Result<
    Option<(Seq<u8>, Seq<u8>)>,
    VaultError,
> {
    match (enc, mac) {
        (Some(e), Some(m)) => if e.len() != 32 || m.len() != 32 {
            Err(VaultError::InvalidStoredKey)
        } else {
            Ok(Some((e, m)))
        },
        _ => Ok(None),
    }
}

/// The two byte strings under which the user key is stored: its encryption half
/// and its MAC half.
pub fn user_key_halves(key: &Aes256CbcHmacKey) -> (r: (Vec<u8>, Vec<u8>))
    ensures
        r.0@ == key.enc_key@,
        r.1@ == key.mac_key@,
{
    (vstd::slice::slice_to_vec(key.enc_key.as_slice()), vstd::slice::slice_to_vec(key.mac_key.as_slice()))
}

/// A stored user key is read back as it was stored: the halves that
/// [`user_key_halves`] gives, read by [`user_key_from_stored`], are the same key.
pub proof fn lemma_user_key_round_trip(key: &Aes256CbcHmacKey)
    ensures
        stored_user_key_spec(Some(key.enc_key@), Some(key.mac_key@)) == Ok::<
            Option<(Seq<u8>, Seq<u8>)>,
            VaultError,
        >(Some(key_pair(key))),
{
}

/// A token result as plain sequences.
pub open spec fn token_result(r: Result<Option<String>, VaultError>) -> Result<Option<Seq<char>>, VaultError> {
    match r {
        Ok(Some(s)) => Ok(Some(s@)),
        Ok(None) => Ok(None),
        Err(e) => Err(e),
    }
}

/// What reading a stored refresh token gives: its text when the bytes are UTF-8.
pub open spec fn stored_refresh_token_spec(value: Option<Seq<u8>>) -> Result<
    Option<Seq<char>>,
    VaultError,
> {
    match value {
        Some(v) => if valid_utf8(v) {
            Ok(Some(decode_utf8(v)))
        } else {
            Err(VaultError::InvalidUtf8)
        },
        None => Ok(None),
    }
}

/// The bytes under which a refresh token is stored: its UTF-8 encoding.
pub fn refresh_token_bytes(token: &str) -> (r: Vec<u8>)
    ensures
        r@ == encode_utf8(token@),
{
    vstd::slice::slice_to_vec(token.as_bytes())
}

/// A stored refresh token is read back as it was stored: the bytes that
/// [`refresh_token_bytes`] gives, read by [`refresh_token_from_stored`], are the token.
pub proof fn lemma_refresh_token_round_trip(token: Seq<char>)
    ensures
        stored_refresh_token_spec(Some(encode_utf8(token))) == Ok::<Option<Seq<char>>, VaultError>(
            Some(token),
        ),
{
    encode_utf8_valid_utf8(token);
    encode_utf8_decode_utf8(token);
}

/// Whether the stored item at position `i` carries the item id `x`.
pub open spec fn carries_id(attrs: Seq<Option<Seq<(Seq<char>, Seq<char>)>>>, i: int, x: Seq<char>) -> bool {
    &&& 0 <= i < attrs.len()
    &&& attrs[i] is Some
    &&& attr_lookup(attrs[i]->0, "cipher-id"@) == Some(x)
}

/// The stored ids are exactly the ids that some stored item carries.
pub proof fn lemma_stored_ids_members(attrs: Seq<Option<Seq<(Seq<char>, Seq<char>)>>>, x: Seq<char>)
    requires
        stored_ids_spec(attrs) is Some,
    ensures
        stored_ids_spec(attrs)->0.contains(x) <==> exists|i: int| #[trigger] carries_id(attrs, i, x),
    decreases attrs.len(),
{
    if attrs.len() == 0 {
        assert(!stored_ids_spec(attrs)->0.contains(x));
    } else {
        let init = attrs.drop_last();
        lemma_stored_ids_members(init, x);
        let ids = stored_ids_spec(init)->0;
        let a = attrs.last()->0;
        let res = stored_ids_spec(attrs)->0;
        assert(attrs.last() is Some);
        if res.contains(x) {
            if ids.contains(x) {
                let i = choose|i: int| #[trigger] carries_id(init, i, x);
                assert(init[i] == attrs[i]);
                assert(carries_id(attrs, i, x));
            } else {
                assert(attr_lookup(a, "cipher-id"@) == Some(x)) by {
                    let k = choose|k: int| 0 <= k < res.len() && res[k] == x;
                    if k < ids.len() {
                        assert(ids[k] == x);
                    }
                }
                assert(carries_id(attrs, attrs.len() - 1, x));
            }
        }
        if exists|i: int| #[trigger] carries_id(attrs, i, x) {
            let i = choose|i: int| #[trigger] carries_id(attrs, i, x);
            if i < attrs.len() - 1 {
                assert(init[i] == attrs[i]);
                assert(carries_id(init, i, x));
                assert(ids.contains(x));
                let k = choose|k: int| 0 <= k < ids.len() && ids[k] == x;
                if !ids.contains(attr_lookup(a, "cipher-id"@)->0) && attr_lookup(a, "cipher-id"@) is Some {
                    assert(res[k] == x);
                }
                assert(res.contains(x));
            } else {
                if !ids.contains(x) {
                    assert(res[ids.len() as int] == x);
                }
                assert(res.contains(x));
            }
        }
    }
}

/// What the cleanup of a sync removes: the stored ids that are not among the
/// current ones; nothing when a stored item has no attributes.
pub open spec fn sync_removals_spec(
    attrs: Seq<Option<Seq<(Seq<char>, Seq<char>)>>>,
    current: Seq<Seq<char>>,
) -> Option<Seq<Seq<char>>> {
    match stored_ids_spec(attrs) {
        None => None,
        Some(ids) => Some(ids_not_in(ids, current)),
    }
}

/// The item ids whose stored keys a sync removes, from the attributes of the stored
/// public halves and the ids of the vault's current SSH keys.
pub fn sync_removals(stored: &Vec<Option<Vec<(String, String)>>>, current: &Vec<String>) -> (r: Option<
    Vec<String>,
>)
    ensures
        match sync_removals_spec(opt_attr_views(stored@), string_views(current@)) {
            None => r is None,
            Some(d) => r matches Some(v) && string_views(v@) == d,
        },
{
    match stored_cipher_ids(stored) {
        None => None,
        Some(ids) => Some(stale_cipher_ids(&ids, current)),
    }
}

/// A sync removes the keys of exactly those items that are stored and no longer in
/// the vault: every stored item whose id is not current is removed, and no item whose
/// id is current is.
pub proof fn lemma_sync_removals_exact(
    attrs: Seq<Option<Seq<(Seq<char>, Seq<char>)>>>,
    current: Seq<Seq<char>>,
    x: Seq<char>,
)
    requires
        sync_removals_spec(attrs, current) is Some,
    ensures
        sync_removals_spec(attrs, current)->0.contains(x) <==> ((exists|i: int|
            #[trigger] carries_id(attrs, i, x)) && !current.contains(x)),
{
    lemma_stored_ids_members(attrs, x);
    lemma_stale_ids_exact(stored_ids_spec(attrs)->0, current);
}


/// The value of an attribute is the value of the first pair with that name, and
/// there is none when no pair has that name.
pub proof fn lemma_attr_lookup_first(attrs: Seq<(Seq<char>, Seq<char>)>, name: Seq<char>)
    ensures
        forall|j: int|
            0 <= j < attrs.len() && #[trigger] attrs[j].0 == name && (forall|k: int|
                0 <= k < j ==> attrs[k].0 != name) ==> attr_lookup(attrs, name) == Some(attrs[j].1),
        (forall|k: int| 0 <= k < attrs.len() ==> attrs[k].0 != name) ==> attr_lookup(attrs, name)
            is None,
    decreases attrs.len(),
{
    if attrs.len() > 0 {
        lemma_attr_lookup_first(attrs.drop_first(), name);
        assert forall|j: int|
            0 <= j < attrs.len() && #[trigger] attrs[j].0 == name && (forall|k: int|
                0 <= k < j ==> attrs[k].0 != name) implies attr_lookup(attrs, name) == Some(
            attrs[j].1,
        ) by {
            if j > 0 {
                assert(attrs[0].0 != name);
                assert(attrs.drop_first()[j - 1] == attrs[j]);
                assert forall|k: int| 0 <= k < j - 1 implies attrs.drop_first()[k].0 != name by {
                    assert(attrs.drop_first()[k] == attrs[k + 1]);
                }
            }
        }
        if forall|k: int| 0 <= k < attrs.len() ==> attrs[k].0 != name {
            assert forall|k: int| 0 <= k < attrs.drop_first().len() implies attrs.drop_first()[k].0
                != name by {
                assert(attrs.drop_first()[k] == attrs[k + 1]);
            }
            assert(attrs[0].0 != name);
        }
    }
}

/// The key an organisation's item is decrypted with is its organisation's key, the
/// first organisation of the profile with the item's organisation id: the item's own
/// key field plays no part. Items with the same organisation id get the same key.
pub proof fn lemma_org_item_uses_org_key(
    profile: &Profile,
    cipher: &Cipher,
    other: &Cipher,
    user_key: &Aes256CbcHmacKey,
    i: int,
)
    requires
        cipher.organization_id is Some,
        0 <= i < profile.organizations@.len(),
        profile.organizations@[i].id@ == cipher.organization_id->0@,
        forall|j: int|
            0 <= j < i ==> profile.organizations@[j].id@ != cipher.organization_id->0@,
        other.organization_id is Some,
        other.organization_id->0@ == cipher.organization_id->0@,
    ensures
        cipher_key_spec(profile, cipher, user_key) == match org_key_spec(
            profile.private_key@,
            profile.organizations@[i].key@,
            user_key,
        ) {
            Ok(p) => Ok::<Option<(Seq<u8>, Seq<u8>)>, VaultError>(Some(p)),
            Err(e) => Err(e),
        },
        cipher_key_spec(profile, other, user_key) == cipher_key_spec(profile, cipher, user_key),
{
    let orgs = profile.organizations@;
    let id = cipher.organization_id->0@;
    assert(is_first_org(orgs, id, i));
    let c = choose|c: int| is_first_org(orgs, id, c);
    assert(c == i) by {
        if c < i {
            assert(orgs[c].id@ != id);
        } else if c > i {
            assert(orgs[i].id@ != id);
        }
    }
}

/// An organisation id that no organisation of the profile has makes the item
/// undecryptable, whatever its own key field holds.
pub proof fn lemma_unknown_org_refused(profile: &Profile, cipher: &Cipher, user_key: &Aes256CbcHmacKey)
    requires
        cipher.organization_id is Some,
        forall|j: int|
            0 <= j < profile.organizations@.len() ==> profile.organizations@[j].id@
                != cipher.organization_id->0@,
    ensures
        cipher_key_spec(profile, cipher, user_key) == Err::<Option<(Seq<u8>, Seq<u8>)>, VaultError>(
            VaultError::OrganizationNotFound,
        ),
{
    let orgs = profile.organizations@;
    let id = cipher.organization_id->0@;
    if exists|c: int| is_first_org(orgs, id, c) {
        let c = choose|c: int| is_first_org(orgs, id, c);
        assert(orgs[c].id@ != id);
    }
}

/// An organisation key is what the organisation's key field decrypts to, by RSA-OAEP
/// under the profile's RSA key, which in turn is what the profile's private-key field
/// decrypts to under the user key: its first 32 bytes encrypt, the next 32 authenticate.
pub proof fn lemma_org_key_unwrapped(
    private_key_field: Seq<char>,
    org_key_field: Seq<char>,
    user_key: &Aes256CbcHmacKey,
)
    requires
        org_key_spec(private_key_field, org_key_field, user_key) is Ok,
    ensures
        ({
            let der = decrypt_field_spec(private_key_field, user_key)->Ok_0;
            let payload = spec_parse(org_key_field)->Ok_0;
            let m = rsa_decrypt_spec(der, payload)->Ok_0;
            &&& decrypt_field_spec(private_key_field, user_key) is Ok
            &&& rsa_pkcs8_der_accepted(der)
            &&& spec_parse(org_key_field) is Ok
            &&& payload matches crate::enc_string::EncryptedStringModel::Rsa2048OaepSha1 { data }
                && crate::asymmetric::rsa_oaep_sha1_decrypt(der, data) == Some(m)
            &&& m.len() >= 64
            &&& org_key_spec(private_key_field, org_key_field, user_key)->Ok_0 == (
                m.subrange(0, 32),
                m.subrange(32, 64),
            )
        }),
{
    let der = decrypt_field_spec(private_key_field, user_key)->Ok_0;
    let payload = spec_parse(org_key_field)->Ok_0;
    crate::asymmetric::lemma_rsa_key_accepts_only_type_4(der, payload);
}

/// An item outside any organisation is decrypted with its own key, unwrapped with the
/// user key, when it has one, and with the user key itself otherwise.
pub proof fn lemma_personal_item_key(profile: &Profile, cipher: &Cipher, user_key: &Aes256CbcHmacKey)
    requires
        cipher.organization_id is None,
    ensures
        cipher.key is None ==> cipher_key_spec(profile, cipher, user_key) == Ok::<
            Option<(Seq<u8>, Seq<u8>)>,
            VaultError,
        >(None),
        cipher.key matches Some(k) ==> (cipher_key_spec(profile, cipher, user_key) matches Ok(Some(
            p,
        )) ==> decrypt_field_spec(k@, user_key) matches Ok(m) && m.len() >= 64 && p == (
            m.subrange(0, 32),
            m.subrange(32, 64),
        )),
        cipher.key matches Some(k) ==> ((decrypt_field_spec(k@, user_key) is Ok
            && decrypt_field_spec(k@, user_key)->Ok_0.len() >= 64) ==> cipher_key_spec(
            profile,
            cipher,
            user_key,
        ) == Ok::<Option<(Seq<u8>, Seq<u8>)>, VaultError>(
            Some(
                (
                    decrypt_field_spec(k@, user_key)->Ok_0.subrange(0, 32),
                    decrypt_field_spec(k@, user_key)->Ok_0.subrange(32, 64),
                ),
            ),
        )),
{
}

/// Decrypting a field with a key pair is parsing it, checking its MAC and decrypting
/// it with the pair, and reading the plaintext as text.
pub proof fn lemma_text_with_pair(field: Seq<char>, pair: (Seq<u8>, Seq<u8>))
    ensures
        text_with_pair(field, pair) is Ok ==> (spec_parse(field) is Ok && symmetric_decrypt_spec(
            pair.0,
            pair.1,
            spec_parse(field)->Ok_0,
        ) is Ok && text_with_pair(field, pair)->Ok_0 == utf8_lossy(
            symmetric_decrypt_spec(pair.0, pair.1, spec_parse(field)->Ok_0)->Ok_0,
        )),
        (spec_parse(field) is Ok && symmetric_decrypt_spec(pair.0, pair.1, spec_parse(field)->Ok_0)
            is Ok) ==> text_with_pair(field, pair) is Ok,
{
}

/// Every text of an SSH-key entry, the name, the fingerprint and both key halves, is
/// decrypted with one key pair: the item's own decryption key (its organisation's
/// key, or its item key) when it has one, and the user key only otherwise.
pub proof fn lemma_entry_uses_item_key(
    profile: &Profile,
    cipher: &Cipher,
    user_key: &Aes256CbcHmacKey,
    r: Result<SshKeyEntry, SshKeyEntryError>,
)
    requires
        cipher.ssh_key is Some,
        ssh_key_entry_spec(profile, cipher, user_key, r),
        r is Ok,
    ensures
        ({
            let ssh_key = cipher.ssh_key->0;
            let pair = match cipher_key_spec(profile, cipher, user_key) {
                Ok(Some(p)) => p,
                _ => key_pair(user_key),
            };
            let entry = r->Ok_0;
            &&& cipher_key_spec(profile, cipher, user_key) is Ok
            &&& text_with_pair(cipher.name@, pair) == Ok::<Seq<char>, CryptoError>(entry.name@)
            &&& text_with_pair(ssh_key.key_fingerprint@, pair) == Ok::<Seq<char>, CryptoError>(
                entry.fingerprint@,
            )
            &&& (entry.public_key matches Some(k) <==> text_with_pair(ssh_key.public_key@, pair) is Ok)
            &&& (entry.public_key matches Some(k) ==> text_with_pair(ssh_key.public_key@, pair)
                == Ok::<Seq<char>, CryptoError>(k@))
            &&& (entry.private_key matches Some(k) <==> text_with_pair(ssh_key.private_key@, pair)
                is Ok)
            &&& (entry.private_key matches Some(k) ==> text_with_pair(ssh_key.private_key@, pair)
                == Ok::<Seq<char>, CryptoError>(k@))
        }),
{
}

/// A stored public half without attributes is the only thing that abandons the
/// cleanup: when every stored half has attributes, the cleanup happens, whatever the
/// current ids are.
pub proof fn lemma_stored_ids_present(attrs: Seq<Option<Seq<(Seq<char>, Seq<char>)>>>)
    ensures
        stored_ids_spec(attrs) is Some <==> forall|i: int| 0 <= i < attrs.len() ==> #[trigger] attrs[i]
            is Some,
    decreases attrs.len(),
{
    if attrs.len() > 0 {
        lemma_stored_ids_present(attrs.drop_last());
        if forall|i: int| 0 <= i < attrs.len() ==> #[trigger] attrs[i] is Some {
            assert forall|i: int| 0 <= i < attrs.drop_last().len() implies #[trigger] attrs.drop_last()[i]
                is Some by {
                assert(attrs.drop_last()[i] == attrs[i]);
            }
            assert(attrs[attrs.len() - 1] is Some);
        }
        if stored_ids_spec(attrs) is Some {
            assert forall|i: int| 0 <= i < attrs.len() implies #[trigger] attrs[i] is Some by {
                if i < attrs.len() - 1 {
                    assert(attrs.drop_last()[i] == attrs[i]);
                }
            }
        }
    }
}

/// The cleanup of a sync takes place exactly when every stored public half has
/// attributes, whatever the current ids are (an empty vault included).
pub proof fn lemma_sync_cleanup_happens(
    attrs: Seq<Option<Seq<(Seq<char>, Seq<char>)>>>,
    current: Seq<Seq<char>>,
)
    ensures
        sync_removals_spec(attrs, current) is Some <==> forall|i: int|
            0 <= i < attrs.len() ==> #[trigger] attrs[i] is Some,
{
    lemma_stored_ids_present(attrs);
}


/// A key encrypted with the user key is the first 64 bytes of what the field decrypts
/// to under the user key: 32 to encrypt, then 32 to authenticate; shorter material
/// is refused.
pub proof fn lemma_user_field_key(field: Seq<char>, user_key: &Aes256CbcHmacKey)
    ensures
        user_field_key_spec(field, user_key) is Ok ==> (decrypt_field_spec(field, user_key) is Ok
            && decrypt_field_spec(field, user_key)->Ok_0.len() >= 64 && user_field_key_spec(
            field,
            user_key,
        )->Ok_0 == (
            decrypt_field_spec(field, user_key)->Ok_0.subrange(0, 32),
            decrypt_field_spec(field, user_key)->Ok_0.subrange(32, 64),
        )),
        (decrypt_field_spec(field, user_key) is Ok && decrypt_field_spec(field, user_key)->Ok_0.len()
            < 64) ==> user_field_key_spec(field, user_key) == Err::<(Seq<u8>, Seq<u8>), VaultError>(
            VaultError::KeyMaterialTooShort,
        ),
{
}

/// An SSH-key item whose decryption key cannot be obtained is passed over with that
/// very error, and nothing of it is decrypted.
pub proof fn lemma_entry_key_failure(
    profile: &Profile,
    cipher: &Cipher,
    user_key: &Aes256CbcHmacKey,
    r: Result<SshKeyEntry, SshKeyEntryError>,
)
    requires
        cipher.ssh_key is Some,
        ssh_key_entry_spec(profile, cipher, user_key, r),
        cipher_key_spec(profile, cipher, user_key) is Err,
    ensures
        r == Err::<SshKeyEntry, SshKeyEntryError>(
            SshKeyEntryError::DecryptionKey(cipher_key_spec(profile, cipher, user_key)->Err_0),
        ),
{
}

} // verus!
