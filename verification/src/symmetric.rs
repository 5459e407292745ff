//! The symmetric key: AES-256-CBC for secrecy, HMAC-SHA256 for integrity.
use crate::enc_string::{bytes_result, CryptoError, CryptoKey, EncryptedString, EncryptedStringModel};
use crate::primitives::{
    aes256_cbc_decrypt_in_place, aes256_cbc_pkcs7_decrypt, ct_ne_32, generate_mac, hmac_sha256,
};
use vstd::prelude::*;

verus! {

/// A 32-byte encryption key with its 32-byte MAC key.
#[derive(Debug)]
pub struct Aes256CbcHmacKey {
    pub enc_key: [u8; 32],
    pub mac_key: [u8; 32],
}

/// Decrypting an AES-256-CBC payload: padding errors are reported as such.
pub open spec fn aes_decrypt_result(key: Seq<u8>, iv: Seq<u8>, data: Seq<u8>) -> Result<
    Seq<u8>,
    CryptoError,
> {
    match aes256_cbc_pkcs7_decrypt(key, iv, data) {
        Some(plaintext) => Ok(plaintext),
        None => Err(CryptoError::InvalidPadding),
    }
}

/// Decrypting a payload with the key pair: only type 2 is accepted, and only when the
/// MAC over the IV and the ciphertext matches; then the ciphertext is decrypted.
pub open spec fn symmetric_decrypt_spec(
    enc_key: Seq<u8>,
    mac_key: Seq<u8>,
    payload: EncryptedStringModel,
) -> Result<Seq<u8>, CryptoError> {
    match payload {
        EncryptedStringModel::Aes256cbcHmacSha256 { iv, mac, data } => {
            if hmac_sha256(mac_key, iv + data) != mac {
                Err(CryptoError::MacMismatch)
            } else {
                aes_decrypt_result(enc_key, iv, data)
            }
        },
        EncryptedStringModel::Rsa2048OaepSha1 { .. } => Err(CryptoError::UnsupportedPayload),
    }
}

/// A type-2 payload whose MAC does not match its IV and ciphertext is refused,
/// whatever the ciphertext holds: nothing of it is decrypted.
pub proof fn lemma_tampered_payload_refused(
    enc_key: Seq<u8>,
    mac_key: Seq<u8>,
    iv: Seq<u8>,
    mac: Seq<u8>,
    data: Seq<u8>,
)
    requires
        hmac_sha256(mac_key, iv + data) != mac,
    ensures
        symmetric_decrypt_spec(
            enc_key,
            mac_key,
            EncryptedStringModel::Aes256cbcHmacSha256 { iv, mac, data },
        ) == Err::<Seq<u8>, CryptoError>(CryptoError::MacMismatch),
{
}

/// A symmetric key decrypts nothing but type-2 payloads, and a type-2 payload it
/// decrypts carries the right MAC.
pub proof fn lemma_symmetric_key_accepts_only_authentic_type_2(
    enc_key: Seq<u8>,
    mac_key: Seq<u8>,
    payload: EncryptedStringModel,
)
    requires
        symmetric_decrypt_spec(enc_key, mac_key, payload) is Ok,
    ensures
        payload matches EncryptedStringModel::Aes256cbcHmacSha256 { iv, mac, data } && hmac_sha256(
            mac_key,
            iv + data,
        ) == mac && aes256_cbc_pkcs7_decrypt(enc_key, iv, data) == Some(
            symmetric_decrypt_spec(enc_key, mac_key, payload)->Ok_0,
        ),
{
}

impl Aes256CbcHmacKey {
    /// The key pair made of the two halves.
    pub fn new(enc: [u8; 32], mac: [u8; 32]) -> (r: Self)
        ensures
            r.enc_key@ == enc@,
            r.mac_key@ == mac@,
    {
        Aes256CbcHmacKey { enc_key: enc, mac_key: mac }
    }

    /// Decrypts `data` in place with AES-256-CBC and keeps only the unpadded plaintext.
    fn decrypt_aes256(iv: &[u8; 16], data: Vec<u8>, key: &[u8; 32]) -> (r: Result<
        Vec<u8>,
        CryptoError,
    >)
        ensures
            bytes_result(r) == aes_decrypt_result(key@, iv@, data@),
    {
        let mut data = data;
        match aes256_cbc_decrypt_in_place(key, iv, &mut data) {
            Ok(decrypted_len) => {
                data.truncate(decrypted_len);
                Ok(data)
            },
            Err(_) => Err(CryptoError::InvalidPadding),
        }
    }
}

impl CryptoKey for Aes256CbcHmacKey {
    open spec fn decrypt_spec(&self, payload: EncryptedStringModel) -> Result<Seq<u8>, CryptoError> {
        symmetric_decrypt_spec(self.enc_key@, self.mac_key@, payload)
    }

    fn decrypt(&self, payload: &EncryptedString) -> (r: Result<Vec<u8>, CryptoError>) {
        match payload {
            EncryptedString::Aes256cbcHmacSha256 { iv, mac, data } => {
                let computed_mac = generate_mac(self.mac_key.as_slice(), iv.as_slice(), data.as_slice());
                if ct_ne_32(&computed_mac, mac) {
                    return Err(CryptoError::MacMismatch);
                }
                let copy = vstd::slice::slice_to_vec(data.as_slice());
                Self::decrypt_aes256(iv, copy, &self.enc_key)
            },
            EncryptedString::Rsa2048OaepSha1 { .. } => Err(CryptoError::UnsupportedPayload),
        }
    }
}


/// A key pair decrypts a payload only when the payload's MAC is the HMAC of its IV and
/// ciphertext under the pair's MAC half, and the plaintext is then the AES-256-CBC
/// decryption of the ciphertext under the pair's encryption half; any other MAC is
/// refused.
pub proof fn lemma_key_decrypts_with_its_halves(key: &Aes256CbcHmacKey, payload: EncryptedStringModel)
    ensures
        key.decrypt_spec(payload) is Ok ==> (payload matches EncryptedStringModel::Aes256cbcHmacSha256 {
            iv,
            mac,
            data,
        } && hmac_sha256(key.mac_key@, iv + data) == mac && aes256_cbc_pkcs7_decrypt(
            key.enc_key@,
            iv,
            data,
        ) == Some(key.decrypt_spec(payload)->Ok_0)),
        payload matches EncryptedStringModel::Aes256cbcHmacSha256 { iv, mac, data } ==> (hmac_sha256(
            key.mac_key@,
            iv + data,
        ) != mac ==> key.decrypt_spec(payload) == Err::<Seq<u8>, CryptoError>(
            CryptoError::MacMismatch,
        )),
{
}

} // verus!
