//! The RSA private key of a Bitwarden profile, used to unwrap organisation keys.
use crate::enc_string::{bytes_result, CryptoError, CryptoKey, EncryptedString, EncryptedStringModel};
use rsa::pkcs8::DecodePrivateKey;
use rsa::traits::PaddingScheme;
use rsa::{Oaep, RsaPrivateKey};
use sha1::Sha1;
use vstd::prelude::*;

verus! {

#[verifier::external_type_specification]
#[verifier::external_body]
pub struct ExRsaPrivateKey(rsa::RsaPrivateKey);

#[verifier::external_type_specification]
#[verifier::external_body]
pub struct ExPkcs8Error(rsa::pkcs8::Error);

#[verifier::external_type_specification]
#[verifier::external_body]
pub struct ExRsaError(rsa::Error);

/// Whether `rsa` accepts `der` as a PKCS#8 DER RSA private key.
pub uninterp spec fn rsa_pkcs8_der_accepted(der: Seq<u8>) -> bool;

/// RSA-OAEP (SHA-1 for the label hash and MGF1) decryption of `ciphertext` with the
/// private key encoded by `der`, or `None` where decryption fails.
pub uninterp spec fn rsa_oaep_sha1_decrypt(der: Seq<u8>, ciphertext: Seq<u8>) -> Option<Seq<u8>>;

/// An RSA private key, with the PKCS#8 DER bytes it was read from.
pub struct BWRsaPrivateKey {
    inner: RsaPrivateKey,
    der: Ghost<Seq<u8>>,
}

/// Decrypting a payload with the RSA key: only type 4 is accepted.
pub open spec fn rsa_decrypt_spec(der: Seq<u8>, payload: EncryptedStringModel) -> Result<
    Seq<u8>,
    CryptoError,
> {
    match payload {
        EncryptedStringModel::Rsa2048OaepSha1 { data } => match rsa_oaep_sha1_decrypt(der, data) {
            Some(plaintext) => Ok(plaintext),
            None => Err(CryptoError::RsaDecryption),
        },
        EncryptedStringModel::Aes256cbcHmacSha256 { .. } => Err(CryptoError::UnsupportedPayload),
    }
}

/// An RSA key decrypts nothing but type-4 payloads.
pub proof fn lemma_rsa_key_accepts_only_type_4(der: Seq<u8>, payload: EncryptedStringModel)
    requires
        rsa_decrypt_spec(der, payload) is Ok,
    ensures
        payload matches EncryptedStringModel::Rsa2048OaepSha1 { data } && rsa_oaep_sha1_decrypt(
            der,
            data,
        ) == Some(rsa_decrypt_spec(der, payload)->Ok_0),
{
}

/// `rsa::RsaPrivateKey::from_pkcs8_der`. Claimed: it succeeds exactly where `rsa`
/// accepts the bytes.
#[verifier::external_body]
fn rsa_private_key_from_pkcs8_der(der: &[u8]) -> (r: Result<RsaPrivateKey, rsa::pkcs8::Error>)
    ensures
        r is Ok <==> rsa_pkcs8_der_accepted(der@),
{
    RsaPrivateKey::from_pkcs8_der(der)
}

/// `rsa::traits::PaddingScheme::decrypt` of `rsa::Oaep::new::<Sha1>()` with the
/// key's parsed private key, blinded with `rand::thread_rng()`. Claimed: the outcome
/// is RSA-OAEP-SHA1 decryption under the key that `key.der()` encodes (blinding
/// changes how the result is computed, not what it is).
#[verifier::external_body]
fn rsa_oaep_sha1_decrypt_with(key: &BWRsaPrivateKey, ciphertext: &[u8]) -> (r: Result<
    Vec<u8>,
    rsa::Error,
>)
    ensures
        r is Ok <==> rsa_oaep_sha1_decrypt(key.der(), ciphertext@) is Some,
        r matches Ok(v) ==> rsa_oaep_sha1_decrypt(key.der(), ciphertext@) == Some(v@),
{
    let mut rng = rand::thread_rng();
    Oaep::new::<Sha1>().decrypt(Some(&mut rng), &key.inner, ciphertext)
}

impl BWRsaPrivateKey {
    /// The PKCS#8 DER bytes the key was read from.
    pub closed spec fn der(&self) -> Seq<u8> {
        self.der@
    }

    /// Reads a PKCS#8 DER RSA private key.
    pub fn new(pkcs8_der: Vec<u8>) -> (r: Result<Self, CryptoError>)
        ensures
            r is Ok <==> rsa_pkcs8_der_accepted(pkcs8_der@),
            r matches Ok(k) ==> k.der() == pkcs8_der@,
            r matches Err(e) ==> e == CryptoError::InvalidRsaKey,
    {
        match rsa_private_key_from_pkcs8_der(pkcs8_der.as_slice()) {
            Ok(private_key) => Ok(BWRsaPrivateKey { inner: private_key, der: Ghost(pkcs8_der@) }),
            Err(_) => Err(CryptoError::InvalidRsaKey),
        }
    }
}

impl CryptoKey for BWRsaPrivateKey {
    open spec fn decrypt_spec(&self, payload: EncryptedStringModel) -> Result<Seq<u8>, CryptoError> {
        rsa_decrypt_spec(self.der(), payload)
    }

    fn decrypt(&self, payload: &EncryptedString) -> (r: Result<Vec<u8>, CryptoError>) {
        match payload {
            EncryptedString::Rsa2048OaepSha1 { data } => {
                match rsa_oaep_sha1_decrypt_with(self, data.as_slice()) {
                    Ok(r) => Ok(r),
                    Err(_) => Err(CryptoError::RsaDecryption),
                }
            },
            EncryptedString::Aes256cbcHmacSha256 { .. } => Err(CryptoError::UnsupportedPayload),
        }
    }
}

} // verus!
