use aes::cipher::block_padding::Pkcs7;
use aes::cipher::{BlockEncryptMut, KeyIvInit};
use base64::prelude::BASE64_STANDARD;
use base64::Engine;
use bw_ssh_agent::asymmetric::BWRsaPrivateKey;
use bw_ssh_agent::enc_string::{CryptoError, EncryptedString};
use bw_ssh_agent::symmetric::Aes256CbcHmacKey;
use bw_ssh_agent::utils::{
    decrypt_field, decrypt_field_as_string, hkdf_expand, stretch_key, HkdfExpandError,
};
use hmac::{Hmac, Mac};
use rsa::pkcs8::EncodePrivateKey;
use rsa::{Oaep, RsaPrivateKey, RsaPublicKey};
use sha1::Sha1;
use sha2::Sha256;

fn b64(bytes: &[u8]) -> String {
    BASE64_STANDARD.encode(bytes)
}

fn mac_of(mac_key: &[u8], iv: &[u8], data: &[u8]) -> Vec<u8> {
    let mut m = <Hmac<Sha256> as Mac>::new_from_slice(mac_key).unwrap();
    m.update(iv);
    m.update(data);
    m.finalize().into_bytes().to_vec()
}

fn encrypt(enc_key: &[u8; 32], mac_key: &[u8; 32], iv: &[u8; 16], plaintext: &[u8]) -> String {
    let mut buf = vec![0u8; plaintext.len() + 16];
    buf[..plaintext.len()].copy_from_slice(plaintext);
    let ct = cbc::Encryptor::<aes::Aes256>::new(enc_key.into(), iv.into())
        .encrypt_padded_mut::<Pkcs7>(&mut buf, plaintext.len())
        .unwrap()
        .to_vec();
    let mac = mac_of(mac_key, iv, &ct);
    format!("2.{}|{}|{}", b64(iv), b64(&ct), b64(&mac))
}

fn test_key() -> Aes256CbcHmacKey {
    Aes256CbcHmacKey::new([0x11u8; 32], [0x22u8; 32])
}

#[test]
fn key_new_keeps_halves() {
    let k = Aes256CbcHmacKey::new([1u8; 32], [2u8; 32]);
    assert_eq!(k.enc_key, [1u8; 32]);
    assert_eq!(k.mac_key, [2u8; 32]);
}

#[test]
fn decrypt_field_gives_plaintext() {
    let key = test_key();
    let field = encrypt(&key.enc_key, &key.mac_key, &[3u8; 16], b"ssh-ed25519 AAAA test");
    assert_eq!(decrypt_field(field.clone(), &key).unwrap(), b"ssh-ed25519 AAAA test".to_vec());
    assert_eq!(decrypt_field_as_string(field, &key).unwrap(), "ssh-ed25519 AAAA test");
}

#[test]
fn decrypt_through_dyn_key() {
    let key = test_key();
    let field = encrypt(&key.enc_key, &key.mac_key, &[3u8; 16], b"abc");
    let dyn_key: &dyn bw_ssh_agent::enc_string::CryptoKey = &key;
    let parsed = EncryptedString::parse(field).unwrap();
    assert_eq!(parsed.decrypt(dyn_key).unwrap(), b"abc".to_vec());
}

#[test]
fn decrypt_empty_plaintext() {
    let key = test_key();
    let field = encrypt(&key.enc_key, &key.mac_key, &[0u8; 16], b"");
    assert_eq!(decrypt_field(field, &key).unwrap(), Vec::<u8>::new());
}

#[test]
fn decrypt_refuses_wrong_mac() {
    let key = test_key();
    let field = encrypt(&key.enc_key, &[0x33u8; 32], &[3u8; 16], b"secret");
    assert_eq!(decrypt_field(field, &key).unwrap_err(), CryptoError::MacMismatch);
}

#[test]
fn decrypt_refuses_bad_padding() {
    let key = test_key();
    let iv = [5u8; 16];
    let data = [1u8, 2, 3, 4, 5];
    let mac = mac_of(&key.mac_key, &iv, &data);
    let field = format!("2.{}|{}|{}", b64(&iv), b64(&data), b64(&mac));
    assert_eq!(decrypt_field(field, &key).unwrap_err(), CryptoError::InvalidPadding);
}

#[test]
fn symmetric_key_refuses_rsa_payload() {
    assert_eq!(
        decrypt_field("4.aGVsbG8=".to_string(), &test_key()).unwrap_err(),
        CryptoError::UnsupportedPayload
    );
}

#[test]
fn decrypt_field_reports_parse_errors() {
    assert_eq!(decrypt_field("9.aGVsbG8=".to_string(), &test_key()).unwrap_err(), CryptoError::InvalidType);
}

#[test]
fn decrypt_as_string_replaces_invalid_utf8() {
    let key = test_key();
    let field = encrypt(&key.enc_key, &key.mac_key, &[3u8; 16], &[0x61, 0xff, 0x62]);
    assert_eq!(decrypt_field_as_string(field, &key).unwrap(), "a\u{FFFD}b");
}

#[test]
fn stretch_key_is_hkdf_expand() {
    let master = [0x42u8; 32];
    let stretched = stretch_key(&master);
    let hk = hkdf::Hkdf::<Sha256>::from_prk(&master).unwrap();
    let mut enc = [0u8; 32];
    let mut mac = [0u8; 32];
    hk.expand(b"enc", &mut enc).unwrap();
    hk.expand(b"mac", &mut mac).unwrap();
    assert_eq!(stretched.enc_key, enc);
    assert_eq!(stretched.mac_key, mac);
    assert_ne!(stretched.enc_key, master);
}

#[test]
fn hkdf_expand_refuses_short_key() {
    assert_eq!(hkdf_expand(&[1u8; 16], Some("enc")).unwrap_err(), HkdfExpandError::InvalidInputLength);
}

#[test]
fn hkdf_expand_without_info_is_empty_info() {
    assert_eq!(hkdf_expand(&[1u8; 32], None).unwrap(), hkdf_expand(&[1u8; 32], Some("")).unwrap());
    assert_ne!(hkdf_expand(&[1u8; 32], None).unwrap(), hkdf_expand(&[1u8; 32], Some("enc")).unwrap());
}

fn rsa_key() -> (RsaPrivateKey, Vec<u8>) {
    let mut rng = rand::thread_rng();
    let key = RsaPrivateKey::new(&mut rng, 1024).unwrap();
    let der = key.to_pkcs8_der().unwrap().as_bytes().to_vec();
    (key, der)
}

#[test]
fn rsa_key_decrypts_type_4() {
    let (key, der) = rsa_key();
    let public = RsaPublicKey::from(&key);
    let ct = public.encrypt(&mut rand::thread_rng(), Oaep::new::<Sha1>(), b"org key material").unwrap();
    let bw = BWRsaPrivateKey::new(der).unwrap();
    let field = format!("4.{}", b64(&ct));
    assert_eq!(decrypt_field(field, &bw).unwrap(), b"org key material".to_vec());
}

#[test]
fn rsa_key_refuses_type_2_and_garbage() {
    let (_, der) = rsa_key();
    let bw = BWRsaPrivateKey::new(der).unwrap();
    let key = test_key();
    let field = encrypt(&key.enc_key, &key.mac_key, &[3u8; 16], b"x");
    assert_eq!(decrypt_field(field, &bw).unwrap_err(), CryptoError::UnsupportedPayload);
    let garbage = format!("4.{}", b64(&[7u8; 128]));
    assert_eq!(decrypt_field(garbage, &bw).unwrap_err(), CryptoError::RsaDecryption);
}

#[test]
fn rsa_key_refuses_invalid_der() {
    assert_eq!(BWRsaPrivateKey::new(vec![1, 2, 3]).err(), Some(CryptoError::InvalidRsaKey));
}
