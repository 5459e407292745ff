use aes::cipher::block_padding::Pkcs7;
use aes::cipher::{BlockEncryptMut, KeyIvInit};
use base64::prelude::BASE64_STANDARD;
use base64::Engine;
use bw_ssh_agent::auth::{
    build_password_token_request, build_refresh_token_request, build_send_two_factor_email_request,
    get_cleaned_email, get_master_password_auth_data, pre_login_request, unlock_key_store,
    LoginError, PasswordLoginRequest, SendTwoFactorEmail, DEVICE_ID, DEVICE_TYPE,
};
use bw_ssh_agent::enc_string::CryptoError;
use bw_ssh_agent::models::{
    ConnectTokenSuccessResponse, Kdf, MasterPasswordAuthenticationData, MasterPasswordUnlock,
    UserDecryptionOptions,
};
use hmac::{Hmac, Mac};
use sha2::Sha256;

fn pbkdf2_32(password: &[u8], salt: &[u8], rounds: u32) -> [u8; 32] {
    pbkdf2::pbkdf2_hmac_array::<Sha256, 32>(password, salt, rounds)
}

#[test]
fn cleaned_email_is_trimmed_and_lowercased() {
    assert_eq!(get_cleaned_email("  User@Example.COM \n".to_string()), "user@example.com");
    assert_eq!(pre_login_request(&" A@B.C ".to_string()).email, "a@b.c");
}

#[test]
fn master_password_auth_data_matches_pbkdf2() {
    let auth = get_master_password_auth_data("user@example.com".to_string(), b"hunter2", 600);
    let master = pbkdf2_32(b"hunter2", b"user@example.com", 600);
    let hash = pbkdf2_32(&master, b"hunter2", 1);
    assert_eq!(auth.salt, "user@example.com");
    assert_eq!(auth.master_key, master.to_vec());
    assert_eq!(auth.master_password_authentication_hash, hash.to_vec());
    assert_ne!(auth.master_key, b"hunter2".to_vec());
}

#[test]
fn known_pbkdf2_vector() {
    let auth = get_master_password_auth_data("salt".to_string(), b"password", 1);
    assert_eq!(
        auth.master_key[..4].to_vec(),
        vec![0x12, 0x0f, 0xb6, 0xcf]
    );
}

#[test]
fn password_token_request_fields() {
    let request = PasswordLoginRequest {
        email: " Me@Example.com".to_string(),
        password: "pw".to_string(),
        two_factor_token: Some("123456".to_string()),
        two_factor_provider: Some("1".to_string()),
        two_factor_remember: Some(false),
        new_device_otp: None,
    };
    let (r, auth) = build_password_token_request(&request, 5);
    let master = pbkdf2_32(b"pw", b"me@example.com", 5);
    assert_eq!(auth.salt, "me@example.com");
    assert_eq!(auth.master_key, master.to_vec());
    assert_eq!(r.grant_type, "password");
    assert_eq!(r.scope.as_deref(), Some("api offline_access"));
    assert_eq!(r.client_id, "web");
    assert_eq!(r.device_type.as_deref(), Some(DEVICE_TYPE));
    assert_eq!(r.device_type.as_deref(), Some("10"));
    assert_eq!(r.device_identifier.as_deref(), Some(DEVICE_ID));
    assert_eq!(r.device_name.as_deref(), Some("firefox"));
    assert_eq!(r.email.as_deref(), Some("me@example.com"));
    assert_eq!(r.master_password_hash, Some(pbkdf2_32(&master, b"pw", 1).to_vec()));
    assert_eq!(r.refresh_token, None);
    assert_eq!(r.two_factor_token.as_deref(), Some("123456"));
    assert_eq!(r.two_factor_provider.as_deref(), Some("1"));
    assert_eq!(r.two_factor_remember, Some(false));
    assert_eq!(r.new_device_otp, None);
}

#[test]
fn refresh_token_request_fields() {
    let r = build_refresh_token_request("rt".to_string());
    assert_eq!(r.grant_type, "refresh_token");
    assert_eq!(r.refresh_token.as_deref(), Some("rt"));
    assert_eq!(r.client_id, "web");
    assert!(r.scope.is_none() && r.email.is_none() && r.master_password_hash.is_none());
}

#[test]
fn two_factor_email_request_fields() {
    let request = SendTwoFactorEmail { email: "X@Y.Z ".to_string(), password: "pw".to_string() };
    let r = build_send_two_factor_email_request(&request, 3);
    let master = pbkdf2_32(b"pw", b"x@y.z", 3);
    assert_eq!(r.email, "x@y.z");
    assert_eq!(r.master_password_hash, pbkdf2_32(&master, b"pw", 1).to_vec());
    assert_eq!(r.device_identifier, "d3511425-1904-44c6-a07a-96d9273fd5c3");
    assert_eq!(r.auth_request_id.as_deref(), Some(""));
    assert_eq!(r.auth_request_access_code.as_deref(), Some(""));
    assert_eq!(r.sso_email2_fa_session_token.as_deref(), Some(""));
    assert_eq!(r.otp, None);
    assert_eq!(r.secret, None);
}

fn encrypt_with_stretched(master: &[u8; 32], plaintext: &[u8]) -> String {
    let hk = hkdf::Hkdf::<Sha256>::from_prk(master).unwrap();
    let mut enc = [0u8; 32];
    let mut mac_key = [0u8; 32];
    hk.expand(b"enc", &mut enc).unwrap();
    hk.expand(b"mac", &mut mac_key).unwrap();
    let iv = [4u8; 16];
    let mut buf = vec![0u8; plaintext.len() + 16];
    buf[..plaintext.len()].copy_from_slice(plaintext);
    let ct = cbc::Encryptor::<aes::Aes256>::new((&enc).into(), (&iv).into())
        .encrypt_padded_mut::<Pkcs7>(&mut buf, plaintext.len())
        .unwrap()
        .to_vec();
    let mut m = <Hmac<Sha256> as Mac>::new_from_slice(&mac_key).unwrap();
    m.update(&iv);
    m.update(&ct);
    let mac = m.finalize().into_bytes().to_vec();
    format!("2.{}|{}|{}", BASE64_STANDARD.encode(iv), BASE64_STANDARD.encode(&ct), BASE64_STANDARD.encode(&mac))
}

fn response(encrypted_user_key: String) -> ConnectTokenSuccessResponse {
    ConnectTokenSuccessResponse {
        private_key: String::new(),
        user_decryption_options: UserDecryptionOptions {
            master_password_unlock: MasterPasswordUnlock {
                kdf: Kdf { iterations: 600000 },
                master_key_encrypted_user_key: encrypted_user_key,
                salt: "me@example.com".to_string(),
            },
        },
        access_token: "at".to_string(),
        refresh_token: "rt".to_string(),
    }
}

fn auth_with(master: &[u8]) -> MasterPasswordAuthenticationData {
    MasterPasswordAuthenticationData {
        salt: "me@example.com".to_string(),
        master_password_authentication_hash: vec![0u8; 32],
        master_key: master.to_vec(),
    }
}

#[test]
fn unlock_key_store_decrypts_user_key() {
    let master = [0x5au8; 32];
    let mut user_key = vec![0xaau8; 32];
    user_key.extend(vec![0xbbu8; 32]);
    let ks = unlock_key_store(&auth_with(&master), response(encrypt_with_stretched(&master, &user_key))).ok().unwrap();
    assert_eq!(ks.user_key.enc_key, [0xaau8; 32]);
    assert_eq!(ks.user_key.mac_key, [0xbbu8; 32]);
    assert_eq!(ks.refresh_token, "rt");
}

#[test]
fn unlock_key_store_errors() {
    let master = [0x5au8; 32];
    assert_eq!(
        unlock_key_store(&auth_with(&[1u8; 31]), response(String::new())).err(),
        Some(LoginError::InvalidMasterKey)
    );
    assert_eq!(
        unlock_key_store(&auth_with(&master), response("7.abc".to_string())).err(),
        Some(LoginError::Crypto(CryptoError::InvalidType))
    );
    assert_eq!(
        unlock_key_store(&auth_with(&[0x5bu8; 32]), response(encrypt_with_stretched(&master, &[1u8; 64]))).err(),
        Some(LoginError::Crypto(CryptoError::MacMismatch))
    );
    assert_eq!(
        unlock_key_store(&auth_with(&master), response(encrypt_with_stretched(&master, &[1u8; 63]))).err(),
        Some(LoginError::KeyMaterialTooShort)
    );
}

#[test]
fn login_request_answers() {
    let mut r = PasswordLoginRequest { email: "e".to_string(), password: "p".to_string(), ..Default::default() };
    r.set_new_device_otp("111".to_string());
    assert_eq!(r.new_device_otp.as_deref(), Some("111"));
    r.set_email_two_factor("222".to_string());
    assert_eq!(r.two_factor_token.as_deref(), Some("222"));
    assert_eq!(r.two_factor_provider.as_deref(), Some("1"));
    assert_eq!(r.two_factor_remember, Some(false));
    assert_eq!(r.new_device_otp.as_deref(), Some("111"));
    assert_eq!(r.email, "e");
}
