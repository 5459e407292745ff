//! The computations of a password login: the cleaned e-mail address, the key derived
//! from the master password, the requests sent to the servers, and the unlocking of
//! the user key from the server's answer.
use crate::enc_string::{spec_parse, CryptoError, EncryptedString};
use crate::models::{
    ConnectTokenRequest, PreLoginRequest, ConnectTokenSuccessResponse, MasterPasswordAuthenticationData,
    SendTwoFactorEmailRequest,
};
use crate::primitives::{pbkdf2_hmac_sha256_32, pbkdf2_sha256, str_to_lowercase, str_trim};
use crate::symmetric::{symmetric_decrypt_spec, Aes256CbcHmacKey};
use crate::utils::{enc_info, hkdf_sha256_expand_32, mac_info, stretch_key};
use crate::vault::key_from_bytes;
use vstd::prelude::*;
use vstd::utf8::*;

verus! {

/// The device identifier this agent logs in with.
pub const DEVICE_ID: &'static str = "d3511425-1904-44c6-a07a-96d9273fd5c3";

/// The device type this agent logs in as.
pub const DEVICE_TYPE: &'static str = "10";

/// What the user enters to log in, with the answers to the server's challenges so far.
#[derive(Debug, Clone, Default)]
pub struct PasswordLoginRequest {
    pub email: String,
    pub password: String,
    pub two_factor_token: Option<String>,
    pub two_factor_provider: Option<String>,
    pub two_factor_remember: Option<bool>,
    pub new_device_otp: Option<String>,
}

/// What the user enters to have a two-factor code sent by e-mail.
#[derive(Debug, Clone, Default)]
pub struct SendTwoFactorEmail {
    pub email: String,
    pub password: String,
}

/// The secrets a login yields.
pub struct KeyStore {
    pub refresh_token: String,
    pub user_key: Aes256CbcHmacKey,
}

/// Why unlocking the user key failed.
#[derive(Debug, Clone, Copy, PartialEq, Eq, Structural)]
pub enum LoginError {
    /// The master key is not 32 bytes.
    InvalidMasterKey,
    /// The encrypted user key could not be parsed or decrypted.
    Crypto(CryptoError),
    /// The decrypted user key is shorter than 64 bytes.
    KeyMaterialTooShort,
}

/// The e-mail address as the server knows it: without surrounding white space, in
/// lower case.
pub fn get_cleaned_email(email: String) -> (r: String)
    ensures
        r@ == str_to_lowercase(str_trim(email@)),
{
    email.as_str().trim().to_lowercase()
}

/// Derives the master key (PBKDF2-SHA256 of the password, salted with the e-mail
/// address) and the authentication hash (one more PBKDF2 round of the master key,
/// salted with the password).
pub fn get_master_password_auth_data(email: String, password: &[u8], kdf_iterations: u32) -> (r:
    MasterPasswordAuthenticationData)
    ensures
        r.salt@ == email@,
        r.master_key@ == pbkdf2_hmac_sha256_32(password@, encode_utf8(email@), kdf_iterations),
        r.master_password_authentication_hash@ == pbkdf2_hmac_sha256_32(
            pbkdf2_hmac_sha256_32(password@, encode_utf8(email@), kdf_iterations),
            password@,
            1,
        ),        r.master_key@.len() == 32,
        r.master_password_authentication_hash@.len() == 32,
{
    let master_key = pbkdf2_sha256(password, email.as_str().as_bytes(), kdf_iterations);
    let master_key_hash = pbkdf2_sha256(master_key.as_slice(), password, 1);
    MasterPasswordAuthenticationData {
        salt: email,
        master_password_authentication_hash: vstd::slice::slice_to_vec(master_key_hash.as_slice()),
        master_key: vstd::slice::slice_to_vec(master_key.as_slice()),
    }
}

/// An optional text.
pub open spec fn opt_view(s: Option<String>) -> Option<Seq<char>> {
    match s {
        Some(t) => Some(t@),
        None => None,
    }
}

/// An optional byte string.
pub open spec fn opt_bytes(s: Option<Vec<u8>>) -> Option<Seq<u8>> {
    match s {
        Some(t) => Some(t@),
        None => None,
    }
}

/// A copy of an optional text.
fn copy_opt_string(s: &Option<String>) -> (r: Option<String>)
    ensures
        opt_view(r) == opt_view(*s),
{
    match s {
        Some(t) => Some(t.clone()),
        None => None,
    }
}

/// The pre-login request for an e-mail address: the cleaned address.
pub fn pre_login_request(email: &String) -> (r: PreLoginRequest)
    ensures
        r.email@ == login_salt(email@),
{
    PreLoginRequest { email: get_cleaned_email(email.clone()) }
}

/// The salt of a login: the cleaned e-mail address.
pub open spec fn login_salt(email: Seq<char>) -> Seq<char> {
    str_to_lowercase(str_trim(email))
}

/// The master key of a login: PBKDF2-SHA256 of the password, salted with the
/// cleaned e-mail address.
pub open spec fn login_master_key(email: Seq<char>, password: Seq<char>, kdf_iterations: u32) -> Seq<
    u8,
> {
    pbkdf2_hmac_sha256_32(encode_utf8(password), encode_utf8(login_salt(email)), kdf_iterations)
}

/// The authentication hash of a login: one PBKDF2-SHA256 round of the master key,
/// salted with the password.
pub open spec fn login_auth_hash(email: Seq<char>, password: Seq<char>, kdf_iterations: u32) -> Seq<
    u8,
> {
    pbkdf2_hmac_sha256_32(login_master_key(email, password, kdf_iterations), encode_utf8(password), 1)
}

/// The key material of a login.
pub open spec fn login_auth_data_spec(
    email: Seq<char>,
    password: Seq<char>,
    kdf_iterations: u32,
    auth: MasterPasswordAuthenticationData,
) -> bool {
    &&& auth.salt@ == login_salt(email)
    &&& auth.master_key@ == login_master_key(email, password, kdf_iterations)
    &&& auth.master_password_authentication_hash@ == login_auth_hash(email, password, kdf_iterations)
}

/// The token request of a password login, with the key material it was made from:
/// the `web` client logging in with the password grant, as this device, with the
/// cleaned e-mail address and the authentication hash derived in `kdf_iterations`
/// rounds, and whatever answers to challenges the login request carries.
pub fn build_password_token_request(request: &PasswordLoginRequest, kdf_iterations: u32) -> (r: (
    ConnectTokenRequest,
    MasterPasswordAuthenticationData,
))
    ensures
        login_auth_data_spec(request.email@, request.password@, kdf_iterations, r.1),
        r.1.master_key@.len() == 32,
        r.1.master_password_authentication_hash@.len() == 32,
        r.0.grant_type@ == "password"@,
        opt_view(r.0.scope) == Some("api offline_access"@),
        r.0.client_id@ == "web"@,
        opt_view(r.0.device_type) == Some(DEVICE_TYPE@),
        opt_view(r.0.device_identifier) == Some(DEVICE_ID@),
        opt_view(r.0.device_name) == Some("firefox"@),
        opt_bytes(r.0.master_password_hash) == Some(r.1.master_password_authentication_hash@),
        opt_view(r.0.email) == Some(r.1.salt@),
        r.0.refresh_token is None,
        opt_view(r.0.two_factor_token) == opt_view(request.two_factor_token),
        opt_view(r.0.two_factor_provider) == opt_view(request.two_factor_provider),
        r.0.two_factor_remember == request.two_factor_remember,
        opt_view(r.0.new_device_otp) == opt_view(request.new_device_otp),
{
    let cleaned_email = get_cleaned_email(request.email.clone());
    let auth = get_master_password_auth_data(
        cleaned_email,
        request.password.as_str().as_bytes(),
        kdf_iterations,
    );
    let token_request = ConnectTokenRequest {
        grant_type: "password".to_owned(),
        scope: Some("api offline_access".to_owned()),
        client_id: "web".to_owned(),
        device_type: Some(DEVICE_TYPE.to_owned()),
        device_identifier: Some(DEVICE_ID.to_owned()),
        device_name: Some("firefox".to_owned()),
        master_password_hash: Some(
            vstd::slice::slice_to_vec(auth.master_password_authentication_hash.as_slice()),
        ),
        email: Some(auth.salt.clone()),
        refresh_token: None,
        two_factor_token: copy_opt_string(&request.two_factor_token),
        two_factor_provider: copy_opt_string(&request.two_factor_provider),
        two_factor_remember: request.two_factor_remember,
        new_device_otp: copy_opt_string(&request.new_device_otp),
    };
    (token_request, auth)
}

/// The token request that renews a session: the `web` client with the refresh grant.
pub fn build_refresh_token_request(refresh_token: String) -> (r: ConnectTokenRequest)
    ensures
        r.grant_type@ == "refresh_token"@,
        opt_view(r.refresh_token) == Some(refresh_token@),
        r.client_id@ == "web"@,
        r.scope is None,
        r.device_type is None,
        r.device_identifier is None,
        r.device_name is None,
        r.email is None,
        r.master_password_hash is None,
        r.two_factor_token is None,
        r.two_factor_provider is None,
        r.two_factor_remember is None,
        r.new_device_otp is None,
{
    ConnectTokenRequest {
        grant_type: "refresh_token".to_owned(),
        refresh_token: Some(refresh_token),
        client_id: "web".to_owned(),
        scope: None,
        device_type: None,
        device_identifier: None,
        device_name: None,
        email: None,
        master_password_hash: None,
        two_factor_token: None,
        two_factor_provider: None,
        two_factor_remember: None,
        new_device_otp: None,
    }
}

/// The request for an e-mailed two-factor code: the cleaned e-mail address and the
/// authentication hash derived in `kdf_iterations` rounds, this device, and empty
/// auth-request and SSO fields.
pub fn build_send_two_factor_email_request(request: &SendTwoFactorEmail, kdf_iterations: u32) -> (r:
    SendTwoFactorEmailRequest)
    ensures
        r.email@ == login_salt(request.email@),
        r.master_password_hash@ == login_auth_hash(request.email@, request.password@, kdf_iterations),
        r.device_identifier@ == DEVICE_ID@,
        opt_view(r.auth_request_id) == Some(""@),
        opt_view(r.auth_request_access_code) == Some(""@),
        opt_view(r.sso_email2_fa_session_token) == Some(""@),
        r.otp is None,
        r.secret is None,
{
    let cleaned_email = get_cleaned_email(request.email.clone());
    let auth = get_master_password_auth_data(
        cleaned_email.clone(),
        request.password.as_str().as_bytes(),
        kdf_iterations,
    );
    SendTwoFactorEmailRequest {
        email: cleaned_email,
        master_password_hash: vstd::slice::slice_to_vec(
            auth.master_password_authentication_hash.as_slice(),
        ),
        device_identifier: DEVICE_ID.to_owned(),
        auth_request_id: Some("".to_owned()),
        auth_request_access_code: Some("".to_owned()),
        sso_email2_fa_session_token: Some("".to_owned()),
        otp: None,
        secret: None,
    }
}

/// What unlocking the user key gives: the master key is stretched into a key pair,
/// which decrypts the encrypted user key; its first 64 bytes are the user key pair.
pub open spec fn unlock_user_key_spec(master_key: Seq<u8>, encrypted_user_key: Seq<char>) -> Result<
    (Seq<u8>, Seq<u8>),
    LoginError,
> {
    if master_key.len() != 32 {
        Err(LoginError::InvalidMasterKey)
    } else {
        match spec_parse(encrypted_user_key) {
            Err(e) => Err(LoginError::Crypto(e)),
            Ok(payload) => match symmetric_decrypt_spec(
                hkdf_sha256_expand_32(master_key, enc_info()),
                hkdf_sha256_expand_32(master_key, mac_info()),
                payload,
            ) {
                Err(e) => Err(LoginError::Crypto(e)),
                Ok(k) => if k.len() < 64 {
                    Err(LoginError::KeyMaterialTooShort)
                } else {
                    Ok((k.subrange(0, 32), k.subrange(32, 64)))
                },
            },
        }
    }
}

/// Unlocks the user key with the master key and keeps the refresh token of the
/// server's answer.
pub fn unlock_key_store(auth: &MasterPasswordAuthenticationData, response: ConnectTokenSuccessResponse) -> (r:
    Result<KeyStore, LoginError>)
    ensures
        match unlock_user_key_spec(
            auth.master_key@,
            response.user_decryption_options.master_password_unlock.master_key_encrypted_user_key@,
        ) {
            Ok(pair) => r matches Ok(ks) && ks.user_key.enc_key@ == pair.0 && ks.user_key.mac_key@
                == pair.1 && ks.refresh_token@ == response.refresh_token@,
            Err(e) => r matches Err(x) && x == e,
        },
{
    if auth.master_key.len() != 32 {
        return Err(LoginError::InvalidMasterKey);
    }
    let mut master_key = [0u8; 32];
    let mut i: usize = 0;
    while i < 32
        invariant
            auth.master_key@.len() == 32,
            i <= 32,
            forall|k: int| 0 <= k < i ==> master_key@[k] == auth.master_key@[k],
        decreases 32 - i,
    {
        master_key[i] = auth.master_key[i];
        i = i + 1;
    }
    proof {
        assert(master_key@ =~= auth.master_key@);
    }
    let stretched_master_key = stretch_key(&master_key);
    let encrypted_user_key = match EncryptedString::parse(
        response.user_decryption_options.master_password_unlock.master_key_encrypted_user_key,
    ) {
        Ok(e) => e,
        Err(e) => {
            return Err(LoginError::Crypto(e));
        },
    };
    let user_key = match encrypted_user_key.decrypt(&stretched_master_key) {
        Ok(k) => k,
        Err(e) => {
            return Err(LoginError::Crypto(e));
        },
    };
    if user_key.len() < 64 {
        return Err(LoginError::KeyMaterialTooShort);
    }
    let stretched_user_key = key_from_bytes(user_key.as_slice());
    Ok(KeyStore { refresh_token: response.refresh_token, user_key: stretched_user_key })
}

impl PasswordLoginRequest {
    /// Answers a new-device challenge with the code the user received.
    pub fn set_new_device_otp(&mut self, code: String)
        ensures
            opt_view(final(self).new_device_otp) == Some(code@),
            final(self).email@ == old(self).email@,
            final(self).password@ == old(self).password@,
            opt_view(final(self).two_factor_token) == opt_view(old(self).two_factor_token),
            opt_view(final(self).two_factor_provider) == opt_view(old(self).two_factor_provider),
            final(self).two_factor_remember == old(self).two_factor_remember,
    {
        self.new_device_otp = Some(code);
    }

    /// Answers a two-factor challenge with an e-mailed code: provider `1` (e-mail),
    /// not remembered.
    pub fn set_email_two_factor(&mut self, code: String)
        ensures
            opt_view(final(self).two_factor_token) == Some(code@),
            opt_view(final(self).two_factor_provider) == Some("1"@),
            final(self).two_factor_remember == Some(false),
            final(self).email@ == old(self).email@,
            final(self).password@ == old(self).password@,
            opt_view(final(self).new_device_otp) == opt_view(old(self).new_device_otp),
    {
        self.two_factor_token = Some(code);
        self.two_factor_provider = Some("1".to_owned());
        self.two_factor_remember = Some(false);
    }
}

} // verus!
