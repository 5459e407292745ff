//! The records the Bitwarden servers exchange with this agent, as plain values.
use vstd::prelude::*;

verus! {

/// Where the API server is and the access token to use there.
pub struct ClientSettings {
    pub api_url: String,
    pub access_token: String,
}

/// Marks a response body that is read as JSON into a `T`.
pub struct Json<T>(pub T);

/// The body of a pre-login request.
#[derive(Debug)]
pub struct PreLoginRequest {
    pub email: String,
}

/// The key-derivation settings the server reports before login.
#[derive(Debug)]
pub struct PreLoginResponse {
    pub kdf: u32,
    /// The PBKDF2 round count; the server never sends zero.
    pub kdf_iterations: u32,
}

/// What a master password yields: the salt (the cleaned e-mail address), the hash
/// sent to the server, and the master key that unlocks the user key.
#[derive(Debug)]
pub struct MasterPasswordAuthenticationData {
    pub salt: String,
    pub master_password_authentication_hash: Vec<u8>,
    pub master_key: Vec<u8>,
}

/// A request to the identity server's token endpoint.
#[derive(Debug)]
pub struct ConnectTokenRequest {
    pub scope: Option<String>,
    pub client_id: String,
    pub device_type: Option<String>,
    pub device_identifier: Option<String>,
    pub device_name: Option<String>,
    pub grant_type: String,
    pub email: Option<String>,
    pub master_password_hash: Option<Vec<u8>>,
    pub refresh_token: Option<String>,
    pub two_factor_token: Option<String>,
    pub two_factor_provider: Option<String>,
    pub two_factor_remember: Option<bool>,
    pub new_device_otp: Option<String>,
}

/// Key-derivation settings inside a token response.
#[derive(Debug)]
pub struct Kdf {
    pub iterations: u32,
}

/// How the master password unlocks the user key.
#[derive(Debug)]
pub struct MasterPasswordUnlock {
    pub kdf: Kdf,
    pub master_key_encrypted_user_key: String,
    pub salt: String,
}

/// The ways the user key can be unlocked.
#[derive(Debug)]
pub struct UserDecryptionOptions {
    pub master_password_unlock: MasterPasswordUnlock,
}

/// A successful answer of the token endpoint to a password login.
#[derive(Debug)]
pub struct ConnectTokenSuccessResponse {
    pub private_key: String,
    pub user_decryption_options: UserDecryptionOptions,
    pub access_token: String,
    pub refresh_token: String,
}

/// A refusal of the token endpoint.
#[derive(Debug)]
pub struct ConnectTokenErrorResponse {
    pub error: String,
    pub error_description: String,
    pub two_factor_providers: Option<Vec<String>>,
    pub sso_email_2fa_session_token: Option<String>,
}

/// The answer of the token endpoint to a refresh.
#[derive(Debug)]
pub struct TokenResponse {
    pub access_token: String,
    pub refresh_token: String,
}

/// A request for a two-factor code by e-mail.
#[derive(Debug)]
pub struct SendTwoFactorEmailRequest {
    pub email: String,
    pub device_identifier: String,
    pub master_password_hash: Vec<u8>,
    pub otp: Option<String>,
    pub auth_request_access_code: Option<String>,
    pub secret: Option<String>,
    pub auth_request_id: Option<String>,
    pub sso_email2_fa_session_token: Option<String>,
}

/// The login part of a vault item.
#[derive(Debug)]
pub struct LoginItem {
    pub username: Option<String>,
    pub password: Option<String>,
}

/// The SSH-key part of a vault item; every field is an encrypted string.
#[derive(Debug)]
pub struct SSHKeyItem {
    pub key_fingerprint: String,
    pub private_key: String,
    pub public_key: String,
}

/// A vault item.
#[derive(Debug)]
pub struct Cipher {
    /// The item type (the `type` field on the wire).
    pub cipher_type: i32,
    pub id: String,
    pub name: String,
    pub login: Option<LoginItem>,
    pub ssh_key: Option<SSHKeyItem>,
    pub deleted_date: Option<String>,
    /// The item's own encryption key, encrypted with the user key.
    pub key: Option<String>,
    pub organization_id: Option<String>,
}

/// An organisation the user belongs to, with its key encrypted to the user's RSA key.
#[derive(Debug)]
pub struct Organization {
    pub id: String,
    pub key: String,
}

/// The user's profile: the RSA private key (encrypted with the user key) and the
/// organisations.
#[derive(Debug)]
pub struct Profile {
    pub private_key: String,
    pub organizations: Vec<Organization>,
}

/// The answer of the sync endpoint.
#[derive(Debug)]
pub struct SyncResponse {
    pub profile: Profile,
    pub ciphers: Vec<Cipher>,
}

} // verus!
