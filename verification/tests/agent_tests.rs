use bw_ssh_agent::agent::{extension_outcome, ExtensionOutcome};
use ssh_agent_lib::proto::extension::SessionBind;
use bw_ssh_agent::agent::{
    identity_from_stored, sign_with_first_match, signing_filter, IdentityError, SignError,
};
use rand::rngs::OsRng;
use signature::Verifier;
use ssh_agent_lib::ssh_key::{Algorithm, HashAlg, LineEnding, PrivateKey, PublicKey, Signature};

fn ed25519_key() -> PrivateKey {
    let mut key = PrivateKey::random(&mut OsRng, Algorithm::Ed25519).unwrap();
    key.set_comment("own@host");
    key
}

fn attrs(pairs: &[(&str, &str)]) -> Option<Vec<(String, String)>> {
    Some(pairs.iter().map(|(k, v)| (k.to_string(), v.to_string())).collect())
}

#[test]
fn identity_uses_comment_attribute() {
    let key = ed25519_key();
    let text = key.public_key().to_openssh().unwrap();
    let (bytes, comment) = identity_from_stored(
        Some(text.into_bytes()),
        attrs(&[("type", "pub-key"), ("comment", "work laptop")]),
    )
    .unwrap()
    .unwrap();
    assert_eq!(bytes, key.public_key().to_bytes().unwrap());
    assert_eq!(comment, "work laptop");
}

#[test]
fn identity_falls_back_to_key_comment() {
    let key = ed25519_key();
    let text = key.public_key().to_openssh().unwrap();
    let (_, comment) = identity_from_stored(Some(text.into_bytes()), attrs(&[("type", "pub-key")]))
        .unwrap()
        .unwrap();
    assert_eq!(comment, "own@host");
}

#[test]
fn identity_skips_incomplete_items() {
    let key = ed25519_key();
    let text = key.public_key().to_openssh().unwrap();
    assert_eq!(identity_from_stored(Some(text.into_bytes()), None), Ok(None));
    assert_eq!(identity_from_stored(None, attrs(&[])), Ok(None));
}

#[test]
fn identity_errors() {
    assert_eq!(
        identity_from_stored(Some(vec![0xff, 0xfe]), attrs(&[])),
        Err(IdentityError::InvalidUtf8)
    );
    assert_eq!(
        identity_from_stored(Some(b"not a key".to_vec()), attrs(&[])),
        Err(IdentityError::InvalidPublicKey)
    );
}

#[test]
fn signing_filter_uses_sha256_fingerprint() {
    let key = ed25519_key();
    let bytes = key.public_key().to_bytes().unwrap();
    assert_eq!(
        signing_filter(&bytes).unwrap(),
        vec![
            ("type".to_string(), "pri-key".to_string()),
            ("fingerprint".to_string(), key.public_key().fingerprint(HashAlg::Sha256).to_string()),
        ]
    );
    assert_eq!(signing_filter(b"garbage"), None);
}

#[test]
fn sign_with_first_match_signs() {
    let key = ed25519_key();
    let pem = key.to_openssh(LineEnding::LF).unwrap();
    let data = b"challenge".to_vec();
    let (algorithm, bytes) =
        sign_with_first_match(Some(Some(pem.as_bytes().to_vec())), &data).unwrap();
    assert_eq!(algorithm, "ssh-ed25519");
    let signature = Signature::new(Algorithm::new(&algorithm).unwrap(), bytes.clone()).unwrap();
    let public: PublicKey = key.public_key().clone();
    assert!(Verifier::verify(&public, &data, &signature).is_ok());
    let again = sign_with_first_match(Some(Some(pem.as_bytes().to_vec())), &data).unwrap();
    assert_eq!(again.1, bytes);
}

#[test]
fn sign_with_first_match_errors() {
    assert_eq!(sign_with_first_match(None, b"x"), Err(SignError::NoMatchingKey));
    assert_eq!(sign_with_first_match(Some(None), b"x"), Err(SignError::NoPrivateKey));
    assert_eq!(
        sign_with_first_match(Some(Some(b"not a key".to_vec())), b"x"),
        Err(SignError::SigningFailed)
    );
}

fn session_bind_details(sign_what: &[u8]) -> Vec<u8> {
    let host = ed25519_key();
    let session_id = b"session-id".to_vec();
    let signature: Signature = signature::Signer::try_sign(&host, sign_what).unwrap();
    let bind = SessionBind {
        host_key: host.public_key().key_data().clone(),
        session_id,
        signature,
        is_forwarding: false,
    };
    ssh_agent_lib::proto::Extension::new_message(bind).unwrap().details.into_bytes()
}

#[test]
fn extension_outcomes() {
    assert_eq!(extension_outcome("query", b""), ExtensionOutcome::Query);
    assert_eq!(extension_outcome("other@example.com", b""), ExtensionOutcome::Failure);
    assert_eq!(extension_outcome("session-bind@openssh.com", b"\x00\x01"), ExtensionOutcome::Malformed);
    assert_eq!(
        extension_outcome("session-bind@openssh.com", &session_bind_details(b"session-id")),
        ExtensionOutcome::Bound
    );
    assert_eq!(
        extension_outcome("session-bind@openssh.com", &session_bind_details(b"something else")),
        ExtensionOutcome::BadSignature
    );
}
