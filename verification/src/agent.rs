//! The SSH agent's own work: which stored keys it offers, which key signs a request,
//! and which extensions it answers.
use crate::primitives::string_from_utf8;
use crate::text::str_eq;
use crate::vault::{
    attr_lookup, lemma_attr_lookup_first, find_attribute, kind_text, pair_views, private_key_filter, string_views,
    SshKeyKind,
};
use signature::Signer;
use ssh_agent_lib::proto::extension::SessionBind;
use ssh_agent_lib::proto::Unparsed;
use ssh_agent_lib::ssh_key::{HashAlg, PrivateKey, PublicKey, Signature};
use vstd::prelude::*;
use vstd::utf8::*;

verus! {

/// The SSH agent that serves the keys of the vault.
#[derive(Debug, Default, Clone, Copy)]
pub struct Agent;

/// What an extension request asks for.
#[derive(Debug, Clone, Copy, PartialEq, Eq, Structural)]
pub enum ExtensionRequest {
    /// `query`: which extensions are supported.
    Query,
    /// `session-bind@openssh.com`: bind the session to a host key.
    SessionBind,
    /// Anything else, which fails.
    Unsupported,
}

/// The extension a name asks for.
pub open spec fn extension_request_spec(name: Seq<char>) -> ExtensionRequest {
    if name == "query"@ {
        ExtensionRequest::Query
    } else if name == "session-bind@openssh.com"@ {
        ExtensionRequest::SessionBind
    } else {
        ExtensionRequest::Unsupported
    }
}

impl Agent {
    /// Which extension the request named `name` asks for.
    pub fn extension_request(name: &str) -> (r: ExtensionRequest)
        ensures
            r == extension_request_spec(name@),
    {
        if str_eq(name, "query") {
            ExtensionRequest::Query
        } else if str_eq(name, "session-bind@openssh.com") {
            ExtensionRequest::SessionBind
        } else {
            ExtensionRequest::Unsupported
        }
    }

    /// The extensions the agent answers a `query` with: `query` and
    /// `session-bind@openssh.com`.
    pub fn supported_extensions() -> (r: Vec<String>)
        ensures
            string_views(r@) == seq!["query"@, "session-bind@openssh.com"@],
    {
        let mut v: Vec<String> = Vec::new();
        v.push("query".to_owned());
        v.push("session-bind@openssh.com".to_owned());
        proof {
            assert(string_views(v@) =~= seq!["query"@, "session-bind@openssh.com"@]);
        }
        v
    }
}


/// What `ssh_key::PublicKey::from_openssh` reads from an OpenSSH public key text: the
/// key's wire encoding and its comment; `None` where the text is not such a key.
pub uninterp spec fn openssh_public_key(text: Seq<char>) -> Option<(Seq<u8>, Seq<char>)>;

/// The SHA-256 fingerprint text (`SHA256:...`) of the public key whose wire encoding
/// is `key`; `None` where the bytes are not a public key.
pub uninterp spec fn openssh_sha256_fingerprint(key: Seq<u8>) -> Option<Seq<char>>;

/// The signature that the OpenSSH private key text `private_key` makes over `data`:
/// its algorithm name and its bytes; `None` where the key cannot be read or cannot sign.
pub uninterp spec fn openssh_signature(private_key: Seq<u8>, data: Seq<u8>) -> Option<
    (Seq<char>, Seq<u8>),
>;

/// `ssh_key::PublicKey::from_openssh`, then `PublicKey::to_bytes` and
/// `PublicKey::comment`. Claimed: the outcome is a function of the text alone.
#[verifier::external_body]
fn parse_openssh_public_key(text: &str) -> (r: Option<(Vec<u8>, String)>)
    ensures
        r is Some <==> openssh_public_key(text@) is Some,
        r matches Some(p) ==> openssh_public_key(text@) == Some((p.0@, p.1@)),
{
    match PublicKey::from_openssh(text) {
        Ok(pk) => match pk.to_bytes() {
            Ok(bytes) => Some((bytes, pk.comment().to_string())),
            Err(_) => None,
        },
        Err(_) => None,
    }
}

/// `ssh_key::PublicKey::from_bytes`, then `fingerprint(HashAlg::Sha256)` as text.
/// Claimed: the outcome is a function of the bytes alone.
#[verifier::external_body]
fn key_fingerprint_sha256(key: &[u8]) -> (r: Option<String>)
    ensures
        r is Some <==> openssh_sha256_fingerprint(key@) is Some,
        r matches Some(f) ==> openssh_sha256_fingerprint(key@) == Some(f@),
{
    match PublicKey::from_bytes(key) {
        Ok(pk) => Some(pk.fingerprint(HashAlg::Sha256).to_string()),
        Err(_) => None,
    }
}

/// `ssh_key::PrivateKey::from_openssh`, then `signature::Signer::try_sign` into an
/// `ssh_key::Signature`, given as its algorithm name and bytes. Claimed: the outcome
/// is a function of the key text and the data; the algorithms that `ssh-key` signs
/// with here (Ed25519, RSA PKCS#1 v1.5 with SHA-512, ECDSA with RFC 6979 nonces) are
/// deterministic.
#[verifier::external_body]
fn sign_with_openssh_key(private_key: &[u8], data: &[u8]) -> (r: Option<(String, Vec<u8>)>)
    ensures
        r is Some <==> openssh_signature(private_key@, data@) is Some,
        r matches Some(s) ==> openssh_signature(private_key@, data@) == Some((s.0@, s.1@)),
{
    match PrivateKey::from_openssh(private_key) {
        Ok(key) => match Signer::<Signature>::try_sign(&key, data) {
            Ok(signature) => Some(
                (signature.algorithm().as_str().to_string(), signature.as_bytes().to_vec()),
            ),
            Err(_) => None,
        },
        Err(_) => None,
    }
}

/// Why a stored public key could not be offered; either failure ends the listing.
#[derive(Debug, Clone, Copy, PartialEq, Eq, Structural)]
pub enum IdentityError {
    /// The stored value is not UTF-8 text.
    InvalidUtf8,
    /// The stored text is not an OpenSSH public key.
    InvalidPublicKey,
}

/// What a stored public half offers: nothing when its value or its attributes are
/// missing; otherwise the key, named by its `comment` attribute when it has one and
/// else by the key's own comment.
pub open spec fn identity_spec(
    value: Option<Seq<u8>>,
    attributes: Option<Seq<(Seq<char>, Seq<char>)>>,
) -> Result<Option<(Seq<u8>, Seq<char>)>, IdentityError> {
    match (value, attributes) {
        (Some(v), Some(a)) => if !valid_utf8(v) {
            Err(IdentityError::InvalidUtf8)
        } else {
            match openssh_public_key(decode_utf8(v)) {
                None => Err(IdentityError::InvalidPublicKey),
                Some(key) => Ok(
                    Some(
                        (
                            key.0,
                            match attr_lookup(a, "comment"@) {
                                Some(c) => c,
                                None => key.1,
                            },
                        ),
                    ),
                ),
            }
        },
        _ => Ok(None),
    }
}

/// An identity result as plain sequences.
pub open spec fn identity_result(r: Result<Option<(Vec<u8>, String)>, IdentityError>) -> Result<
    Option<(Seq<u8>, Seq<char>)>,
    IdentityError,
> {
    match r {
        Ok(Some(p)) => Ok(Some((p.0@, p.1@))),
        Ok(None) => Ok(None),
        Err(e) => Err(e),
    }
}

/// An optional byte string.
pub open spec fn opt_bytes_view(v: Option<Vec<u8>>) -> Option<Seq<u8>> {
    match v {
        Some(b) => Some(b@),
        None => None,
    }
}

/// An optional attribute list as texts.
pub open spec fn opt_pairs_view(v: Option<Vec<(String, String)>>) -> Option<Seq<(Seq<char>, Seq<char>)>> {
    match v {
        Some(a) => Some(pair_views(a@)),
        None => None,
    }
}

/// The identity (key wire bytes and comment) that a stored public half offers.
pub fn identity_from_stored(value: Option<Vec<u8>>, attributes: Option<Vec<(String, String)>>) -> (r:
    Result<Option<(Vec<u8>, String)>, IdentityError>)
    ensures
        identity_result(r) == identity_spec(opt_bytes_view(value), opt_pairs_view(attributes)),
{
    match (value, attributes) {
        (Some(v), Some(a)) => {
            let text = match string_from_utf8(v) {
                Ok(t) => t,
                Err(_) => {
                    return Err(IdentityError::InvalidUtf8);
                },
            };
            match parse_openssh_public_key(text.as_str()) {
                None => Err(IdentityError::InvalidPublicKey),
                Some((key, own_comment)) => {
                    let comment = match find_attribute(&a, "comment") {
                        Some(c) => c,
                        None => own_comment,
                    };
                    Ok(Some((key, comment)))
                },
            }
        },
        _ => Ok(None),
    }
}

/// The search for the private half that signs for the public key whose wire
/// encoding is `key`: by the key's SHA-256 fingerprint. `None` where the bytes are
/// not a public key.
pub fn signing_filter(key: &[u8]) -> (r: Option<Vec<(String, String)>>)
    ensures
        match openssh_sha256_fingerprint(key@) {
            None => r is None,
            Some(f) => r matches Some(v) && pair_views(v@) == seq![
                ("type"@, kind_text(SshKeyKind::Private)),
                ("fingerprint"@, f),
            ],
        },
{
    match key_fingerprint_sha256(key) {
        None => None,
        Some(fingerprint) => Some(private_key_filter(fingerprint.as_str())),
    }
}

/// Why a sign request was refused.
#[derive(Debug, Clone, Copy, PartialEq, Eq, Structural)]
pub enum SignError {
    /// No stored private half matches the request's key.
    NoMatchingKey,
    /// The matching item holds no value.
    NoPrivateKey,
    /// The stored private key could not be read or could not sign.
    SigningFailed,
}

/// What a sign request gives, from what the store holds under the first matching
/// item (`None`: no item matches; `Some(None)`: the item has no value).
pub open spec fn sign_spec(found: Option<Option<Seq<u8>>>, data: Seq<u8>) -> Result<
    (Seq<char>, Seq<u8>),
    SignError,
> {
    match found {
        None => Err(SignError::NoMatchingKey),
        Some(None) => Err(SignError::NoPrivateKey),
        Some(Some(key)) => match openssh_signature(key, data) {
            Some(s) => Ok(s),
            None => Err(SignError::SigningFailed),
        },
    }
}

/// The first matching item's stored value, as plain bytes.
pub open spec fn found_view(found: Option<Option<Vec<u8>>>) -> Option<Option<Seq<u8>>> {
    match found {
        None => None,
        Some(v) => Some(opt_bytes_view(v)),
    }
}

/// A signing result as plain sequences.
pub open spec fn sign_result(r: Result<(String, Vec<u8>), SignError>) -> Result<
    (Seq<char>, Seq<u8>),
    SignError,
> {
    match r {
        Ok(s) => Ok((s.0@, s.1@)),
        Err(e) => Err(e),
    }
}

/// Signs `data` with the private key stored under the first matching item.
pub fn sign_with_first_match(found: Option<Option<Vec<u8>>>, data: &[u8]) -> (r: Result<
    (String, Vec<u8>),
    SignError,
>)
    ensures
        sign_result(r) == sign_spec(found_view(found), data@),
{
    match found {
        None => Err(SignError::NoMatchingKey),
        Some(None) => Err(SignError::NoPrivateKey),
        Some(Some(key)) => match sign_with_openssh_key(key.as_slice(), data) {
            Some(s) => Ok(s),
            None => Err(SignError::SigningFailed),
        },
    }
}


/// What checking a `session-bind@openssh.com` request with these details gives:
/// `None` where they do not decode as a session binding, otherwise whether the
/// server's signature of the session id verifies under the host key.
pub uninterp spec fn session_bind_check(details: Seq<u8>) -> Option<bool>;

/// `ssh_agent_lib::proto::Unparsed::parse::<SessionBind>` over the details, then
/// `SessionBind::verify_signature`. Claimed: the outcome is a function of the bytes.
#[verifier::external_body]
fn check_session_bind(details: &[u8]) -> (r: Option<bool>)
    ensures
        r == session_bind_check(details@),
{
    match Unparsed::from(details.to_vec()).parse::<SessionBind>() {
        Ok(bind) => Some(bind.verify_signature().is_ok()),
        Err(_) => None,
    }
}

/// How the agent answers an extension request.
#[derive(Debug, Clone, Copy, PartialEq, Eq, Structural)]
pub enum ExtensionOutcome {
    /// Answer with the supported extensions.
    Query,
    /// The session is bound: answer with success.
    Bound,
    /// The binding's signature does not verify: an extension failure.
    BadSignature,
    /// The binding cannot be decoded: a failure.
    Malformed,
    /// The extension is not supported: a failure.
    Failure,
}

/// The answer to an extension request named `name` with these details.
pub open spec fn extension_outcome_spec(name: Seq<char>, details: Seq<u8>) -> ExtensionOutcome {
    match extension_request_spec(name) {
        ExtensionRequest::Query => ExtensionOutcome::Query,
        ExtensionRequest::SessionBind => match session_bind_check(details) {
            Some(true) => ExtensionOutcome::Bound,
            Some(false) => ExtensionOutcome::BadSignature,
            None => ExtensionOutcome::Malformed,
        },
        ExtensionRequest::Unsupported => ExtensionOutcome::Failure,
    }
}

/// Decides the answer to an extension request.
pub fn extension_outcome(name: &str, details: &[u8]) -> (r: ExtensionOutcome)
    ensures
        r == extension_outcome_spec(name@, details@),
{
    match Agent::extension_request(name) {
        ExtensionRequest::Query => ExtensionOutcome::Query,
        ExtensionRequest::SessionBind => match check_session_bind(details) {
            Some(true) => ExtensionOutcome::Bound,
            Some(false) => ExtensionOutcome::BadSignature,
            None => ExtensionOutcome::Malformed,
        },
        ExtensionRequest::Unsupported => ExtensionOutcome::Failure,
    }
}


/// The identity offered for a stored public half that is a valid OpenSSH key text is
/// that key, named by the value of its first `comment` attribute, whatever other
/// attributes (item id, fingerprint, type) it carries; without a `comment` attribute
/// it keeps the key's own comment. A half without a value or without attributes
/// offers nothing.
pub proof fn lemma_identity_named_by_comment(
    value: Seq<u8>,
    attributes: Seq<(Seq<char>, Seq<char>)>,
    j: int,
)
    requires
        valid_utf8(value),
        openssh_public_key(decode_utf8(value)) is Some,
    ensures
        ({
            let key = openssh_public_key(decode_utf8(value))->0;
            &&& (0 <= j < attributes.len() && attributes[j].0 == "comment"@ && (forall|k: int|
                0 <= k < j ==> attributes[k].0 != "comment"@)) ==> identity_spec(
                Some(value),
                Some(attributes),
            ) == Ok::<Option<(Seq<u8>, Seq<char>)>, IdentityError>(Some((key.0, attributes[j].1)))
            &&& (forall|k: int| 0 <= k < attributes.len() ==> attributes[k].0 != "comment"@)
                ==> identity_spec(Some(value), Some(attributes)) == Ok::<
                Option<(Seq<u8>, Seq<char>)>,
                IdentityError,
            >(Some(key))
            &&& identity_spec(Some(value), None) == Ok::<
                Option<(Seq<u8>, Seq<char>)>,
                IdentityError,
            >(None)
            &&& identity_spec(None, Some(attributes)) == Ok::<
                Option<(Seq<u8>, Seq<char>)>,
                IdentityError,
            >(None)
        }),
{
    lemma_attr_lookup_first(attributes, "comment"@);
    if 0 <= j < attributes.len() && attributes[j].0 == "comment"@ && (forall|k: int|
        0 <= k < j ==> attributes[k].0 != "comment"@) {
        assert(attr_lookup(attributes, "comment"@) == Some(attributes[j].1));
    }
}

/// A stored half is offered only when its value is an OpenSSH public key text, and
/// then with that key's bytes.
pub proof fn lemma_identity_is_stored_key(
    value: Option<Seq<u8>>,
    attributes: Option<Seq<(Seq<char>, Seq<char>)>>,
)
    ensures
        identity_spec(value, attributes) matches Ok(Some(id)) ==> (value is Some && attributes
            is Some && valid_utf8(value->0) && openssh_public_key(decode_utf8(value->0)) is Some
            && id.0 == (openssh_public_key(decode_utf8(value->0))->0).0),
{
}


/// A sign request is answered with a signature only when a matching item holds a
/// private key, and the signature is then that key's signature of exactly the
/// request's data; no matching item, an empty item and a key that cannot sign each
/// give their own refusal.
pub proof fn lemma_sign_law(found: Option<Option<Seq<u8>>>, data: Seq<u8>)
    ensures
        sign_spec(found, data) matches Ok(sig) ==> (found matches Some(Some(k)) && openssh_signature(
            k,
            data,
        ) == Some(sig)),
        found is None ==> sign_spec(found, data) == Err::<(Seq<char>, Seq<u8>), SignError>(
            SignError::NoMatchingKey,
        ),
        found == Some(None::<Seq<u8>>) ==> sign_spec(found, data) == Err::<
            (Seq<char>, Seq<u8>),
            SignError,
        >(SignError::NoPrivateKey),
        found matches Some(Some(k)) ==> (openssh_signature(k, data) is None <==> sign_spec(found, data)
            == Err::<(Seq<char>, Seq<u8>), SignError>(SignError::SigningFailed)),
{
}

/// Only a `session-bind@openssh.com` request whose binding decodes and whose server
/// signature verifies binds the session; `query` is always answered, and every other
/// name fails.
pub proof fn lemma_extension_law(name: Seq<char>, details: Seq<u8>)
    ensures
        extension_outcome_spec(name, details) == ExtensionOutcome::Bound <==> (name
            == "session-bind@openssh.com"@ && session_bind_check(details) == Some(true)),
        extension_outcome_spec(name, details) == ExtensionOutcome::Query <==> name == "query"@,
        (name != "query"@ && name != "session-bind@openssh.com"@) ==> extension_outcome_spec(
            name,
            details,
        ) == ExtensionOutcome::Failure,
{
    reveal_strlit("query");
    reveal_strlit("session-bind@openssh.com");
    assert(("query"@).len() != ("session-bind@openssh.com"@).len());
}

} // verus!
