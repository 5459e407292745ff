//! Key stretching and the decryption of single vault fields.
use crate::enc_string::{bytes_result, spec_parse, CryptoError, CryptoKey, EncryptedString};
use crate::primitives::{string_from_utf8_lossy, utf8_lossy};
use crate::symmetric::Aes256CbcHmacKey;
use hkdf::Hkdf;
use sha2::Sha256;
use vstd::prelude::*;
use vstd::string::*;
use vstd::utf8::*;

verus! {

/// Why HKDF-Expand failed.
#[derive(Debug, Clone, Copy, PartialEq, Eq, Structural)]
pub enum HkdfExpandError {
    /// The pseudorandom key is shorter than the hash output.
    InvalidInputLength,
    /// Too much output was asked for.
    InvalidOutputLength,
}

/// The 32 bytes of HKDF-SHA256-Expand of the pseudorandom key `prk` with `info`.
pub uninterp spec fn hkdf_sha256_expand_32(prk: Seq<u8>, info: Seq<u8>) -> Seq<u8>;

/// `hkdf::Hkdf::<Sha256>::from_prk` followed by `expand` into 32 bytes. Claimed, as the
/// source shows: `from_prk` refuses a key shorter than the 32-byte hash output, and
/// `expand` only refuses more than 255 hash outputs, so 32 bytes always succeed.
#[verifier::external_body]
fn hkdf_sha256_expand_into(prk: &[u8], info: &[u8], okm: &mut [u8; 32]) -> (r: Result<
    (),
    HkdfExpandError,
>)
    ensures
        r is Ok <==> prk@.len() >= 32,
        r matches Err(e) ==> e == HkdfExpandError::InvalidInputLength,
        r is Ok ==> final(okm)@ == hkdf_sha256_expand_32(prk@, info@),
{
    let hkdf = Hkdf::<Sha256>::from_prk(prk).map_err(|_| HkdfExpandError::InvalidInputLength)?;
    hkdf.expand(info, okm).map_err(|_| HkdfExpandError::InvalidOutputLength)
}

/// The bytes of an optional info text; none is the empty string.
pub open spec fn info_bytes(info: Option<Seq<char>>) -> Seq<u8> {
    match info {
        Some(i) => encode_utf8(i),
        None => Seq::<u8>::empty(),
    }
}

/// The text of an optional string slice.
pub open spec fn opt_str_view(info: Option<&str>) -> Option<Seq<char>> {
    match info {
        Some(i) => Some(i@),
        None => None,
    }
}

/// HKDF-SHA256-Expand of `prk` with the bytes of `info` into 32 bytes.
pub fn hkdf_expand(prk: &[u8], info: Option<&str>) -> (r: Result<[u8; 32], HkdfExpandError>)
    ensures
        r is Ok <==> prk@.len() >= 32,
        r matches Err(e) ==> e == HkdfExpandError::InvalidInputLength,
        r matches Ok(k) ==> k@ == hkdf_sha256_expand_32(prk@, info_bytes(opt_str_view(info))),
{
    let mut key = [0u8; 32];
    let empty: [u8; 0] = [];
    let i: &[u8] = match info {
        Some(i) => i.as_bytes(),
        None => empty.as_slice(),
    };
    proof {
        assert(i@ == info_bytes(opt_str_view(info)));
    }
    match hkdf_sha256_expand_into(prk, i, &mut key) {
        Ok(()) => Ok(key),
        Err(e) => Err(e),
    }
}

/// The bytes of the text `enc`.
pub open spec fn enc_info() -> Seq<u8> {
    encode_utf8(seq!['e', 'n', 'c'])
}

/// The bytes of the text `mac`.
pub open spec fn mac_info() -> Seq<u8> {
    encode_utf8(seq!['m', 'a', 'c'])
}

/// Stretches a 32-byte key into an encryption key (info `enc`) and a MAC key
/// (info `mac`), each by HKDF-SHA256-Expand. Cannot fail: the key is long enough.
pub fn stretch_key(key: &[u8; 32]) -> (r: Aes256CbcHmacKey)
    ensures
        r.enc_key@ == hkdf_sha256_expand_32(key@, enc_info()),
        r.mac_key@ == hkdf_sha256_expand_32(key@, mac_info()),
{
    proof {
        reveal_strlit("enc");
        reveal_strlit("mac");
        assert("enc"@ =~= seq!['e', 'n', 'c']);
        assert("mac"@ =~= seq!['m', 'a', 'c']);
    }
    let enc_key = match hkdf_expand(key.as_slice(), Some("enc")) {
        Ok(k) => k,
        Err(_) => {
            proof {
                assert(false);
            }
            [0u8; 32]
        },
    };
    let mac_key = match hkdf_expand(key.as_slice(), Some("mac")) {
        Ok(k) => k,
        Err(_) => {
            proof {
                assert(false);
            }
            [0u8; 32]
        },
    };
    Aes256CbcHmacKey { enc_key, mac_key }
}

/// What decrypting the encrypted-string text `field` with `key` gives: a parse
/// error, or whatever the key makes of the parsed payload.
pub open spec fn decrypt_field_spec<K: CryptoKey + ?Sized>(field: Seq<char>, key: &K) -> Result<
    Seq<u8>,
    CryptoError,
> {
    match spec_parse(field) {
        Ok(payload) => key.decrypt_spec(payload),
        Err(e) => Err(e),
    }
}

/// Parses the encrypted-string text `field` and decrypts it with `key`.
pub fn decrypt_field<K: CryptoKey + ?Sized>(field: String, key: &K) -> (r: Result<Vec<u8>, CryptoError>)
    ensures
        bytes_result(r) == decrypt_field_spec(field@, key),
{
    match EncryptedString::parse(field) {
        Ok(enc) => enc.decrypt(key),
        Err(e) => Err(e),
    }
}

/// A text result as plain sequences.
pub open spec fn text_result(r: Result<String, CryptoError>) -> Result<Seq<char>, CryptoError> {
    match r {
        Ok(s) => Ok(s@),
        Err(e) => Err(e),
    }
}

/// What [`decrypt_field_as_string`] gives: the decrypted bytes read as UTF-8, with
/// invalid sequences replaced.
pub open spec fn decrypt_field_as_string_spec<K: CryptoKey + ?Sized>(field: Seq<char>, key: &K) -> Result<
    Seq<char>,
    CryptoError,
> {
    match decrypt_field_spec(field, key) {
        Ok(bytes) => Ok(utf8_lossy(bytes)),
        Err(e) => Err(e),
    }
}

/// Decrypts `field` with `key` and reads the plaintext as (lossy) UTF-8 text.
pub fn decrypt_field_as_string<K: CryptoKey + ?Sized>(field: String, key: &K) -> (r: Result<
    String,
    CryptoError,
>)
    ensures
        text_result(r) == decrypt_field_as_string_spec(field@, key),
        r matches Ok(s) ==> (valid_utf8(decrypt_field_spec(field@, key)->Ok_0) ==> s@ == decode_utf8(
            decrypt_field_spec(field@, key)->Ok_0,
        )),
{
    let ghost text = field@;
    match decrypt_field(field, key) {
        Ok(bytes) => {
            assert(decrypt_field_spec(text, key) == Ok::<Seq<u8>, CryptoError>(bytes@));
            Ok(string_from_utf8_lossy(bytes.as_slice()))
        },
        Err(e) => Err(e),
    }
}

} // verus!
