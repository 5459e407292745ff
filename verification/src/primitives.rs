//! The calls this library makes into the cryptographic and encoding crates it builds
//! on, and into parts of std that vstd does not describe, each with the contract
//! that the rest of the library is proved against.
use aes::cipher::block_padding::Pkcs7;
use aes::cipher::generic_array::GenericArray;
use aes::cipher::{BlockDecryptMut, KeyIvInit};
use base64::prelude::BASE64_STANDARD;
use base64::Engine;
use ctutils::CtEq;
use hmac::{Hmac, Mac};
use sha2::Sha256;
use vstd::prelude::*;
use vstd::utf8::*;

verus! {

#[verifier::external_type_specification]
#[verifier::external_body]
pub struct ExBase64DecodeError(base64::DecodeError);

#[verifier::external_type_specification]
#[verifier::external_body]
pub struct ExBase64DecodeSliceError(base64::DecodeSliceError);

#[verifier::external_type_specification]
#[verifier::external_body]
pub struct ExUnpadError(aes::cipher::block_padding::UnpadError);

#[verifier::external_type_specification]
#[verifier::external_body]
pub struct ExFromUtf8Error(std::string::FromUtf8Error);

/// What standard base64 (RFC 4648 alphabet, padded) decoding makes of `input`,
/// or `None` where `input` is not valid base64.
pub uninterp spec fn base64_standard_decode(input: Seq<u8>) -> Option<Seq<u8>>;

/// The standard base64 (RFC 4648 alphabet, padded) text of `data`.
pub uninterp spec fn base64_standard_encode(data: Seq<u8>) -> Seq<char>;

/// HMAC-SHA256 of `message` under `key`.
pub uninterp spec fn hmac_sha256(key: Seq<u8>, message: Seq<u8>) -> Seq<u8>;

/// AES-256-CBC decryption of `ciphertext` under `key` and `iv`, with the PKCS#7
/// padding removed; `None` where the length is not a multiple of the block size or
/// the padding is malformed.
pub uninterp spec fn aes256_cbc_pkcs7_decrypt(key: Seq<u8>, iv: Seq<u8>, ciphertext: Seq<u8>) -> Option<Seq<u8>>;

/// The 32 bytes that PBKDF2-HMAC-SHA256 derives from `password` and `salt` in `rounds` rounds.
pub uninterp spec fn pbkdf2_hmac_sha256_32(password: Seq<u8>, salt: Seq<u8>, rounds: u32) -> Seq<u8>;

/// `String::from_utf8_lossy`: the text of `bytes`, each invalid sequence replaced by U+FFFD.
pub uninterp spec fn utf8_lossy(bytes: Seq<u8>) -> Seq<char>;

/// `str::trim`: the text without its leading and trailing white space.
pub uninterp spec fn str_trim(s: Seq<char>) -> Seq<char>;

/// `str::to_lowercase`: the text with every character replaced by its Unicode lowercase mapping.
pub uninterp spec fn str_to_lowercase(s: Seq<char>) -> Seq<char>;

/// `base64::Engine::decode` with the standard engine. Claimed: it succeeds exactly
/// where `input` is valid base64, and gives back the decoded bytes.
#[verifier::external_body]
pub(crate) fn base64_decode(input: &[u8]) -> (r: Result<Vec<u8>, base64::DecodeError>)
    ensures
        r is Ok <==> base64_standard_decode(input@) is Some,
        r matches Ok(v) ==> base64_standard_decode(input@) == Some(v@),
{
    BASE64_STANDARD.decode(input)
}

/// `base64::Engine::decode_slice` with the standard engine, into a buffer of `N`
/// bytes. Claimed: it decodes as `decode` does, succeeds exactly where the input is
/// valid and its decoding fits in `N` bytes, then returns the decoded length and
/// has written the decoding at the front of the buffer.
#[verifier::external_body]
pub(crate) fn base64_decode_into<const N: usize>(input: &[u8], out: &mut [u8; N]) -> (r: Result<
    usize,
    base64::DecodeSliceError,
>)
    ensures
        r is Ok <==> (base64_standard_decode(input@) is Some && base64_standard_decode(
            input@,
        )->0.len() <= N),
        r matches Ok(n) ==> n == base64_standard_decode(input@)->0.len() && final(out)@.take(
            n as int,
        ) == base64_standard_decode(input@)->0,
{
    BASE64_STANDARD.decode_slice(input, out)
}

/// `base64::Engine::encode` with the standard engine: the base64 text of `data`.
/// Claimed besides: decoding that text (its UTF-8 bytes) gives back `data`, the
/// round trip that the crate documents.
#[verifier::external_body]
pub(crate) fn base64_encode(data: &[u8]) -> (r: String)
    ensures
        r@ == base64_standard_encode(data@),
        base64_standard_decode(encode_utf8(r@)) == Some(data@),
{
    BASE64_STANDARD.encode(data)
}

/// HMAC-SHA256 (`hmac::Hmac<sha2::Sha256>`) keyed with `mac_key`, fed `iv` and then
/// `data`. Claimed: the 32-byte tag of `iv` followed by `data` (an HMAC accepts a key
/// of any length, so the key setup cannot fail).
#[verifier::external_body]
pub(crate) fn generate_mac(mac_key: &[u8], iv: &[u8], data: &[u8]) -> (r: [u8; 32])
    ensures
        r@ == hmac_sha256(mac_key@, iv@ + data@),
{
    let mut hmac: Hmac<Sha256> = <Hmac<Sha256> as Mac>::new_from_slice(mac_key).expect(
        "HMAC accepts keys of any length",
    );
    hmac.update(iv);
    hmac.update(data);
    let mac: [u8; 32] = (*hmac.finalize().into_bytes()).try_into().expect(
        "SHA256 output is 32 bytes",
    );
    mac
}

/// `ctutils::CtEq::ct_ne` on two 32-byte arrays, as a `bool`: whether they differ.
#[verifier::external_body]
pub(crate) fn ct_ne_32(a: &[u8; 32], b: &[u8; 32]) -> (r: bool)
    ensures
        r == (a@ != b@),
{
    a.ct_ne(b).into()
}

/// `cbc::Decryptor::<aes::Aes256>::decrypt_padded_mut::<Pkcs7>` over `buf`, in place.
/// Claimed: it fails exactly where AES-256-CBC-PKCS#7 decryption fails; otherwise
/// the plaintext stands at the front of `buf` and its length is returned. The buffer
/// keeps its length.
#[verifier::external_body]
pub(crate) fn aes256_cbc_decrypt_in_place(key: &[u8; 32], iv: &[u8; 16], buf: &mut Vec<u8>) -> (r:
    Result<usize, aes::cipher::block_padding::UnpadError>)
    ensures
        final(buf)@.len() == old(buf)@.len(),
        r is Ok <==> aes256_cbc_pkcs7_decrypt(key@, iv@, old(buf)@) is Some,
        r matches Ok(n) ==> n <= old(buf)@.len() && final(buf)@.take(n as int)
            == aes256_cbc_pkcs7_decrypt(key@, iv@, old(buf)@)->0,
{
    cbc::Decryptor::<aes::Aes256>::new(GenericArray::from_slice(key), GenericArray::from_slice(iv))
        .decrypt_padded_mut::<Pkcs7>(buf.as_mut_slice())
        .map(|plaintext| plaintext.len())
}

/// `pbkdf2::pbkdf2_hmac_array::<Sha256, 32>`: the key derived from `password` and `salt`.
#[verifier::external_body]
pub(crate) fn pbkdf2_sha256(password: &[u8], salt: &[u8], rounds: u32) -> (r: [u8; 32])
    ensures
        r@ == pbkdf2_hmac_sha256_32(password@, salt@, rounds),
{
    pbkdf2::pbkdf2_hmac_array::<Sha256, 32>(password, salt, rounds)
}

/// `String::from_utf8_lossy`, made an owned `String`. Claimed: valid UTF-8 comes back
/// as the text it encodes.
#[verifier::external_body]
pub(crate) fn string_from_utf8_lossy(bytes: &[u8]) -> (r: String)
    ensures
        r@ == utf8_lossy(bytes@),
        valid_utf8(bytes@) ==> r@ == decode_utf8(bytes@),
{
    String::from_utf8_lossy(bytes).into_owned()
}

/// `String::from_utf8`: fails exactly where the bytes are not valid UTF-8, and
/// otherwise gives the text they encode.
#[verifier::external_body]
pub(crate) fn string_from_utf8(bytes: Vec<u8>) -> (r: Result<String, std::string::FromUtf8Error>)
    ensures
        r is Ok <==> valid_utf8(bytes@),
        r matches Ok(s) ==> s@ == decode_utf8(bytes@),
{
    String::from_utf8(bytes)
}

/// `str::trim`.
pub assume_specification<'a>[ str::trim ](s: &'a str) -> (r: &'a str)
    ensures
        r@ == str_trim(s@),
;

/// `str::to_lowercase`.
pub assume_specification[ str::to_lowercase ](s: &str) -> (r: String)
    ensures
        r@ == str_to_lowercase(s@),
;

} // verus!
