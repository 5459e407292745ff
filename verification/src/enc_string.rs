//! Bitwarden's encrypted-string format: `<type>.<part>|<part>|...`, each part base64.
use crate::primitives::{base64_decode, base64_decode_into, base64_standard_decode};
use crate::text::{split_chars, split_str, str_eq, str_views};
use vstd::prelude::*;
use vstd::utf8::*;

verus! {

/// Why an encrypted string could not be parsed or decrypted.
#[derive(Debug, Clone, Copy, PartialEq, Eq, Structural)]
pub enum CryptoError {
    /// The type header and the number of parts name no supported format.
    InvalidType,
    /// A part is not valid base64, or does not fit the field it is decoded into.
    InvalidBase64,
    /// The initialisation vector does not decode to 16 bytes.
    InvalidIvLength,
    /// The MAC does not decode to 32 bytes.
    InvalidMacLength,
    /// The MAC does not match the ciphertext.
    MacMismatch,
    /// The key cannot decrypt this kind of encrypted string.
    UnsupportedPayload,
    /// The decrypted data has malformed padding (or the ciphertext is not whole blocks).
    InvalidPadding,
    /// RSA-OAEP decryption failed.
    RsaDecryption,
    /// The bytes are not a PKCS#8 DER RSA private key.
    InvalidRsaKey,
}

/// A parsed encrypted string.
#[derive(Debug)]
pub enum EncryptedString {
    /// Type 2: AES-256-CBC with an HMAC-SHA256 over the IV and the ciphertext.
    Aes256cbcHmacSha256 { iv: [u8; 16], mac: [u8; 32], data: Vec<u8> },
    /// Type 4: RSA-2048 with OAEP padding over SHA-1.
    Rsa2048OaepSha1 { data: Vec<u8> },
}

/// The contents of an [`EncryptedString`] as plain byte sequences.
pub enum EncryptedStringModel {
    Aes256cbcHmacSha256 { iv: Seq<u8>, mac: Seq<u8>, data: Seq<u8> },
    Rsa2048OaepSha1 { data: Seq<u8> },
}

impl View for EncryptedString {
    type V = EncryptedStringModel;

    open spec fn view(&self) -> EncryptedStringModel {
        match self {
            EncryptedString::Aes256cbcHmacSha256 { iv, mac, data } => {
                EncryptedStringModel::Aes256cbcHmacSha256 { iv: iv@, mac: mac@, data: data@ }
            },
            EncryptedString::Rsa2048OaepSha1 { data } => EncryptedStringModel::Rsa2048OaepSha1 {
                data: data@,
            },
        }
    }
}

/// A key that can decrypt (some kinds of) encrypted strings.
pub trait CryptoKey {
    /// What decrypting `payload` with this key gives.
    spec fn decrypt_spec(&self, payload: EncryptedStringModel) -> Result<Seq<u8>, CryptoError>;

    fn decrypt(&self, payload: &EncryptedString) -> (r: Result<Vec<u8>, CryptoError>)
        ensures
            bytes_result(r) == self.decrypt_spec(payload@),
    ;
}

/// A byte result as plain sequences.
pub open spec fn bytes_result(r: Result<Vec<u8>, CryptoError>) -> Result<Seq<u8>, CryptoError> {
    match r {
        Ok(v) => Ok(v@),
        Err(e) => Err(e),
    }
}

/// A parse result as plain sequences.
pub open spec fn parsed_result(r: Result<EncryptedString, CryptoError>) -> Result<
    EncryptedStringModel,
    CryptoError,
> {
    match r {
        Ok(e) => Ok(e@),
        Err(e) => Err(e),
    }
}

/// The type header and the parts of an encrypted string. With a `.` the header is
/// what stands before it; without one, three `|`-separated parts are the legacy
/// type `1` and anything else the legacy type `0`.
pub open spec fn spec_split_enc_string(s: Seq<char>) -> (Seq<char>, Seq<Seq<char>>) {
    let header = split_chars(s, '.');
    if header.len() == 2 {
        (header[0], split_chars(header[1], '|'))
    } else {
        let parts = split_chars(s, '|');
        if parts.len() == 3 {
            (seq!['1'], parts)
        } else {
            (seq!['0'], parts)
        }
    }
}

/// The base64 decoding of a part's text.
pub open spec fn decode_part(part: Seq<char>) -> Option<Seq<u8>> {
    base64_standard_decode(encode_utf8(part))
}

/// Whether a part decodes to at most `n` bytes.
pub open spec fn part_fits(part: Seq<char>, n: nat) -> bool {
    decode_part(part) is Some && decode_part(part)->0.len() <= n
}

/// What parsing the text `s` gives: type `4` with one part is an RSA ciphertext;
/// type `2` with three parts is an IV of 16 bytes, a ciphertext and a MAC of 32 bytes;
/// every other header and part count is refused.
pub open spec fn spec_parse(s: Seq<char>) -> Result<EncryptedStringModel, CryptoError> {
    let (t, parts) = spec_split_enc_string(s);
    if t == seq!['4'] && parts.len() == 1 {
        match decode_part(parts[0]) {
            Some(data) => Ok(EncryptedStringModel::Rsa2048OaepSha1 { data }),
            None => Err(CryptoError::InvalidBase64),
        }
    } else if t == seq!['2'] && parts.len() == 3 {
        if !part_fits(parts[0], 16) {
            Err(CryptoError::InvalidBase64)
        } else if decode_part(parts[0])->0.len() != 16 {
            Err(CryptoError::InvalidIvLength)
        } else if decode_part(parts[1]) is None {
            Err(CryptoError::InvalidBase64)
        } else if !part_fits(parts[2], 32) {
            Err(CryptoError::InvalidBase64)
        } else if decode_part(parts[2])->0.len() != 32 {
            Err(CryptoError::InvalidMacLength)
        } else {
            Ok(
                EncryptedStringModel::Aes256cbcHmacSha256 {
                    iv: decode_part(parts[0])->0,
                    data: decode_part(parts[1])->0,
                    mac: decode_part(parts[2])->0,
                },
            )
        }
    } else {
        Err(CryptoError::InvalidType)
    }
}

/// What parses is a type-4 string of one part or a type-2 string of three parts, and
/// a parsed type-2 string has a 16-byte IV and a 32-byte MAC.
pub proof fn lemma_parsed_shapes(s: Seq<char>)
    requires
        spec_parse(s) is Ok,
    ensures
        spec_parse(s)->Ok_0 matches EncryptedStringModel::Rsa2048OaepSha1 { .. } ==> (
        spec_split_enc_string(s).0 == seq!['4'] && spec_split_enc_string(s).1.len() == 1),
        spec_parse(s)->Ok_0 matches EncryptedStringModel::Aes256cbcHmacSha256 { iv, mac, .. } ==> (
        spec_split_enc_string(s).0 == seq!['2'] && spec_split_enc_string(s).1.len() == 3
            && iv.len() == 16 && mac.len() == 32),
{
}

/// Splits an encrypted string into its type header and its parts.
pub fn split_enc_string(s: &str) -> (r: (&str, Vec<&str>))
    ensures
        (r.0@, str_views(r.1@)) == spec_split_enc_string(s@),
{
    let header_parts = split_str(s, '.');
    if header_parts.len() == 2 {
        proof {
            assert(str_views(header_parts@)[1] == header_parts[1]@);
            assert(str_views(header_parts@)[0] == header_parts[0]@);
        }
        (header_parts[0], split_str(header_parts[1], '|'))
    } else {
        let parts = split_str(s, '|');
        if parts.len() == 3 {
            let t = "1";
            proof {
                reveal_strlit("1");
                assert(t@ =~= seq!['1']);
            }
            (t, parts)
        } else {
            let t = "0";
            proof {
                reveal_strlit("0");
                assert(t@ =~= seq!['0']);
            }
            (t, parts)
        }
    }
}

impl EncryptedString {
    /// Parses the text of an encrypted string.
    pub fn parse(value: String) -> (r: Result<EncryptedString, CryptoError>)
        ensures
            parsed_result(r) == spec_parse(value@),
    {
        let (enc_type, parts) = split_enc_string(value.as_str());
        let ghost views = str_views(parts@);
        proof {
            reveal_strlit("4");
            reveal_strlit("2");
            assert("4"@ =~= seq!['4']);
            assert("2"@ =~= seq!['2']);
        }
        if str_eq(enc_type, "4") && parts.len() == 1 {
            proof {
                assert(views[0] == parts[0]@);
            }
            match base64_decode(parts[0].as_bytes()) {
                Ok(data) => Ok(EncryptedString::Rsa2048OaepSha1 { data }),
                Err(_) => Err(CryptoError::InvalidBase64),
            }
        } else if str_eq(enc_type, "2") && parts.len() == 3 {
            proof {
                assert(views[0] == parts[0]@);
                assert(views[1] == parts[1]@);
                assert(views[2] == parts[2]@);
            }
            let mut iv = [0u8; 16];
            let mut mac = [0u8; 32];
            let p0 = parts[0].as_bytes();
            assert(p0@ == encode_utf8(views[0]));
            let iv_len = match base64_decode_into(p0, &mut iv) {
                Ok(n) => n,
                Err(_) => {
                    assert(!part_fits(views[0], 16));
                    return Err(CryptoError::InvalidBase64);
                },
            };
            if iv_len != 16 {
                return Err(CryptoError::InvalidIvLength);
            }
            let data = match base64_decode(parts[1].as_bytes()) {
                Ok(d) => d,
                Err(_) => {
                    return Err(CryptoError::InvalidBase64);
                },
            };
            let mac_len = match base64_decode_into(parts[2].as_bytes(), &mut mac) {
                Ok(n) => n,
                Err(_) => {
                    return Err(CryptoError::InvalidBase64);
                },
            };
            if mac_len != 32 {
                return Err(CryptoError::InvalidMacLength);
            }
            proof {
                assert(iv@.take(16) == iv@);
                assert(mac@.take(32) == mac@);
            }
            Ok(EncryptedString::Aes256cbcHmacSha256 { iv, mac, data })
        } else {
            Err(CryptoError::InvalidType)
        }
    }

    /// Decrypts with `key`, which decides whether it can handle this kind of payload.
    pub fn decrypt<K: CryptoKey + ?Sized>(&self, key: &K) -> (r: Result<Vec<u8>, CryptoError>)
        ensures
            bytes_result(r) == key.decrypt_spec(self@),
    {
        key.decrypt(self)
    }
}

impl TryFrom<String> for EncryptedString {
    type Error = CryptoError;

    fn try_from(value: String) -> (r: Result<Self, Self::Error>)
        ensures
            parsed_result(r) == spec_parse(value@),
    {
        EncryptedString::parse(value)
    }
}

/// The generic `TryFrom` law is not claimed; `try_from` states its result as `parse` does.
impl vstd::std_specs::convert::TryFromSpecImpl<String> for EncryptedString {
    open spec fn obeys_try_from_spec() -> bool {
        false
    }

    open spec fn try_from_spec(v: String) -> Result<Self, CryptoError> {
        Err(CryptoError::InvalidType)
    }
}

} // verus!
