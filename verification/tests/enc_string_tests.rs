use base64::prelude::BASE64_STANDARD;
use base64::Engine;
use bw_ssh_agent::enc_string::{split_enc_string, CryptoError, EncryptedString};

fn b64(bytes: &[u8]) -> String {
    BASE64_STANDARD.encode(bytes)
}

#[test]
fn split_with_type_header() {
    let (t, parts) = split_enc_string("2.aa|bb|cc");
    assert_eq!(t, "2");
    assert_eq!(parts, vec!["aa", "bb", "cc"]);
}

#[test]
fn split_legacy_three_parts_is_type_1() {
    let (t, parts) = split_enc_string("aa|bb|cc");
    assert_eq!(t, "1");
    assert_eq!(parts, vec!["aa", "bb", "cc"]);
}

#[test]
fn split_legacy_other_is_type_0() {
    let (t, parts) = split_enc_string("aa|bb");
    assert_eq!(t, "0");
    assert_eq!(parts, vec!["aa", "bb"]);
    let (t, parts) = split_enc_string("a.b.c");
    assert_eq!(t, "0");
    assert_eq!(parts, vec!["a.b.c"]);
}

#[test]
fn split_keeps_empty_parts() {
    let (t, parts) = split_enc_string("4.");
    assert_eq!(t, "4");
    assert_eq!(parts, vec![""]);
    let (t, parts) = split_enc_string("2.|x|");
    assert_eq!(t, "2");
    assert_eq!(parts, vec!["", "x", ""]);
}

#[test]
fn parse_rsa_payload() {
    match EncryptedString::parse("4.aGVsbG8=".to_string()).unwrap() {
        EncryptedString::Rsa2048OaepSha1 { data } => assert_eq!(data, b"hello".to_vec()),
        other => panic!("unexpected {:?}", other),
    }
}

#[test]
fn parse_aes_payload() {
    let iv = [7u8; 16];
    let mac = [9u8; 32];
    let data = vec![1u8, 2, 3, 4, 5];
    let s = format!("2.{}|{}|{}", b64(&iv), b64(&data), b64(&mac));
    match EncryptedString::try_from(s).unwrap() {
        EncryptedString::Aes256cbcHmacSha256 { iv: i, mac: m, data: d } => {
            assert_eq!(i, iv);
            assert_eq!(m, mac);
            assert_eq!(d, data);
        }
        other => panic!("unexpected {:?}", other),
    }
}

#[test]
fn parse_unknown_type_is_refused() {
    assert_eq!(EncryptedString::parse("5.aGVsbG8=".to_string()).unwrap_err(), CryptoError::InvalidType);
    assert_eq!(EncryptedString::parse("4.a|b".to_string()).unwrap_err(), CryptoError::InvalidType);
    assert_eq!(EncryptedString::parse("aa|bb|cc".to_string()).unwrap_err(), CryptoError::InvalidType);
    assert_eq!(EncryptedString::parse("".to_string()).unwrap_err(), CryptoError::InvalidType);
}

#[test]
fn parse_invalid_base64_is_refused() {
    assert_eq!(EncryptedString::parse("4.!!!!".to_string()).unwrap_err(), CryptoError::InvalidBase64);
    let s = format!("2.{}|%%%|{}", b64(&[0u8; 16]), b64(&[0u8; 32]));
    assert_eq!(EncryptedString::parse(s).unwrap_err(), CryptoError::InvalidBase64);
}

#[test]
fn parse_iv_of_wrong_length_is_refused() {
    let s = format!("2.{}|{}|{}", b64(&[0u8; 8]), b64(&[1u8]), b64(&[0u8; 32]));
    assert_eq!(EncryptedString::parse(s).unwrap_err(), CryptoError::InvalidIvLength);
    let s = format!("2.{}|{}|{}", b64(&[0u8; 24]), b64(&[1u8]), b64(&[0u8; 32]));
    assert_eq!(EncryptedString::parse(s).unwrap_err(), CryptoError::InvalidBase64);
}

#[test]
fn parse_mac_of_wrong_length_is_refused() {
    let s = format!("2.{}|{}|{}", b64(&[0u8; 16]), b64(&[1u8]), b64(&[0u8; 20]));
    assert_eq!(EncryptedString::parse(s).unwrap_err(), CryptoError::InvalidMacLength);
}
