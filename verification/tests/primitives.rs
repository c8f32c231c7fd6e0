use keylime_common::algorithms::{EncryptionAlgorithm, HashAlgorithm, SignAlgorithm};
use keylime_common::identity::{IdentityRecord, RecordError};
use keylime_common::json_wrapper::JsonWrapper;
use keylime_common::keys::{KeyError, SymmKey};
use keylime_common::strutil::{parse_bool, parse_u32, path_join};

#[test]
fn symm_key_accepts_only_the_two_lengths() {
    assert!(SymmKey::from_bytes(&[0u8; 16]).is_ok());
    assert!(SymmKey::from_bytes(&[0u8; 32]).is_ok());
    for n in [0usize, 15, 17, 31, 33] {
        let bytes = vec![0u8; n];
        match SymmKey::from_bytes(&bytes) {
            Err(KeyError::InvalidLength { actual }) => assert_eq!(actual, n),
            other => panic!("length {} must be rejected, got {:?}", n, other),
        }
    }
}

#[test]
fn symm_key_xor_is_position_wise() {
    let a = SymmKey::from_bytes(&[
        0x00, 0x01, 0x02, 0x03, 0x04, 0x05, 0x06, 0x07, 0x08, 0x09, 0x0a, 0x0b, 0x0c, 0x0d, 0x0e,
        0x0f,
    ])
    .unwrap();
    let b = SymmKey::from_bytes(&[
        0xff, 0xfe, 0xfd, 0xfc, 0xfb, 0xfa, 0xf9, 0xf8, 0xf7, 0xf6, 0xf5, 0xf4, 0xf3, 0xf2, 0xf1,
        0xf0,
    ])
    .unwrap();
    let c = a.xor(&b).unwrap();
    assert_eq!(c.bytes().len(), 16);
    for i in 0..16 {
        assert_eq!(c.bytes()[i], a.bytes()[i] ^ b.bytes()[i]);
    }
}

#[test]
fn symm_key_xor_rejects_length_mismatch() {
    let a = SymmKey::from_bytes(&[0u8; 16]).unwrap();
    let b = SymmKey::from_bytes(&[0u8; 32]).unwrap();
    match a.xor(&b) {
        Err(KeyError::LengthMismatch { left, right }) => {
            assert_eq!(left, 16);
            assert_eq!(right, 32);
        },
        other => panic!("expected a length mismatch, got {:?}", other),
    }
}

#[test]
fn identity_record_valid_needs_both_fields() {
    let rec = IdentityRecord {
        ak_hash_alg: HashAlgorithm::Sha256,
        ak_sign_alg: SignAlgorithm::RsaSsa,
        ak_context: vec![1, 2, 3],
    };
    assert!(rec.valid(HashAlgorithm::Sha256, SignAlgorithm::RsaSsa));
    assert!(!rec.valid(HashAlgorithm::Sha384, SignAlgorithm::RsaSsa));
    assert!(!rec.valid(HashAlgorithm::Sha256, SignAlgorithm::Ecdsa));
    assert!(!rec.valid(HashAlgorithm::Sha1, SignAlgorithm::RsaPss));
}

#[test]
fn identity_record_encodes_to_the_stable_form() {
    let rec = IdentityRecord {
        ak_hash_alg: HashAlgorithm::Sha256,
        ak_sign_alg: SignAlgorithm::RsaSsa,
        ak_context: vec![0xde, 0xad],
    };
    assert_eq!(
        rec.encode(),
        "{\"ak_hash_alg\":\"sha256\",\"ak_sign_alg\":\"rsassa\",\"ak_context\":\"dead\"}"
    );
}

#[test]
fn identity_record_round_trips() {
    let rec = IdentityRecord {
        ak_hash_alg: HashAlgorithm::Sha512,
        ak_sign_alg: SignAlgorithm::Ecdsa,
        ak_context: vec![0x00, 0x7f, 0x80, 0xff, 0x10],
    };
    let text = rec.encode();
    let back = IdentityRecord::decode(&text).unwrap();
    assert_eq!(back.ak_hash_alg, rec.ak_hash_alg);
    assert_eq!(back.ak_sign_alg, rec.ak_sign_alg);
    assert_eq!(back.ak_context, rec.ak_context);
}

#[test]
fn identity_record_rejects_malformed_text() {
    for text in [
        "",
        "{}",
        "{\"ak_hash_alg\":\"md5\",\"ak_sign_alg\":\"rsassa\",\"ak_context\":\"\"}",
        "{\"ak_hash_alg\":\"sha256\",\"ak_sign_alg\":\"rsassa\",\"ak_context\":\"abc\"}",
        "{\"ak_hash_alg\":\"sha256\",\"ak_sign_alg\":\"rsassa\",\"ak_context\":\"zz\"}",
        "{\"ak_hash_alg\":\"sha256\",\"ak_sign_alg\":\"rsassa\",\"ak_context\":\"00\"",
    ] {
        assert!(matches!(IdentityRecord::decode(text), Err(RecordError::Malformed)));
    }
}

#[test]
fn algorithm_words_parse_and_render() {
    assert_eq!(HashAlgorithm::try_from_str("sha256"), Some(HashAlgorithm::Sha256));
    assert_eq!(HashAlgorithm::try_from_str("md5"), None);
    assert_eq!(HashAlgorithm::Sha384.as_str(), "sha384");
    assert_eq!(SignAlgorithm::try_from_str("rsapss"), Some(SignAlgorithm::RsaPss));
    assert_eq!(SignAlgorithm::try_from_str("dsa"), None);
    assert_eq!(EncryptionAlgorithm::try_from_str("ecc"), Some(EncryptionAlgorithm::Ecc));
    assert_eq!(EncryptionAlgorithm::Rsa.as_str(), "rsa");
}

#[test]
fn parse_u32_matches_std_behaviour() {
    assert_eq!(parse_u32("0"), Some(0));
    assert_eq!(parse_u32("9002"), Some(9002));
    assert_eq!(parse_u32("+123"), Some(123));
    assert_eq!(parse_u32("4294967295"), Some(u32::MAX));
    assert_eq!(parse_u32("4294967296"), None);
    assert_eq!(parse_u32(""), None);
    assert_eq!(parse_u32("+"), None);
    assert_eq!(parse_u32("-1"), None);
    assert_eq!(parse_u32("12a"), None);
}

#[test]
fn parse_bool_folds_ascii_case() {
    assert_eq!(parse_bool("true"), Some(true));
    assert_eq!(parse_bool("True"), Some(true));
    assert_eq!(parse_bool("FALSE"), Some(false));
    assert_eq!(parse_bool("yes"), None);
    assert_eq!(parse_bool(""), None);
}

#[test]
fn path_join_inserts_one_separator() {
    assert_eq!(path_join("/var/lib/keylime", "tpmdata.json"), "/var/lib/keylime/tpmdata.json");
    assert_eq!(path_join("/var/lib/keylime/", "tpmdata.json"), "/var/lib/keylime/tpmdata.json");
    assert_eq!(path_join("", "tpmdata.json"), "tpmdata.json");
}

#[test]
fn json_wrapper_envelopes() {
    let ok = JsonWrapper::success(vec![1u8, 2, 3]);
    assert_eq!(ok.code, 200);
    assert_eq!(ok.status, "Success");
    assert_eq!(ok.results, vec![1u8, 2, 3]);
    let err = JsonWrapper::error(404, "Not Found".to_string());
    assert_eq!(err.code, 404);
    assert_eq!(err.status, "Not Found");
    assert!(err.results.is_object());
}
