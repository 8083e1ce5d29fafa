use governance_spine::crypto::{signer_fingerprint, verify_signature_hex, CryptoEngine};
use governance_spine::encoding::{hex_decode, hex_encode, i64_to_decimal, join_with_bar, u64_to_decimal};

const RFC8032_SECRET: &str = "9d61b19deffd5a60ba844af492ec2cc44449c5697b326919703bac031cae7f60";
const RFC8032_PUBLIC: &str = "d75a980182b10ab7d54bfed3c964073a0ee172f3daa62325af021a68f707511a";
const RFC8032_EMPTY_SIGNATURE: &str = "e5564300c360ac729086e2cc806e828a84877f1eb8e5d974d873e065224901555fb8821590a33bacc61e39701cf9b46bd25bf5f0595bbe24655141438e7a100b";

fn rfc8032_engine() -> CryptoEngine {
    let bytes = hex_decode(RFC8032_SECRET).expect("hex secret");
    let mut secret = [0u8; 32];
    secret.copy_from_slice(&bytes);
    CryptoEngine::from_secret_key("rfc8032-test-1", secret)
}

#[test]
fn hex_encode_is_lowercase_high_nibble_first() {
    assert_eq!(hex_encode(&[0x00, 0x0f, 0xa5, 0xff]), "000fa5ff");
    assert_eq!(hex_encode(&[]), "");
}

#[test]
fn hex_decode_accepts_both_cases_and_rejects_bad_input() {
    assert_eq!(hex_decode("000fA5ff"), Some(vec![0x00, 0x0f, 0xa5, 0xff]));
    assert_eq!(hex_decode(""), Some(vec![]));
    assert_eq!(hex_decode("abc"), None);
    assert_eq!(hex_decode("zz"), None);
    assert_eq!(hex_decode("é0"), None);
}

#[test]
fn hex_roundtrip_on_all_byte_values() {
    let bytes: Vec<u8> = (0..=255u8).collect();
    assert_eq!(hex_decode(&hex_encode(&bytes)), Some(bytes));
}

#[test]
fn decimal_text_of_integers() {
    assert_eq!(u64_to_decimal(0), "0");
    assert_eq!(u64_to_decimal(18446744073709551615), "18446744073709551615");
    assert_eq!(i64_to_decimal(-42), "-42");
    assert_eq!(i64_to_decimal(1_700_000_000_000_000_000), "1700000000000000000");
    assert_eq!(i64_to_decimal(i64::MIN), "-9223372036854775808");
    assert_eq!(i64_to_decimal(i64::MAX), "9223372036854775807");
    assert_eq!(i64_to_decimal(0), "0");
    assert_eq!(u64_to_decimal(10), "10");
    for n in [1u64, 9, 99, 100, 12345, 4_000_000_007] {
        assert_eq!(u64_to_decimal(n), n.to_string());
    }
}

#[test]
fn join_with_bar_puts_bars_between_fields() {
    assert_eq!(join_with_bar(&vec![]), "");
    assert_eq!(join_with_bar(&vec!["a".to_string()]), "a");
    assert_eq!(join_with_bar(&vec!["a".to_string(), "".to_string(), "c".to_string()]), "a||c");
}

#[test]
fn compute_hash_is_lowercase_sha256_hex() {
    assert_eq!(
        CryptoEngine::compute_hash("abc"),
        "ba7816bf8f01cfea414140de5dae2223b00361a396177a9cb410ff61f20015ad"
    );
    assert_eq!(
        CryptoEngine::compute_hash(""),
        "e3b0c44298fc1c149afbf4c8996fb92427ae41e4649b934ca495991b7852b855"
    );
}

#[test]
fn rfc8032_public_key_and_signature() {
    let engine = rfc8032_engine();
    assert_eq!(engine.verifying_key_hex(), RFC8032_PUBLIC);
    assert_eq!(engine.sign(b""), RFC8032_EMPTY_SIGNATURE);
    assert!(verify_signature_hex(RFC8032_PUBLIC, b"", RFC8032_EMPTY_SIGNATURE));
}

#[test]
fn fingerprint_is_first_sixteen_hash_characters() {
    let engine = rfc8032_engine();
    let expected = CryptoEngine::compute_hash(RFC8032_PUBLIC)[..16].to_string();
    assert_eq!(engine.verifying_key_fingerprint(), expected);
    assert_eq!(signer_fingerprint(RFC8032_PUBLIC), Some(expected));
}

#[test]
fn signer_fingerprint_rejects_malformed_keys() {
    assert_eq!(signer_fingerprint("not hex"), None);
    assert_eq!(signer_fingerprint("abcd"), None);
    // 32 bytes whose y-coordinate is not on the curve (y = 2).
    let off_curve = format!("02{}", "00".repeat(31));
    assert_eq!(signer_fingerprint(&off_curve), None);
}

#[test]
fn signature_checks_reject_tampering() {
    let engine = CryptoEngine::new("tamper").expect("random source");
    let key = engine.verifying_key_hex();
    let signature = engine.sign(b"message");
    assert!(verify_signature_hex(&key, b"message", &signature));
    assert!(!verify_signature_hex(&key, b"messagf", &signature));
    assert!(!verify_signature_hex(&key, b"message", &signature[..126]));
    assert!(!verify_signature_hex(&RFC8032_PUBLIC, b"message", &signature));
    assert!(!verify_signature_hex("zz", b"message", &signature));
}

#[test]
fn fresh_identities_differ() {
    let a = CryptoEngine::new("a").expect("random source");
    let b = CryptoEngine::new("b").expect("random source");
    assert_ne!(a.verifying_key_hex(), b.verifying_key_hex());
    assert_eq!(a.verifying_key_hex().len(), 64);
    assert_eq!(a.verifying_key_fingerprint().len(), 16);
}
