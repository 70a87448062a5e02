use rust_admob_ssv::{
    coordinates_from_key_bytes, decompose, parse_key_id, reconstruct_key, verify_signature,
    verify_ssv_callback, SsvError,
};
use std::collections::HashMap;

const KEY_ID: u64 = 3335741209;
const PUBLIC_KEY: &str = "MFkwEwYHKoZIzj0CAQYIKoZIzj0DAQcDQgAE+nzvoGqvDeB9+SzE6igTl7TyK4JBbglwir9oTcQta8NuG26ZpZFxt+F2NDk7asTE6/2Yc8i1ATcGIqtuS5hv0Q==";
const MESSAGE: &str = "ad_network=5450213213286189855&ad_unit=1234567890&timestamp=1588756506292&transaction_id=123456789";
const SIGNATURE: &str = "MEQCIA54vhOTh9NjebJJZM6Pvgcz1UMd6Jn3G6WQ8czPoEPdAiBwXX1aOG4Cz219vH_VPXicw5K9w8XqOmWHYmQgKtJmsA";

fn keys() -> HashMap<u64, String> {
    let mut keys: HashMap<u64, String> = HashMap::new();
    keys.insert(KEY_ID, String::from(PUBLIC_KEY));
    keys
}

fn query(message: &str, signature: &str, key_id: &str) -> String {
    format!("{}&signature={}&key_id={}", message, signature, key_id)
}

#[test]
fn reference_vector_verifies() {
    let q = query(MESSAGE, SIGNATURE, "3335741209");
    assert_eq!(verify_ssv_callback(&q, &keys()), Ok(true));
}

#[test]
fn altered_message_gives_false() {
    let altered = MESSAGE.replace("transaction_id=123456789", "transaction_id=123456780");
    let q = query(&altered, SIGNATURE, "3335741209");
    assert_eq!(verify_ssv_callback(&q, &keys()), Ok(false));
}

#[test]
fn message_with_escaped_byte_is_decoded_before_hashing() {
    // `%61` decodes to `a`, so the decoded message is the signed one.
    let escaped = MESSAGE.replace("ad_network", "%61d_network");
    let q = query(&escaped, SIGNATURE, "3335741209");
    assert_eq!(verify_ssv_callback(&q, &keys()), Ok(true));
}

#[test]
fn trailing_parameters_are_ignored() {
    let q = format!("{}&extra=1", query(MESSAGE, SIGNATURE, "3335741209"));
    assert_eq!(verify_ssv_callback(&q, &keys()), Ok(true));
}

#[test]
fn missing_signature_is_malformed_query() {
    let q = format!("{}&key_id=3335741209", MESSAGE);
    assert_eq!(verify_ssv_callback(&q, &keys()), Err(SsvError::MalformedQuery));
    assert_eq!(verify_ssv_callback("", &keys()), Err(SsvError::MalformedQuery));
}

#[test]
fn missing_key_id_is_malformed_query() {
    let q = format!("{}&signature={}", MESSAGE, SIGNATURE);
    assert_eq!(verify_ssv_callback(&q, &keys()), Err(SsvError::MalformedQuery));
}

#[test]
fn key_id_before_signature_is_malformed_query() {
    let q = format!("{}&key_id=3335741209&signature={}", MESSAGE, SIGNATURE);
    assert_eq!(verify_ssv_callback(&q, &keys()), Err(SsvError::MalformedQuery));
}

#[test]
fn unknown_key_id_is_not_found() {
    let q = query(MESSAGE, SIGNATURE, "42");
    assert_eq!(verify_ssv_callback(&q, &keys()), Err(SsvError::KeyNotFound));
    let empty: HashMap<u64, String> = HashMap::new();
    let q = query(MESSAGE, SIGNATURE, "3335741209");
    assert_eq!(verify_ssv_callback(&q, &empty), Err(SsvError::KeyNotFound));
}

#[test]
fn non_numeric_key_id_is_invalid() {
    let q = query(MESSAGE, SIGNATURE, "abc");
    assert_eq!(verify_ssv_callback(&q, &keys()), Err(SsvError::InvalidKeyId));
    let q = query(MESSAGE, SIGNATURE, "");
    assert_eq!(verify_ssv_callback(&q, &keys()), Err(SsvError::InvalidKeyId));
    let q = query(MESSAGE, SIGNATURE, "18446744073709551616");
    assert_eq!(verify_ssv_callback(&q, &keys()), Err(SsvError::InvalidKeyId));
}

#[test]
fn key_that_is_not_base64_is_malformed() {
    let mut keys: HashMap<u64, String> = HashMap::new();
    keys.insert(KEY_ID, String::from("not base64!"));
    let q = query(MESSAGE, SIGNATURE, "3335741209");
    assert_eq!(verify_ssv_callback(&q, &keys), Err(SsvError::MalformedKey));
}

#[test]
fn short_key_is_malformed() {
    let mut keys: HashMap<u64, String> = HashMap::new();
    keys.insert(KEY_ID, String::from("AAAA"));
    let q = query(MESSAGE, SIGNATURE, "3335741209");
    assert_eq!(verify_ssv_callback(&q, &keys), Err(SsvError::MalformedKey));
}

#[test]
fn key_off_the_curve_is_invalid() {
    // 64 zero bytes: (0, 0) is no point of P-256.
    let mut keys: HashMap<u64, String> = HashMap::new();
    keys.insert(KEY_ID, format!("{}==", "A".repeat(86)));
    let q = query(MESSAGE, SIGNATURE, "3335741209");
    assert_eq!(verify_ssv_callback(&q, &keys), Err(SsvError::InvalidPublicKey));
}

#[test]
fn message_that_is_not_utf8_is_malformed() {
    let q = query("a=%FF", SIGNATURE, "3335741209");
    assert_eq!(verify_ssv_callback(&q, &keys()), Err(SsvError::MalformedMessage));
}

#[test]
fn signature_that_is_not_base64url_is_malformed() {
    let q = query(MESSAGE, "MEQ+IA==", "3335741209");
    assert_eq!(verify_ssv_callback(&q, &keys()), Err(SsvError::MalformedSignature));
}

#[test]
fn signature_that_is_not_der_is_malformed() {
    let q = query(MESSAGE, "AAAA", "3335741209");
    assert_eq!(verify_ssv_callback(&q, &keys()), Err(SsvError::MalformedSignature));
}

#[test]
fn decomposing_twice_gives_the_same_parts() {
    let q = query(MESSAGE, SIGNATURE, "3335741209");
    let first = decompose(&q).ok().unwrap();
    let second = decompose(&q).ok().unwrap();
    assert_eq!(first.message, MESSAGE);
    assert_eq!(first.signature, SIGNATURE.as_bytes());
    assert_eq!(first.key_id, b"3335741209");
    assert_eq!(first.message, second.message);
    assert_eq!(first.signature, second.signature);
    assert_eq!(first.key_id, second.key_id);
}

#[test]
fn decompose_stops_key_id_at_next_parameter() {
    let q = "m=1&signature=abc&key_id=7&x=2";
    let parts = decompose(q).ok().unwrap();
    assert_eq!(parts.message, "m=1");
    assert_eq!(parts.signature, b"abc");
    assert_eq!(parts.key_id, b"7");
}

#[test]
fn key_id_parsing() {
    assert_eq!(parse_key_id(b"3335741209"), Some(3335741209));
    assert_eq!(parse_key_id(b"+7"), Some(7));
    assert_eq!(parse_key_id(b"0"), Some(0));
    assert_eq!(parse_key_id(b"18446744073709551615"), Some(u64::MAX));
    assert_eq!(parse_key_id(b"18446744073709551616"), None);
    assert_eq!(parse_key_id(b""), None);
    assert_eq!(parse_key_id(b"+"), None);
    assert_eq!(parse_key_id(b"-1"), None);
    assert_eq!(parse_key_id(b"12a"), None);
}

#[test]
fn key_coordinates_are_the_last_64_bytes() {
    let short: Vec<u8> = vec![1; 63];
    assert_eq!(coordinates_from_key_bytes(&short), Err(SsvError::MalformedKey));
    let mut bytes: Vec<u8> = vec![9];
    bytes.extend(std::iter::repeat(1u8).take(32));
    bytes.extend(std::iter::repeat(2u8).take(32));
    let (x, y) = coordinates_from_key_bytes(&bytes).ok().unwrap();
    assert_eq!(x, vec![1u8; 32]);
    assert_eq!(y, vec![2u8; 32]);
}

#[test]
fn reconstruct_then_verify_signature() {
    let key = reconstruct_key(b"3335741209", &keys()).ok().unwrap();
    assert_eq!(verify_signature(MESSAGE, SIGNATURE.as_bytes(), &key), Ok(true));
    assert_eq!(verify_signature("x=1", SIGNATURE.as_bytes(), &key), Ok(false));
    assert!(matches!(reconstruct_key(b"1", &keys()), Err(SsvError::KeyNotFound)));
}

#[test]
fn signature_name_without_equals_is_malformed_query() {
    let q = "a&signature&key_id=1&signature=X&key_id=5";
    assert_eq!(verify_ssv_callback(q, &keys()), Err(SsvError::MalformedQuery));
    assert!(matches!(decompose(q), Err(SsvError::MalformedQuery)));
    assert_eq!(verify_ssv_callback("a&signature&key_id=1", &keys()), Err(SsvError::MalformedQuery));
}

#[test]
fn signature_marker_overlapping_key_id_is_malformed_query() {
    let q = format!("{}&signatures={}&key_id=3335741209", MESSAGE, SIGNATURE);
    assert_eq!(verify_ssv_callback(&q, &keys()), Err(SsvError::MalformedQuery));
}

#[test]
fn key_id_name_without_equals_is_invalid() {
    let q = format!("{}&signature={}&key_idx=1&key_id=5", MESSAGE, SIGNATURE);
    assert_eq!(verify_ssv_callback(&q, &keys()), Err(SsvError::InvalidKeyId));
    let q = format!("{}&signature={}&key_id", MESSAGE, SIGNATURE);
    assert_eq!(verify_ssv_callback(&q, &keys()), Err(SsvError::InvalidKeyId));
}

#[test]
fn encoded_spaces_only_verify_when_decoded() {
    // The signature covers the text with spaces; hashing `%20` as it stands
    // would not match, so the decoded text is what was checked.
    let message = "ad_network=5450213213286189855&ad_unit=1234567890&custom_data=test%20with%20spaces&timestamp=1588893178205&transaction_id=123456789&user_id=user1234";
    let signature = "MEYCIQCgskFKBxxLi3ae8lDThSLf8ZFnu4aiAEsEpbrpVZcCkAIhAJ9p_wYfR8I6EU1iiLzD9q_Tm8263IeVdW-ODIigfD2V";
    let q = query(message, signature, "3335741209");
    assert_eq!(verify_ssv_callback(&q, &keys()), Ok(true));
    let spaced = message.replace("%20", " ");
    let key = reconstruct_key(b"3335741209", &keys()).ok().unwrap();
    assert_eq!(verify_signature(&spaced, signature.as_bytes(), &key), Ok(true));
    let raw = message.replace("%20", "%2520");
    assert_eq!(verify_signature(&raw, signature.as_bytes(), &key), Ok(false));
}
