use authium::digits::{parse_u64, u64_to_string};
use authium::server::pct_encoded;
use authium::storage::{token_ok, CryptoStore};
use authium::AuthError;

#[test]
fn renders_decimal_exactly() {
    assert_eq!(u64_to_string(0).as_str(), "0");
    assert_eq!(u64_to_string(6483).as_str(), "6483");
    assert_eq!(u64_to_string(u64::MAX).as_str(), "18446744073709551615");
}

#[test]
fn parses_decimal_exactly() {
    assert_eq!(parse_u64("0"), Some(0));
    assert_eq!(parse_u64("4600"), Some(4600));
    assert_eq!(parse_u64("18446744073709551615"), Some(u64::MAX));
}

#[test]
fn rejects_bad_decimals() {
    assert_eq!(parse_u64(""), None);
    assert_eq!(parse_u64("12a"), None);
    assert_eq!(parse_u64("-3"), None);
    assert_eq!(parse_u64("18446744073709551616"), None);
}

#[test]
fn record_round_trip_exact() {
    let mut st = CryptoStore::new();
    st.save("the-access-token", "the-refresh-token", 1234567890);
    let (a, r, e) = st.load().unwrap();
    assert_eq!(a.as_str(), "the-access-token");
    assert_eq!(r.as_str(), "the-refresh-token");
    assert_eq!(e, 1234567890);
}

#[test]
fn empty_tokens_round_trip() {
    let mut st = CryptoStore::new();
    st.save("", "", 0);
    let (a, r, e) = st.load().unwrap();
    assert_eq!(a.as_str(), "");
    assert_eq!(r.as_str(), "");
    assert_eq!(e, 0);
}

#[test]
fn absent_file_is_empty_zero_session() {
    let st = CryptoStore::new();
    let (a, r, e) = st.load().unwrap();
    assert_eq!(a.as_str(), "");
    assert_eq!(r.as_str(), "");
    assert_eq!(e, 0);
}

#[test]
fn corrupt_record_is_storage_error() {
    let st = CryptoStore::from_disk(Some(vec![1, 2, 3, 4, 5]));
    assert_eq!(st.load().unwrap_err(), AuthError::StorageError);
}

#[test]
fn sealed_bytes_are_really_encrypted() {
    let mut st = CryptoStore::new();
    st.save("AT", "RT", 4600);
    let sealed = st.raw().clone().unwrap();
    // Not the plaintext itself.
    assert_ne!(sealed, b"AT\nRT\n4600".to_vec());
    // The real cipher, with the store's fixed key and nonce, opens it to
    // exactly the three-line record.
    let key = aes_gcm::Key::<aes_gcm::Aes256Gcm>::from(*b"32-byte-key-authium4141234567890");
    let cipher = <aes_gcm::Aes256Gcm as aes_gcm::KeyInit>::new(&key);
    let nonce = aes_gcm::Nonce::from(*b"nonce-ezauth");
    let plain = aes_gcm::aead::Aead::decrypt(&cipher, &nonce, sealed.as_slice()).unwrap();
    assert_eq!(plain, b"AT\nRT\n4600".to_vec());
}

#[test]
fn percent_encoding_escapes_reserved_octets() {
    assert_eq!(pct_encoded("a b/c").as_str(), "a%20b%2Fc");
    assert_eq!(pct_encoded("Az09-._~").as_str(), "Az09-._~");
    assert_eq!(pct_encoded("k\u{e4}y").as_str(), "k%C3%A4y");
    assert_eq!(pct_encoded("").as_str(), "");
}

#[test]
fn token_ok_decides_storability() {
    assert!(token_ok("ordinary-token-1234"));
    assert!(token_ok(""));
    assert!(!token_ok("line\nbreak"));
}
