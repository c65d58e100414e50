use taiga::session::{
    base64url_decode, file_key, is_expired, is_expired_at, jwt_expiry, jwt_payload, PasswordEntries,
    PasswordStore, EXPIRY_SKEW_SECONDS,
};

const ALPHABET: &[u8; 64] = b"ABCDEFGHIJKLMNOPQRSTUVWXYZabcdefghijklmnopqrstuvwxyz0123456789-_";

fn encode(payload: &str) -> String {
    let mut encoded = String::new();
    for chunk in payload.as_bytes().chunks(3) {
        let mut buffer = [0u8; 3];
        buffer[..chunk.len()].copy_from_slice(chunk);
        let n = u32::from_be_bytes([0, buffer[0], buffer[1], buffer[2]]);
        let count = chunk.len() + 1;
        for i in 0..count {
            let shift = 18 - 6 * i;
            encoded.push(ALPHABET[((n >> shift) & 63) as usize] as char);
        }
    }
    encoded
}

fn token_with_payload(payload: &str) -> String {
    format!("eyJhbGciOiJIUzI1NiJ9.{}.signature", encode(payload))
}

fn now() -> u64 {
    std::time::SystemTime::now()
        .duration_since(std::time::UNIX_EPOCH)
        .map(|d| d.as_secs())
        .unwrap_or(0)
}

#[test]
fn reads_exp_claim_from_jwt() {
    assert_eq!(
        jwt_expiry(&token_with_payload(r#"{"token_type":"access","exp":1788462545}"#)),
        Some(1788462545)
    );
    assert_eq!(jwt_expiry(&token_with_payload(r#"{"exp":12.0}"#)), Some(12));
}

#[test]
fn opaque_or_claimless_tokens_never_expire() {
    assert_eq!(jwt_expiry("opaque-token"), None);
    assert_eq!(jwt_expiry(&token_with_payload(r#"{"sub":"1"}"#)), None);
    assert_eq!(jwt_expiry("a.!!!.c"), None);
    assert!(!is_expired("opaque-token"));
}

#[test]
fn expiry_respects_skew() {
    let past = token_with_payload(&format!(r#"{{"exp":{}}}"#, now() - 1));
    let soon = token_with_payload(&format!(r#"{{"exp":{}}}"#, now() + 5));
    let later = token_with_payload(&format!(r#"{{"exp":{}}}"#, now() + 3600));
    assert!(is_expired(&past));
    assert!(is_expired(&soon));
    assert!(!is_expired(&later));
}

#[test]
fn expiry_boundary_is_the_skew() {
    let token = token_with_payload(r#"{"exp":1000}"#);
    assert!(is_expired_at(&token, 1000 - EXPIRY_SKEW_SECONDS));
    assert!(!is_expired_at(&token, 1000 - EXPIRY_SKEW_SECONDS - 1));
    assert!(is_expired_at(&token, u64::MAX));
}

#[test]
fn negative_and_non_numeric_claims_are_no_expiry() {
    assert_eq!(jwt_expiry(&token_with_payload(r#"{"exp":-5}"#)), None);
    assert_eq!(jwt_expiry(&token_with_payload(r#"{"exp":"soon"}"#)), None);
    assert_eq!(jwt_expiry(&token_with_payload(r#"{"exp":7.9}"#)), Some(7));
    assert_eq!(jwt_expiry(&token_with_payload("not json")), None);
}

#[test]
fn decodes_base64url_with_either_alphabet_and_padding() {
    assert_eq!(base64url_decode("aGVsbG8"), Some(b"hello".to_vec()));
    assert_eq!(base64url_decode("aGVsbG8="), Some(b"hello".to_vec()));
    assert_eq!(base64url_decode("_-8"), Some(vec![0xff, 0xef]));
    assert_eq!(base64url_decode("/+8"), Some(vec![0xff, 0xef]));
    assert_eq!(base64url_decode(""), Some(Vec::new()));
    assert_eq!(base64url_decode("a"), Some(Vec::new()));
    assert_eq!(base64url_decode("ab=!"), Some(vec![0x69]));
    assert_eq!(base64url_decode("a!b"), None);
}

#[test]
fn payload_is_the_second_segment() {
    assert_eq!(jwt_payload("x.aGk.y"), Some(b"hi".to_vec()));
    assert_eq!(jwt_payload("x.aGk"), Some(b"hi".to_vec()));
    assert_eq!(jwt_payload("no-dots"), None);
    assert_eq!(jwt_payload("x.a*b.y"), None);
}

#[test]
fn service_and_file_key_name_the_entry() {
    assert_eq!(PasswordStore::service("https://a/api/v1"), "taiga-cli:https://a/api/v1");
    assert_eq!(file_key("https://a/api/v1", "ada"), "taiga-cli:https://a/api/v1\u{1f}ada");
}

#[test]
fn file_store_round_trips_passwords() {
    let mut store = PasswordEntries::new();
    assert!(store.get("https://a/api/v1", "ada").is_none());
    store.set("https://a/api/v1", "ada", "s3cret");
    assert_eq!(store.get("https://a/api/v1", "ada"), Some("s3cret".to_owned()));
    assert!(store.get("https://b/api/v1", "ada").is_none());
    store.delete("https://a/api/v1", "ada");
    assert!(store.get("https://a/api/v1", "ada").is_none());
}

#[test]
fn file_store_keeps_other_entries_and_last_write_wins() {
    let mut store = PasswordEntries::from_pairs(vec![
        (file_key("https://a/api/v1", "ada"), "one".to_owned()),
        (file_key("https://a/api/v1", "bob"), "two".to_owned()),
        (file_key("https://a/api/v1", "ada"), "three".to_owned()),
    ]);
    assert_eq!(store.get("https://a/api/v1", "ada"), Some("three".to_owned()));
    store.set("https://a/api/v1", "bob", "four");
    store.delete("https://a/api/v1", "ada");
    assert!(store.get("https://a/api/v1", "ada").is_none());
    assert_eq!(store.get("https://a/api/v1", "bob"), Some("four".to_owned()));
    let pairs = store.to_pairs();
    let back = PasswordEntries::from_pairs(pairs);
    assert_eq!(back.get("https://a/api/v1", "bob"), Some("four".to_owned()));
    assert!(back.get("https://a/api/v1", "ada").is_none());
}
