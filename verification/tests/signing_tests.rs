use messaging_api::{hmac_sha256_base64, verify};

#[test]
fn digest_matches_known_answer() {
    let d = hmac_sha256_base64(b"secret", b"hello");
    assert_eq!(d.as_slice(), b"iKqz7ejTrflNJquQ07r9SiCDBww7zOnAFO4EpEOEfAs=" as &[u8]);
}

#[test]
fn own_digest_verifies() {
    let secret = b"channel-secret";
    let msg = b"{\"destination\":\"U123\",\"events\":[]}";
    let d = hmac_sha256_base64(secret, msg);
    assert!(verify(secret, msg, d.as_slice()));
}

#[test]
fn mutated_message_fails() {
    let secret = b"channel-secret";
    let msg = b"{\"destination\":\"U123\",\"events\":[]}";
    let d = hmac_sha256_base64(secret, msg);
    let mut other = msg.to_vec();
    other[0] ^= 1;
    assert!(!verify(secret, other.as_slice(), d.as_slice()));
}

#[test]
fn mutated_digest_fails() {
    let secret = b"channel-secret";
    let msg = b"{\"destination\":\"U123\",\"events\":[]}";
    let mut d = hmac_sha256_base64(secret, msg);
    d[0] ^= 1;
    assert!(!verify(secret, msg, d.as_slice()));
}

#[test]
fn digest_is_not_the_message() {
    // if the digest computation handed its input back unchanged, the message
    // itself would verify as its own digest
    assert!(!verify(b"secret", b"msg", b"msg"));
    assert_ne!(hmac_sha256_base64(b"secret", b"msg").as_slice(), b"msg" as &[u8]);
}

#[test]
fn wrong_secret_fails() {
    let msg = b"payload";
    let d = hmac_sha256_base64(b"secret-a", msg);
    assert!(!verify(b"secret-b", msg, d.as_slice()));
}

#[test]
fn digest_is_base64_of_32_bytes() {
    let d = hmac_sha256_base64(b"k", b"m");
    assert_eq!(d.len(), 44);
    assert_eq!(d[43], b'=');
}
