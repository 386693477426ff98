use oauth_session::token::{mint, verify, TokenError};

const SECRET: &str = "a-signing-secret";

#[test]
fn round_trip_within_lifetime() {
    let t = 1_700_000_000u64;
    let ttl = 3600u64;
    let token = mint(SECRET, "user-1", t, ttl);
    assert_eq!(verify(SECRET, &token, t), Ok("user-1".to_string()));
    assert_eq!(verify(SECRET, &token, t + 1), Ok("user-1".to_string()));
    assert_eq!(verify(SECRET, &token, t + ttl - 1), Ok("user-1".to_string()));
}

#[test]
fn expired_at_exact_expiry() {
    let t = 1_700_000_000u64;
    let ttl = 60u64;
    let token = mint(SECRET, "user-1", t, ttl);
    assert_eq!(verify(SECRET, &token, t + ttl), Err(TokenError::InvalidToken));
    assert_eq!(verify(SECRET, &token, t + ttl + 1000), Err(TokenError::InvalidToken));
}

#[test]
fn flipping_any_byte_fails_verification() {
    let t = 1_700_000_000u64;
    let token = mint(SECRET, "subject-42", t, 600);
    let bytes = token.as_bytes().to_vec();
    for i in 0..bytes.len() {
        let mut tampered = bytes.clone();
        tampered[i] ^= 0x01;
        let text = match String::from_utf8(tampered) {
            Ok(s) => s,
            Err(_) => continue,
        };
        assert_eq!(verify(SECRET, &text, t + 1), Err(TokenError::InvalidToken), "byte {}", i);
    }
}

#[test]
fn wrong_secret_fails() {
    let token = mint(SECRET, "user-1", 100, 600);
    assert_eq!(verify("another-secret", &token, 101), Err(TokenError::InvalidToken));
}

#[test]
fn garbage_is_invalid() {
    assert_eq!(verify(SECRET, "", 0), Err(TokenError::InvalidToken));
    assert_eq!(verify(SECRET, "a.b.c", 0), Err(TokenError::InvalidToken));
    assert_eq!(verify(SECRET, "not a token", 0), Err(TokenError::InvalidToken));
}

#[test]
fn mint_is_a_function_of_its_inputs() {
    let a = mint(SECRET, "user-1", 500, 60);
    let b = mint(SECRET, "user-1", 500, 60);
    let c = mint(SECRET, "user-2", 500, 60);
    assert_eq!(a, b);
    assert_ne!(a, c);
    assert_eq!(a.split('.').count(), 3);
}

#[test]
fn subject_with_unusual_characters_round_trips() {
    let subject = "ünïcode \"quoted\" / id";
    let token = mint(SECRET, subject, 10, 10);
    assert_eq!(verify(SECRET, &token, 15), Ok(subject.to_string()));
}
