use oauth_session::auth::{authenticate, authenticate_token, confirm_subject, extract_token, AuthError};
use oauth_session::directory::UserDirectory;
use oauth_session::provider::GoogleUserResult;
use oauth_session::token::mint;

const SECRET: &str = "auth-secret";

fn person(email: &str) -> GoogleUserResult {
    GoogleUserResult {
        id: "g-1".to_string(),
        email: email.to_string(),
        verified_email: true,
        name: "Person".to_string(),
        given_name: "P".to_string(),
        family_name: "Q".to_string(),
        picture: "pic".to_string(),
    }
}

#[test]
fn cookie_takes_precedence_over_header() {
    assert_eq!(extract_token(Some("A"), Some("Bearer B")), Some("A".to_string()));
}

#[test]
fn header_token_follows_the_scheme_prefix() {
    assert_eq!(extract_token(None, Some("Bearer B")), Some("B".to_string()));
    assert_eq!(extract_token(None, Some("Bearer ")), Some(String::new()));
    assert_eq!(extract_token(None, Some("Bearer")), None);
    assert_eq!(extract_token(None, None), None);
}

#[test]
fn missing_token_is_unauthenticated() {
    assert_eq!(authenticate_token(SECRET, None, None, 0), Err(AuthError::MissingToken));
    assert_eq!(AuthError::MissingToken.status_code(), 401);
    assert_eq!(AuthError::MissingToken.message(), "You are not logged in, please provide token");
}

#[test]
fn valid_token_from_header_authenticates() {
    let mut dir = UserDirectory::new();
    let id = dir.upsert(person("p@example.com"), 1000).unwrap();
    let token = mint(SECRET, &id, 1000, 600);
    let header = format!("Bearer {}", token);
    let guard = authenticate(&dir, SECRET, None, Some(&header), 1200).unwrap();
    assert_eq!(guard.user_id, id);
}

#[test]
fn expired_or_forged_token_is_invalid() {
    let mut dir = UserDirectory::new();
    let id = dir.upsert(person("p@example.com"), 1000).unwrap();
    let token = mint(SECRET, &id, 1000, 600);
    assert!(matches!(authenticate(&dir, SECRET, Some(&token), None, 1600), Err(AuthError::InvalidToken)));
    assert!(matches!(authenticate(&dir, "other", Some(&token), None, 1001), Err(AuthError::InvalidToken)));
}

#[test]
fn deleted_subject_is_rejected() {
    let mut dir = UserDirectory::new();
    let id = dir.upsert(person("gone@example.com"), 1000).unwrap();
    let token = mint(SECRET, &id, 1000, 600);
    assert!(authenticate(&dir, SECRET, Some(&token), None, 1001).is_ok());
    assert_eq!(dir.delete_users_by_id(&id), Ok(1));
    assert_eq!(authenticate_token(SECRET, Some(&token), None, 1001), Ok(id.clone()));
    assert!(matches!(authenticate(&dir, SECRET, Some(&token), None, 1001), Err(AuthError::UnknownSubject)));
    assert_eq!(AuthError::UnknownSubject.status_code(), 401);
}

#[test]
fn confirm_subject_needs_a_stored_record() {
    assert_eq!(confirm_subject("s".to_string(), true).unwrap().user_id, "s");
    assert!(matches!(confirm_subject("s".to_string(), false), Err(AuthError::UnknownSubject)));
}
