use metallian_photos::auth::{credentials_match, login_redirect_location, LoginForm, LoginQuery};
use metallian_photos::startup::session_key_bytes;

fn form(u: &str, p: &str) -> LoginForm {
    LoginForm { username: u.to_string(), password: p.to_string() }
}

#[test]
fn credentials_match_needs_both_fields() {
    let user = "admin".to_string();
    let pass = "hunter2".to_string();
    assert!(credentials_match(&form("admin", "hunter2"), &user, &pass));
    assert!(!credentials_match(&form("admin", "hunter3"), &user, &pass));
    assert!(!credentials_match(&form("root", "hunter2"), &user, &pass));
}

#[test]
fn login_redirects() {
    assert_eq!(login_redirect_location(true), "/gallery");
    assert_eq!(login_redirect_location(false), "/login?error=1");
}

#[test]
fn login_query_error_flag() {
    assert!(LoginQuery { error: Some("1".into()) }.has_error());
    assert!(!LoginQuery { error: None }.has_error());
}

#[test]
fn session_key_repeats_the_password_to_64_bytes() {
    let key = session_key_bytes(b"abc");
    assert_eq!(key.len(), 64);
    for (i, b) in key.iter().enumerate() {
        assert_eq!(*b, b"abc"[i % 3]);
    }
    let long: Vec<u8> = (0..100u8).collect();
    assert_eq!(session_key_bytes(&long), long[..64].to_vec());
    assert!(session_key_bytes(b"").is_empty());
}

#[test]
fn session_keys_of_different_passwords_of_one_length_differ() {
    assert_ne!(session_key_bytes(b"hunter2"), session_key_bytes(b"hunter3"));
    // Different lengths may share a key.
    assert_eq!(session_key_bytes(b"ab"), session_key_bytes(b"abab"));
}
