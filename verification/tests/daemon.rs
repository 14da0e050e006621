use pulsos::daemon::{is_authorized, new_daemon_token, token_hex};

#[test]
fn token_hex_writes_two_lowercase_digits_per_byte() {
    assert_eq!(token_hex(&[0x00, 0x0f, 0xa5, 0xff]), "000fa5ff");
    assert_eq!(token_hex(&[]), "");
}

#[test]
fn fresh_tokens_are_sixty_four_hex_digits() {
    let t = new_daemon_token().expect("the system's random source is readable");
    assert_eq!(t.len(), 64);
    assert!(t.chars().all(|c| c.is_ascii_digit() || ('a'..='f').contains(&c)));
    let u = new_daemon_token().expect("the system's random source is readable");
    assert_ne!(t, u);
}

#[test]
fn bearer_header_must_match_exactly() {
    assert!(is_authorized(Some("Bearer abc"), "abc"));
    assert!(!is_authorized(Some("Bearer abcd"), "abc"));
    assert!(!is_authorized(Some("bearer abc"), "abc"));
    assert!(!is_authorized(Some("abc"), "abc"));
    assert!(!is_authorized(None, "abc"));
}
