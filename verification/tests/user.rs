use repeater_atlas::service::user::{
    DUPLICATE_USER, INVALID_CREDENTIALS, SignupRejection, check_signup, credentials_valid,
    hash_password, is_valid_call_sign, is_valid_email, is_valid_password,
};

#[test]
fn call_sign_rules() {
    assert!(is_valid_call_sign("LA1ABC"));
    assert!(is_valid_call_sign("LA1ABC/P"));
    assert!(is_valid_call_sign("OH/LA1ABC"));
    assert!(!is_valid_call_sign("LA"));
    assert!(!is_valid_call_sign("LA1ABCDEFGH"));
    assert!(!is_valid_call_sign("ABCDEF"));
    assert!(!is_valid_call_sign("123456"));
    assert!(!is_valid_call_sign("la1abc"));
    assert!(!is_valid_call_sign("LA1ABC/"));
    assert!(!is_valid_call_sign("LA1//AB"));
    assert!(!is_valid_call_sign("LA1 AB"));
}

#[test]
fn email_rules() {
    assert!(is_valid_email("la1abc@example.org"));
    assert!(is_valid_email("a.b@c.d.e"));
    assert!(!is_valid_email("not-an-email"));
    assert!(!is_valid_email("a@b"));
    assert!(!is_valid_email("a b@c.d"));
    assert!(!is_valid_email("a@@c.d"));
    assert!(!is_valid_email("@c.d"));
}

#[test]
fn password_rules() {
    assert!(is_valid_password("password123"));
    assert!(is_valid_password("12345678"));
    assert!(!is_valid_password("1234567"));
    // Length counts bytes: four two-byte letters make eight.
    assert!(is_valid_password("ææææ"));
}

#[test]
fn signup_normalizes_and_checks_in_order() {
    assert_eq!(
        check_signup(" la1abc ", " LA1ABC@Example.ORG ", "password123"),
        Ok(("LA1ABC".to_string(), "la1abc@example.org".to_string()))
    );
    assert_eq!(
        check_signup("LA1ABC", "not-an-email", "password123"),
        Err(SignupRejection::InvalidEmail)
    );
    assert_eq!(check_signup("xx", "not-an-email", "short"), Err(SignupRejection::InvalidCallSign));
    assert_eq!(
        check_signup("LA1ABC", "la1abc@example.org", "short"),
        Err(SignupRejection::InvalidPassword)
    );
}

#[test]
fn stored_password_is_accepted_at_login() {
    let hash = hash_password("password123").expect("hashing works");
    assert!(hash.starts_with("$argon2"));
    assert!(credentials_valid(Some(hash.clone()), "password123"));
    assert!(!credentials_valid(Some(hash), "password124"));
    assert!(!credentials_valid(None, "password123"));
    assert!(!credentials_valid(Some("not a hash".to_string()), "password123"));
    assert_eq!(INVALID_CREDENTIALS, "Invalid credentials");
}

#[test]
fn signup_refusal_messages() {
    assert_eq!(SignupRejection::InvalidEmail.message(), "Invalid email address");
    assert_eq!(SignupRejection::InvalidCallSign.message(), "Invalid call sign");
    assert_eq!(SignupRejection::InvalidPassword.message(), "Password must be at least 8 bytes long");
    assert!(!DUPLICATE_USER.is_empty());
}

#[test]
fn pattern_edges() {
    assert!(is_valid_email("a@b..c"));
    assert!(!is_valid_email("a@.c"));
    assert!(!is_valid_email("a@b."));
    assert!(!is_valid_email("a\u{a0}b@c.d"));
    assert!(!is_valid_email("a@b.c\n"));
    assert!(is_valid_call_sign("A1/B"));
    assert!(!is_valid_call_sign("/LA1A"));
    assert!(!is_valid_call_sign("LA1\u{c4}B"));
}
