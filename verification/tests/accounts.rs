use paperdeck::auth::{
    hash_password, registration_verdict, validate_registration, verify_password, AuthUser, Claims,
};

#[test]
fn a_registration_with_letters_digits_and_a_long_password_passes() {
    assert_eq!(validate_registration("alice01", "password123"), Ok(()));
    assert_eq!(validate_registration("A", "12345678"), Ok(()));
}

#[test]
fn a_user_name_with_other_characters_is_refused() {
    let refused = Err("Username must be alphanumeric (a-z, A-Z, 0-9).".to_string());
    assert_eq!(validate_registration("alice smith", "password123"), refused);
    assert_eq!(validate_registration("", "password123"), refused);
    assert_eq!(validate_registration("alice\n", "password123"), refused);
    assert_eq!(validate_registration("ålice", "password123"), refused);
    assert_eq!(validate_registration("al_ice", "password123"), refused);
}

#[test]
fn a_short_password_is_refused() {
    let refused = Err("Password must be at least 8 characters long.".to_string());
    assert_eq!(validate_registration("alice", "1234567"), refused);
    assert_eq!(validate_registration("alice", ""), refused);
}

#[test]
fn the_password_is_measured_in_bytes() {
    assert_eq!(validate_registration("alice", "ääää"), Ok(()));
    assert_eq!(
        validate_registration("alice", "äää"),
        Err("Password must be at least 8 characters long.".to_string())
    );
}

#[test]
fn the_user_name_is_judged_before_the_password() {
    assert_eq!(
        validate_registration("not ok", "short"),
        Err("Username must be alphanumeric (a-z, A-Z, 0-9).".to_string())
    );
    assert_eq!(
        registration_verdict(false, 0),
        Err("Username must be alphanumeric (a-z, A-Z, 0-9).".to_string())
    );
    assert_eq!(
        registration_verdict(true, 7),
        Err("Password must be at least 8 characters long.".to_string())
    );
    assert_eq!(registration_verdict(true, 8), Ok(()));
}

#[test]
fn a_password_matches_its_own_hash_only() {
    let hash = hash_password("correct horse").unwrap();
    assert!(hash.starts_with("$argon2"));
    assert!(verify_password("correct horse", &hash));
    assert!(!verify_password("wrong horse", &hash));
}

#[test]
fn a_text_that_is_no_hash_matches_nothing() {
    assert!(!verify_password("anything", "not a hash"));
    assert!(!verify_password("", ""));
}

#[test]
fn two_hashes_of_one_password_differ_by_their_salt() {
    let first = hash_password("same password").unwrap();
    let second = hash_password("same password").unwrap();
    assert_ne!(first, second);
    assert!(verify_password("same password", &first));
    assert!(verify_password("same password", &second));
}

#[test]
fn a_token_lasts_seven_days() {
    let claims = Claims::issue(42, 1_700_000_000);
    assert_eq!(claims, Claims { sub: 42, exp: 1_700_604_800, iat: 1_700_000_000 });
    assert!(!claims.is_expired(1_700_000_000));
    assert!(!claims.is_expired(1_700_604_800));
    assert!(claims.is_expired(1_700_604_801));
}

#[test]
fn an_authenticated_user_is_known_by_its_id() {
    assert_eq!(AuthUser { user_id: 7 }.user_id, 7);
}
