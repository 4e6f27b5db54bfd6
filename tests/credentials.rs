use dcms_auth::credentials::{
    generate_access_token, generate_temp_password, hash_access_token, hash_password,
    verify_password,
};
use dcms_auth::validation::validate_new_password;

#[test]
fn password_hash_round_trip_and_salting() {
    let a = hash_password("correct horse").unwrap();
    let b = hash_password("correct horse").unwrap();
    assert_ne!(a, b);
    assert!(a.starts_with("$argon2id$"));
    assert!(verify_password("correct horse", &a));
    assert!(verify_password("correct horse", &b));
    assert!(!verify_password("correct horsf", &a));
}

#[test]
fn malformed_hash_does_not_verify() {
    assert!(!verify_password("anything", "not a hash"));
    assert!(!verify_password("anything", ""));
}

#[test]
fn token_digest_is_sha256_hex() {
    assert_eq!(
        hash_access_token("abc"),
        "ba7816bf8f01cfea414140de5dae2223b00361a396177a9cb410ff61f20015ad"
    );
    assert_eq!(
        hash_access_token(""),
        "e3b0c44298fc1c149afbf4c8996fb92427ae41e4649b934ca495991b7852b855"
    );
}

#[test]
fn access_tokens_are_url_safe_and_fresh() {
    let a = generate_access_token();
    let b = generate_access_token();
    assert_eq!(a.len(), 43);
    assert_ne!(a, b);
    assert!(a.chars().all(|c| c.is_ascii_alphanumeric() || c == '-' || c == '_'));
    assert_eq!(hash_access_token(&a).len(), 64);
}

#[test]
fn temporary_passwords_pass_the_strength_rule() {
    let p = generate_temp_password();
    assert_eq!(p.chars().count(), 20);
    assert!(p.chars().all(|c| c.is_ascii_alphanumeric() || c == '-' || c == '_'));
    assert!(validate_new_password(&p).is_ok());
}
