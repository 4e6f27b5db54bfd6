use dcms_auth::roles::validate_role;
use dcms_auth::validation::{
    validate_display_name, validate_new_password, validate_password, validate_username,
};

#[test]
fn test_validate_role_bounds() {
    assert!(validate_role(0).is_ok());
    assert!(validate_role(2).is_ok());
    assert!(validate_role(4).is_ok());

    assert!(validate_role(-1).is_err());
    assert!(validate_role(5).is_err());
    assert!(validate_role(100).is_err());
}

#[test]
fn test_validate_username() {
    assert!(validate_username("alice").is_ok());
    assert!(validate_username("al").is_err());
    assert!(validate_username("").is_err());
    assert!(validate_username("  ").is_err());
}

#[test]
fn test_validate_password() {
    assert!(validate_password("password123").is_ok());
    assert!(validate_password("short").is_err());
    assert!(validate_password("").is_err());
}

#[test]
fn username_length_counts_after_trimming() {
    assert!(validate_username("  bob  ").is_ok());
    assert!(validate_username("  bo  ").is_err());
}

#[test]
fn password_length_counts_bytes_after_trimming() {
    assert!(validate_password("   1234567   ").is_err());
    assert!(validate_password("12345678").is_ok());
    // four two-byte characters make eight bytes
    assert!(validate_new_password("éééé").is_ok());
    assert!(validate_new_password("ééé").is_err());
}

#[test]
fn display_name_must_not_be_blank() {
    assert!(validate_display_name("Dr Smith").is_ok());
    assert!(validate_display_name(" \t\n").is_err());
    assert!(validate_display_name("").is_err());
}

#[test]
fn trimming_removes_unicode_white_space() {
    assert!(validate_display_name("\u{3000}\u{a0}\u{2028}\t").is_err());
    assert!(validate_username("\u{3000}ab\u{a0}").is_err());
    assert!(validate_username("\u{3000}abc\u{a0}").is_ok());
    assert!(validate_password("\u{2003}1234567\u{2003}").is_err());
}

#[test]
fn validation_messages() {
    assert_eq!(validate_username(" ").err().unwrap().message(), "username is required");
    assert_eq!(
        validate_username("ab").err().unwrap().message(),
        "username must be at least 3 characters"
    );
    assert_eq!(validate_display_name("").err().unwrap().message(), "display_name is required");
    assert_eq!(
        validate_password("short").err().unwrap().message(),
        "password must be at least 8 characters"
    );
    assert_eq!(
        validate_new_password("short").err().unwrap().message(),
        "new_password must be at least 8 characters"
    );
}
