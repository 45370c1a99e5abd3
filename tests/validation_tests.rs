use noscha::validation::validate_username;

#[test]
fn test_valid_usernames() {
    assert!(validate_username("abc").is_ok());
    assert!(validate_username("test-user").is_ok());
    assert!(validate_username("a1b").is_ok());
    assert!(validate_username("aaa").is_ok());
    assert!(validate_username("abcdefghijklmnopqrst").is_ok());
}

#[test]
fn test_too_short() {
    assert!(validate_username("ab").is_err());
    assert!(validate_username("a").is_err());
    assert!(validate_username("").is_err());
}

#[test]
fn test_too_long() {
    assert!(validate_username("abcdefghijklmnopqrstu").is_err());
}

#[test]
fn test_hyphen_boundaries() {
    assert!(validate_username("-abc").is_err());
    assert!(validate_username("abc-").is_err());
}

#[test]
fn test_invalid_chars() {
    assert!(validate_username("ABC").is_err());
    assert!(validate_username("ab@c").is_err());
    assert!(validate_username("ab c").is_err());
}

#[test]
fn test_reserved() {
    assert!(validate_username("admin").is_err());
    assert!(validate_username("www").is_err());
    assert!(validate_username("noscha").is_err());
}

#[test]
fn username_refusals_name_their_rule() {
    assert_eq!(validate_username("ab").unwrap_err(), "Username must be at least 3 characters");
    assert_eq!(
        validate_username("abcdefghijklmnopqrstu").unwrap_err(),
        "Username must be at most 20 characters"
    );
    assert_eq!(validate_username("-ab").unwrap_err(), "Username cannot start or end with a hyphen");
    assert_eq!(
        validate_username("a_b").unwrap_err(),
        "Username can only contain lowercase letters, digits, and hyphens"
    );
    assert_eq!(
        validate_username("_dmarc").unwrap_err(),
        "Username can only contain lowercase letters, digits, and hyphens"
    );
    assert_eq!(validate_username("localhost").unwrap_err(), "This username is reserved");
}
