use noscha::email::{extract_username, lookup_forward_address, username_from_lowered, validate_email};
use noscha::model::{EmailService, Rental, RentalServices, RentalStatus};
use noscha::pricing::Plan;

/// 2025-01-01T00:00:00Z in milliseconds since the epoch.
const JAN_1_2025: u64 = 1_735_689_600_000;
/// 2025-02-01T00:00:00Z in milliseconds since the epoch.
const FEB_1_2025: u64 = 1_738_368_000_000;

#[test]
fn test_validate_email_valid() {
    assert!(validate_email("alice@example.com").is_ok());
    assert!(validate_email("user.name@domain.co.jp").is_ok());
    assert!(validate_email("test+tag@mail.example.org").is_ok());
    assert!(validate_email("a@b.co").is_ok());
}

#[test]
fn test_validate_email_empty() {
    assert!(validate_email("").is_err());
}

#[test]
fn test_validate_email_no_at() {
    assert!(validate_email("userexample.com").is_err());
}

#[test]
fn test_validate_email_no_domain_dot() {
    assert!(validate_email("user@localhost").is_err());
}

#[test]
fn test_validate_email_empty_local() {
    assert!(validate_email("@example.com").is_err());
}

#[test]
fn test_validate_email_empty_domain() {
    assert!(validate_email("user@").is_err());
}

#[test]
fn test_validate_email_domain_leading_dot() {
    assert!(validate_email("user@.example.com").is_err());
}

#[test]
fn test_validate_email_domain_trailing_dot() {
    assert!(validate_email("user@example.com.").is_err());
}

#[test]
fn test_validate_email_domain_consecutive_dots() {
    assert!(validate_email("user@example..com").is_err());
}

#[test]
fn test_validate_email_too_long() {
    let long_local = "a".repeat(65);
    assert!(validate_email(&format!("{}@example.com", long_local)).is_err());
}

#[test]
fn email_refusals_name_their_rule() {
    assert_eq!(validate_email("").unwrap_err(), "Email address cannot be empty");
    let long = format!("{}@example.com", "a".repeat(250));
    assert_eq!(validate_email(&long).unwrap_err(), "Email address is too long");
    assert_eq!(validate_email("userexample.com").unwrap_err(), "Email must contain exactly one @ symbol");
    assert_eq!(validate_email("@example.com").unwrap_err(), "Email local part cannot be empty");
    let local65 = format!("{}@example.com", "a".repeat(65));
    assert_eq!(validate_email(&local65).unwrap_err(), "Email local part is too long");
    let local64 = format!("{}@example.com", "a".repeat(64));
    assert!(validate_email(&local64).is_ok());
    assert_eq!(validate_email("user@").unwrap_err(), "Email domain cannot be empty");
    assert_eq!(validate_email("user@localhost").unwrap_err(), "Email domain must contain a dot");
    assert_eq!(validate_email("user@.example.com").unwrap_err(), "Email domain cannot start or end with a dot");
    assert_eq!(validate_email("user@example..com").unwrap_err(), "Email domain cannot contain consecutive dots");
    // The address splits at its first @: the rest belongs to the domain.
    assert!(validate_email("a@b@c.com").is_ok());
}

#[test]
fn test_extract_username_valid() {
    assert_eq!(
        extract_username("alice@noscha.io", "noscha.io"),
        Some("alice".to_string())
    );
}

#[test]
fn test_extract_username_case_insensitive() {
    assert_eq!(
        extract_username("Alice@Noscha.IO", "noscha.io"),
        Some("alice".to_string())
    );
}

#[test]
fn test_extract_username_wrong_domain() {
    assert_eq!(extract_username("alice@other.com", "noscha.io"), None);
}

#[test]
fn test_extract_username_empty_local() {
    assert_eq!(extract_username("@noscha.io", "noscha.io"), None);
}

#[test]
fn username_from_lowered_cuts_the_suffix() {
    assert_eq!(username_from_lowered("bob@noscha.io", "@noscha.io"), Some("bob".to_string()));
    assert_eq!(username_from_lowered("@noscha.io", "@noscha.io"), None);
    assert_eq!(username_from_lowered("bob@other.io", "@noscha.io"), None);
    assert_eq!(extract_username("BOB@NOSCHA.IO", "NOSCHA.IO"), Some("bob".to_string()));
}

fn make_rental(status: &str, email_enabled: bool, forward_to: &str) -> Rental {
    Rental {
        username: "alice".to_string(),
        status: RentalStatus::parse(status).unwrap(),
        created_at: JAN_1_2025,
        expires_at: FEB_1_2025,
        plan: Plan::ThirtyDays,
        services: RentalServices {
            email: Some(EmailService {
                enabled: email_enabled,
                forward_to: forward_to.to_string(),
                cf_rule_id: None,
            }),
            subdomain: None,
            nip05: None,
        },
        management_token: None,
        webhook_url: None,
    }
}

#[test]
fn test_lookup_forward_active_enabled() {
    let rental = make_rental("active", true, "alice@example.com");
    assert_eq!(
        lookup_forward_address(&rental),
        Some("alice@example.com".to_string())
    );
}

#[test]
fn test_lookup_forward_expired() {
    let rental = make_rental("expired", true, "alice@example.com");
    assert_eq!(lookup_forward_address(&rental), None);
}

#[test]
fn test_lookup_forward_disabled() {
    let rental = make_rental("active", false, "alice@example.com");
    assert_eq!(lookup_forward_address(&rental), None);
}

#[test]
fn test_lookup_forward_empty_address() {
    let rental = make_rental("active", true, "");
    assert_eq!(lookup_forward_address(&rental), None);
}

#[test]
fn test_lookup_forward_no_email_service() {
    let rental = Rental {
        username: "bob".to_string(),
        status: RentalStatus::parse("active").unwrap(),
        created_at: JAN_1_2025,
        expires_at: FEB_1_2025,
        plan: Plan::SevenDays,
        services: RentalServices {
            email: None,
            subdomain: None,
            nip05: None,
        },
        management_token: None,
        webhook_url: None,
    };
    assert_eq!(lookup_forward_address(&rental), None);
}

#[test]
fn rental_status_text_round_trips() {
    assert_eq!(RentalStatus::parse("active"), Some(RentalStatus::Active));
    assert_eq!(RentalStatus::parse("expired"), Some(RentalStatus::Expired));
    assert_eq!(RentalStatus::parse("banned"), None);
    assert_eq!(RentalStatus::Expired.as_str(), "expired");
}
