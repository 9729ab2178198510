use pallet_member::types::Error;
use pallet_member::validate::{validate_date, validate_email, validate_mobile};

fn email_ok(s: &str) -> bool {
    validate_email(&s.as_bytes().to_vec()).is_ok()
}

fn mobile_ok(s: &str) -> bool {
    validate_mobile(&s.as_bytes().to_vec()).is_ok()
}

fn date_ok(s: &str) -> bool {
    validate_date(&s.as_bytes().to_vec()).is_ok()
}

#[test]
fn accepts_ordinary_emails() {
    assert!(email_ok("a@b.com"));
    assert!(email_ok("john.doe@example.com"));
    assert!(email_ok("user+tag_1-x@sub.domain-name.org"));
}

#[test]
fn rejects_malformed_emails() {
    assert!(!email_ok("not-an-email"));
    assert!(!email_ok(""));
    assert!(!email_ok("a@b@c.com"));
    assert!(!email_ok("@b.com"));
    assert!(!email_ok("a@"));
    assert!(!email_ok("a@bcom"));
    assert!(!email_ok(".a@b.com"));
    assert!(!email_ok("a.@b.com"));
    assert!(!email_ok("a..b@c.com"));
    assert!(!email_ok("a@.b.com"));
    assert!(!email_ok("a@b.com."));
    assert!(!email_ok("a@-b.com"));
    assert!(!email_ok("a@b.com-"));
    assert!(!email_ok("a b@c.com"));
    assert!(!email_ok("a@b c.com"));
    assert!(!email_ok("a!\u{e9}@b.com"));
    assert_eq!(
        validate_email(&b"two@ats@x.com".to_vec()),
        Err(Error::InvalidEmailFormat)
    );
}

#[test]
fn email_local_part_length_bounds() {
    let local_64 = "x".repeat(64);
    let local_65 = "x".repeat(65);
    assert!(email_ok(&format!("{local_64}@b.com")));
    assert!(!email_ok(&format!("{local_65}@b.com")));
}

#[test]
fn email_domain_length_bounds() {
    let mut domain_253 = "d.".repeat(10);
    domain_253.push_str(&"x".repeat(253 - domain_253.len()));
    assert_eq!(domain_253.len(), 253);
    let mut domain_254 = domain_253.clone();
    domain_254.push('x');
    assert!(email_ok(&format!("a@{domain_253}")));
    assert!(!email_ok(&format!("a@{domain_254}")));
}

#[test]
fn accepts_mobiles_with_and_without_plus() {
    assert!(mobile_ok("+12345678"));
    assert!(mobile_ok("1234567"));
    assert!(mobile_ok("123456789012345"));
    assert!(mobile_ok("+123456789012345"));
}

#[test]
fn rejects_malformed_mobiles() {
    assert!(!mobile_ok(""));
    assert!(!mobile_ok("+"));
    assert!(!mobile_ok("123456"));
    assert!(!mobile_ok("+123456"));
    assert!(!mobile_ok("1234567890123456"));
    assert!(!mobile_ok("12345a78"));
    assert!(!mobile_ok("1234 5678"));
    assert!(!mobile_ok("++1234567"));
    assert_eq!(
        validate_mobile(&b"12-34567".to_vec()),
        Err(Error::InvalidMobileFormat)
    );
}

#[test]
fn accepts_well_formed_dates() {
    assert!(date_ok("2000-01-01"));
    assert!(date_ok("1900-01-01"));
    assert!(date_ok("2100-12-31"));
    assert!(date_ok("1998-08-20"));
}

#[test]
fn rejects_malformed_dates() {
    assert!(!date_ok(""));
    assert!(!date_ok("2000-1-1"));
    assert!(!date_ok("2000/01/01"));
    assert!(!date_ok("2000-01-011"));
    assert!(!date_ok("1899-12-31"));
    assert!(!date_ok("2101-01-01"));
    assert!(!date_ok("2000-00-10"));
    assert!(!date_ok("2000-13-10"));
    assert!(!date_ok("2000-01-00"));
    assert!(!date_ok("2000-01-32"));
    assert!(!date_ok("20o0-01-01"));
    assert_eq!(
        validate_date(&b"01-01-2000".to_vec()),
        Err(Error::InvalidDateFormat)
    );
}

#[test]
fn day_31_is_accepted_in_every_month() {
    // The format check is syntactic: no month-length cross-check exists.
    assert!(date_ok("2000-02-31"));
}
