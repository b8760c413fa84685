use qr_utility::utils::UrlValidator;

#[test]
fn test_valid_urls() {
    assert!(UrlValidator::validate("https://google.com").is_ok());
    assert!(UrlValidator::validate("http://example.org/path?q=1").is_ok());
    assert!(UrlValidator::validate("example.com").is_ok());
}

#[test]
fn test_invalid_urls() {
    assert!(UrlValidator::validate("").is_err());
    assert!(UrlValidator::validate("   ").is_err());
    assert!(UrlValidator::validate("ftp://files.example.com").is_err());
}

#[test]
fn missing_scheme_is_https() {
    let u = UrlValidator::validate("  example.com/a  ").unwrap();
    assert!(u.starts_with("https://example.com"));
}

#[test]
fn empty_url_message() {
    assert_eq!(UrlValidator::validate("").unwrap_err(), "URL cannot be empty.");
}

#[test]
fn unsupported_scheme_message() {
    let e = UrlValidator::validate("ftp://files.example.com").unwrap_err();
    assert!(e.starts_with("Unsupported protocol 'ftp'"));
}

#[test]
fn syntax_errors_are_reported() {
    let e = UrlValidator::validate("http://exa mple.com").unwrap_err();
    assert!(e.starts_with("Invalid URL syntax: "));
}

#[test]
fn normalized_serialization() {
    assert_eq!(UrlValidator::validate("HTTPS://Example.COM").unwrap(), "https://example.com/");
}

#[test]
fn truncation_marks_the_cut() {
    assert_eq!(UrlValidator::truncate("https://example.com/long/path", 10), "https:/...");
    assert_eq!(UrlValidator::truncate("short", 10), "short");
}
