use qr_utility::cli::Cli;
use qr_utility::models::{EccLevel, ExpirationOption, ExportFormat, QrItem, TargetType};

#[test]
fn ecc_flags() {
    assert_eq!(Cli::ecc_from_flag("l"), EccLevel::Low);
    assert_eq!(Cli::ecc_from_flag("M"), EccLevel::Medium);
    assert_eq!(Cli::ecc_from_flag("q"), EccLevel::Quartile);
    assert_eq!(Cli::ecc_from_flag("H"), EccLevel::High);
    assert_eq!(Cli::ecc_from_flag("x"), EccLevel::Medium);
}

#[test]
fn format_flags() {
    assert_eq!(Cli::format_from_flag("SVG"), ExportFormat::Svg);
    assert_eq!(Cli::format_from_flag("jpg"), ExportFormat::Jpeg);
    assert_eq!(Cli::format_from_flag("Jpeg"), ExportFormat::Jpeg);
    assert_eq!(Cli::format_from_flag("ascii"), ExportFormat::Ascii);
    assert_eq!(Cli::format_from_flag("txt"), ExportFormat::Unicode);
    assert_eq!(Cli::format_from_flag("gif"), ExportFormat::Png);
}

#[test]
fn short_codes_have_eight_characters() {
    let a = Cli::new_short_code();
    assert_eq!(a.chars().count(), 8);
    assert_ne!(a, Cli::new_short_code());
}

#[test]
fn encoded_targets() {
    assert_eq!(
        Cli::encoded_target(false, "https://x/", "http://10.0.0.2:8080", "abcd1234"),
        "http://10.0.0.2:8080/r/abcd1234"
    );
    assert_eq!(Cli::encoded_target(true, "https://x/", "http://h", "c"), "https://x/");
}

#[test]
fn generate_rejects_a_bad_url() {
    match Cli::plan_generate("", "30m", "png", "M", false, "http://h:8080", "abcd1234") {
        Some(Err(m)) => assert_eq!(m, "Invalid URL: URL cannot be empty."),
        _ => panic!("expected the URL error"),
    }
}

#[test]
fn generate_rejects_a_bad_expiration() {
    match Cli::plan_generate("example.com", "soon", "png", "M", false, "http://h:8080", "abcd1234") {
        Some(Err(m)) => assert_eq!(
            m,
            "Invalid expiration format: 'soon'. Try e.g. '30m', '1h', '7d', or 'never'."
        ),
        _ => panic!("expected the expiration error"),
    }
    assert!(Cli::plan_generate("example.com", "5é", "png", "M", false, "h", "c").is_none());
}

#[test]
fn generate_plans_a_dynamic_code() {
    let plan = match Cli::plan_generate("example.com", "1h", "svg", "h", false, "http://h:8080", "abcd1234") {
        Some(Ok(p)) => p,
        _ => panic!("expected a plan"),
    };
    assert!(plan.valid_url.starts_with("https://example.com"));
    assert_eq!(plan.expiration, ExpirationOption::OneHour);
    assert_eq!(plan.ecc, EccLevel::High);
    assert_eq!(plan.format, ExportFormat::Svg);
    assert_eq!(plan.encoded_target, "http://h:8080/r/abcd1234");
    let item = plan.item().unwrap();
    assert_eq!(item.short_code, "abcd1234");
    assert_eq!(item.dynamic_url.as_deref(), Some("http://h:8080/r/abcd1234"));
    assert!(item.expiration_time.is_some());
    assert!(matches!(item.target_type, TargetType::Url(ref u) if *u == plan.valid_url));
}

#[test]
fn generate_plans_a_static_code() {
    let plan = match Cli::prepare_generate("http://example.org/x", "never", "png", "M", true, "http://h") {
        Some(Ok(p)) => p,
        _ => panic!("expected a plan"),
    };
    assert_eq!(plan.encoded_target, plan.valid_url);
    assert_eq!(plan.short_code.chars().count(), 8);
    let item = plan.item().unwrap();
    assert!(item.dynamic_url.is_none());
    assert!(item.expiration_time.is_none());
}

#[test]
fn history_lines() {
    let mut it = QrItem::with_identity(
        "id".to_string(),
        0,
        "https://x/".to_string(),
        TargetType::Url("https://x/".to_string()),
        "abc".to_string(),
        None,
        None,
        EccLevel::Medium,
        ExportFormat::Png,
    );
    assert_eq!(Cli::history_line(0, &it, 0), "1.   URL: https://x/ | Exp: Never expires | Code: abc");
    it.is_favorite = true;
    it.expiration_time = Some(5_000);
    assert_eq!(Cli::history_line(1, &it, 9_000), "2. ★ URL: https://x/ | Exp: Expired | Code: abc");
    assert_eq!(Cli::history_entry(1, &it), "2. ★ URL: https://x/ | Exp: Expired | Code: abc");
    it.expiration_time = None;
    assert_eq!(Cli::history_entry(2, &it), "3. ★ URL: https://x/ | Exp: Never expires | Code: abc");
}

#[test]
fn plan_items_stop_at_the_calendar() {
    let plan = match Cli::plan_generate("example.com", "14000000w", "png", "M", true, "h", "abcd1234") {
        Some(Ok(p)) => p,
        _ => panic!("expected a plan"),
    };
    assert!(plan.item().is_none());
}
