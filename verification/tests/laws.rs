use qr_utility::config::settings::{next_qr_size, server_host, AppConfig};
use qr_utility::generator::batch::{BatchGenerator, RowPlan};
use qr_utility::models::{AppTheme, EccLevel, ExpirationOption, ExportFormat, QrItem, TargetType, TimeUnit};
use qr_utility::services::redirect_provider::{LocalRedirectProvider, RedirectResolution};
use qr_utility::services::redirect_server::{
    bind_failure, first_bind_step, guess_mime, next_bind_step, port_candidates, BindStep,
};
use qr_utility::storage::history::HistoryStore;
use qr_utility::ui::tabs::AppTab;
use qr_utility::utils::FileOps;

fn item(id: &str, code: &str, url: &str, exp: Option<i64>) -> QrItem {
    QrItem::with_identity(
        id.to_string(),
        0,
        url.to_string(),
        TargetType::Url(url.to_string()),
        code.to_string(),
        None,
        exp,
        EccLevel::Medium,
        ExportFormat::Png,
    )
}

#[test]
fn tab_positions_round_trip() {
    for t in AppTab::all() {
        assert_eq!(AppTab::from_index(t.index()), t);
    }
    assert_eq!(AppTab::from_index(9), AppTab::Wizard);
    assert_eq!(AppTab::Batch.title(), " Batch CSV ");
}

#[test]
fn tab_cycle_and_back() {
    let mut t = AppTab::Server;
    for _ in 0..5 {
        t = t.after();
    }
    assert_eq!(t, AppTab::Server);
    assert_eq!(AppTab::Settings.after(), AppTab::Wizard);
    assert_eq!(AppTab::Wizard.before(), AppTab::Settings);
    assert_eq!(AppTab::History.after().before(), AppTab::History);
}

#[test]
fn ecc_and_format_cycles() {
    let mut e = EccLevel::Low;
    for _ in 0..4 {
        e = e.next();
    }
    assert_eq!(e, EccLevel::Low);
    assert_eq!(EccLevel::High.next(), EccLevel::Low);
    let mut f = ExportFormat::Svg;
    for _ in 0..5 {
        f = f.next();
    }
    assert_eq!(f, ExportFormat::Svg);
    assert_eq!(ExportFormat::Jpeg.next_preferred(), ExportFormat::Png);
    assert_eq!(ExportFormat::Ascii.next_preferred(), ExportFormat::Png);
}

#[test]
fn qr_size_cycle() {
    assert_eq!(next_qr_size(256), 512);
    assert_eq!(next_qr_size(512), 1024);
    assert_eq!(next_qr_size(1024), 2048);
    assert_eq!(next_qr_size(2048), 256);
    assert_eq!(next_qr_size(300), 256);
}

#[test]
fn theme_cycle() {
    let mut t = AppTheme::Cyberpunk;
    for _ in 0..6 {
        t = t.next();
    }
    assert_eq!(t, AppTheme::Cyberpunk);
    assert_ne!(AppTheme::Cyberpunk.next(), AppTheme::Cyberpunk);
}

#[test]
fn record_then_resolve_active_and_expired() {
    let mut store = HistoryStore::new();
    store.add(item("id-1", "abc", "https://a.example/", Some(1_000)));
    let p = LocalRedirectProvider::new(store);
    match p.resolve_at("abc", 999) {
        RedirectResolution::ActiveUrl { target_url } => assert_eq!(target_url, "https://a.example/"),
        _ => panic!("expected an active URL"),
    }
    match p.resolve_at("abc", 1_000) {
        RedirectResolution::Expired { original_url, expired_at } => {
            assert_eq!(original_url, "https://a.example/");
            assert_eq!(expired_at, "1970-01-01 00:00:01 UTC");
        }
        _ => panic!("expected an expired code"),
    }
    assert!(matches!(p.resolve_at("zzz", 0), RedirectResolution::NotFound));
}

#[test]
fn expiry_is_monotone() {
    assert!(!ExpirationOption::is_expired_at(Some(100), 99));
    assert!(ExpirationOption::is_expired_at(Some(100), 100));
    assert!(ExpirationOption::is_expired_at(Some(100), 5_000));
    assert!(!ExpirationOption::is_expired_at(None, i64::MAX));
}

#[test]
fn add_replaces_same_code_and_keeps_newest_first() {
    let mut store = HistoryStore::new();
    store.add(item("1", "c1", "https://one/", None));
    store.add(item("2", "c2", "https://two/", None));
    store.add(item("3", "c1", "https://three/", None));
    let items = store.items();
    assert_eq!(items.len(), 2);
    assert_eq!(items[0].id, "3");
    assert_eq!(items[1].id, "2");
    assert_eq!(store.find_by_short_code("c1").unwrap().original_url, "https://three/");
}

#[test]
fn toggle_twice_and_delete() {
    let mut store = HistoryStore::new();
    store.add(item("1", "c1", "https://one/", None));
    assert!(store.toggle_favorite("1"));
    assert!(!store.toggle_favorite("1"));
    assert!(!store.items()[0].is_favorite);
    assert!(!store.toggle_favorite("missing"));
    store.delete("1");
    assert_eq!(store.len(), 0);
    assert!(store.find_by_short_code("c1").is_none());
}

#[test]
fn blank_search_returns_all() {
    let mut store = HistoryStore::new();
    store.add(item("1", "c1", "https://one/", None));
    store.add(item("2", "c2", "https://two/", None));
    assert_eq!(store.search("   ").len(), 2);
    assert_eq!(store.search("TWO").len(), 1);
    assert_eq!(store.search("c1")[0].id, "1");
}

#[test]
fn history_keeps_two_hundred() {
    let mut store = HistoryStore::new();
    for i in 0..205 {
        store.add(item(&format!("id{}", i), &format!("c{}", i), "https://x/", None));
    }
    assert_eq!(store.len(), 200);
    assert_eq!(store.items()[0].id, "id204");
}

#[test]
fn lenient_expirations() {
    assert_eq!(ExpirationOption::from_str_lenient(" NEVER ").unwrap(), ExpirationOption::Never);
    assert_eq!(ExpirationOption::from_str_lenient("1hour").unwrap(), ExpirationOption::OneHour);
    assert_eq!(
        ExpirationOption::from_str_lenient("3w").unwrap(),
        ExpirationOption::Custom { value: 3, unit: TimeUnit::Weeks }
    );
    assert_eq!(
        ExpirationOption::from_str_lenient("5x").unwrap_err(),
        "Unknown time unit: x"
    );
    assert_eq!(
        ExpirationOption::from_str_lenient("soon").unwrap_err(),
        "Invalid expiration format: 'soon'. Try e.g. '30m', '1h', '7d', or 'never'."
    );
    assert!(ExpirationOption::try_from_str_lenient("5é").is_none());
}

#[test]
fn remaining_time_texts() {
    assert_eq!(ExpirationOption::format_remaining_at(None, 0), "Never expires");
    assert_eq!(ExpirationOption::format_remaining_at(Some(10), 10), "Expired");
    assert_eq!(ExpirationOption::format_remaining_at(Some(90_061_000), 0), "Expires in 1d 1h");
    assert_eq!(ExpirationOption::format_remaining_at(Some(3_720_000), 0), "Expires in 1h 2m");
    assert_eq!(ExpirationOption::format_remaining_at(Some(125_000), 0), "Expires in 2m 5s");
    assert_eq!(ExpirationOption::format_remaining_at(Some(42_000), 0), "Expires in 42s");
}

#[test]
fn custom_labels_and_bounds() {
    let c = ExpirationOption::Custom { value: 45, unit: TimeUnit::Minutes };
    assert_eq!(c.label(), "Custom (45 Minutes)");
    assert!(c.in_bounds());
    let huge = ExpirationOption::Custom { value: u64::MAX / 2, unit: TimeUnit::Months };
    assert!(!huge.in_bounds());
    assert_eq!(ExpirationOption::FiveMinutes.expiration_at(1_000), Some(301_000));
}

#[test]
fn expirations_never_lie_in_the_past() {
    let widest = ExpirationOption::Custom { value: u64::MAX, unit: TimeUnit::Minutes };
    assert!(!widest.in_bounds());
    assert_eq!(widest.expiration_checked(1_000), None);
    let wide = ExpirationOption::Custom { value: 1u64 << 63, unit: TimeUnit::Minutes };
    assert_eq!(wide.expiration_checked(1_000), None);
    let day = ExpirationOption::Custom { value: 1, unit: TimeUnit::Days };
    assert_eq!(day.expiration_checked(1_000), Some(Some(86_401_000)));
}

#[test]
fn port_search_steps() {
    match first_bind_step(8080) {
        BindStep::Try { port } => assert_eq!(port, 8080),
        _ => panic!("expected a port"),
    }
    match next_bind_step(8080, 8083) {
        BindStep::Try { port } => assert_eq!(port, 8084),
        _ => panic!("expected a port"),
    }
    match next_bind_step(8080, 8089) {
        BindStep::GiveUp { message } => assert_eq!(message, "Could not bind to any port in range 8080-8089"),
        _ => panic!("expected the failure"),
    }
    assert!(matches!(next_bind_step(65530, 65535), BindStep::Overflow));
}

#[test]
fn server_address_text() {
    assert_eq!(server_host("192.168.1.5", 8080), "http://192.168.1.5:8080");
    assert_eq!(port_candidates(8080), (8080..8090).collect::<Vec<u16>>());
    assert_eq!(bind_failure(8080), "Could not bind to any port in range 8080-8089");
}

#[test]
fn settings_of_a_first_start() {
    let c = AppConfig::with_environment(Some("/home/u"), "10.0.0.2");
    assert_eq!(c.default_output_dir, "/home/u/qrcodes");
    assert_eq!(c.default_qr_size, 512);
    assert_eq!(c.default_ecc_level, EccLevel::Medium);
    assert_eq!(c.preferred_format, ExportFormat::Png);
    assert_eq!(c.theme, AppTheme::Cyberpunk);
    assert!(c.default_quiet_zone && !c.transparent_bg && c.dynamic_server_enabled);
    assert_eq!(c.dynamic_server_port, 8080);
    assert_eq!(c.dynamic_server_host, "http://10.0.0.2:8080");
    let d = AppConfig::with_environment(None, "127.0.0.1");
    assert_eq!(d.default_output_dir, "./qrcodes");
}

#[test]
fn refresh_host_uses_the_port() {
    let mut c = AppConfig::with_environment(None, "127.0.0.1");
    c.dynamic_server_port = 9090;
    c.refresh_host("192.168.0.7");
    assert_eq!(c.dynamic_server_host, "http://192.168.0.7:9090");
}

#[test]
fn settings_and_history_paths() {
    assert_eq!(
        AppConfig::config_path_for(Some("/home/u")),
        "/home/u/.config/qr-utility/config.toml"
    );
    assert_eq!(
        AppConfig::config_path_for(Some("/home/u/")),
        "/home/u/.config/qr-utility/config.toml"
    );
    assert_eq!(AppConfig::config_path_for(None), "config.toml");
    assert_eq!(
        HistoryStore::history_path_for(Some("/root")),
        "/root/.config/qr-utility/history.json"
    );
    assert_eq!(HistoryStore::history_path_for(None), "history.json");
}

#[test]
fn path_joins() {
    assert_eq!(FileOps::join("/out", "a.png"), "/out/a.png");
    assert_eq!(FileOps::join("/out/", "a.png"), "/out/a.png");
    assert_eq!(FileOps::join("", "a.png"), "a.png");
    assert_eq!(FileOps::join("/out", "/abs/a.png"), "/abs/a.png");
}

#[test]
fn file_system_queries() {
    assert!(FileOps::path_exists("/"));
    assert!(!FileOps::path_exists("/definitely/not/here/qr.png"));
}

#[test]
fn dragged_paths_are_cleaned() {
    assert_eq!(
        FileOps::sanitize_path("  '~/Pictures/a\\ b.png' ", Some("/home/u")),
        "/home/u/Pictures/a b.png"
    );
    assert_eq!(FileOps::sanitize_path("file:///tmp/a%20b.png", None), "/tmp/a b.png");
    assert_eq!(FileOps::sanitize_path("'file:///tmp/a.png'", None), "/tmp/a.png");
    assert_eq!(FileOps::sanitize_path("\"file:///tmp/a%20b.png\"", None), "/tmp/a b.png");
    assert_eq!(FileOps::sanitize_path("~", None), "~");
}

#[test]
fn mime_types() {
    assert_eq!(guess_mime("Photo.JPEG"), "image/jpeg");
    assert_eq!(guess_mime("a.webp"), "image/webp");
    assert_eq!(guess_mime("notes.txt"), "application/octet-stream");
}

#[test]
fn batch_file_names() {
    let label: Vec<char> = "my label!".chars().collect();
    assert_eq!(BatchGenerator::batch_filename(0, &label, ExportFormat::Png), "qr_my_label_.png");
    assert_eq!(BatchGenerator::batch_filename(6, &[], ExportFormat::Svg), "qr_batch_007.svg");
    assert_eq!(BatchGenerator::row_error_message(2, "boom"), "Row 3: boom");
}

#[test]
fn batch_rows_are_planned() {
    let row = |v: &[&str]| v.iter().map(|s| s.to_string()).collect::<Vec<String>>();
    assert!(matches!(
        BatchGenerator::plan_row(0, &row(&[]), ExportFormat::Png, EccLevel::Medium, AppTheme::Ocean, 256),
        RowPlan::Skip
    ));
    match BatchGenerator::plan_row(0, &row(&[" ftp://x ", "a"]), ExportFormat::Png, EccLevel::Medium, AppTheme::Ocean, 256) {
        RowPlan::Fail { message } => assert!(message.starts_with("Row 1 invalid URL 'ftp://x': Unsupported protocol 'ftp'")),
        _ => panic!("expected a failure"),
    }
    match BatchGenerator::plan_row(4, &row(&["https://a.com", " My Label "]), ExportFormat::Svg, EccLevel::Medium, AppTheme::Ocean, 256) {
        RowPlan::Write { filename, .. } => assert_eq!(filename, "qr_My_Label.svg"),
        _ => panic!("expected a file"),
    }
    assert!(matches!(
        BatchGenerator::plan_row(0, &row(&["https://a.com"]), ExportFormat::Png, EccLevel::Medium, AppTheme::Ocean, u32::MAX),
        RowPlan::Oversized
    ));
}

#[test]
fn screen_times_in_utc() {
    assert_eq!(qr_utility::clock::utc_display(0), "1970-01-01 00:00:00 UTC");
    assert_eq!(qr_utility::clock::utc_display(86_400_000 + 61_000), "1970-01-02 00:01:01 UTC");
    assert_eq!(qr_utility::clock::utc_display(i64::MAX), "");
}

#[test]
fn short_codes_are_hex() {
    let c = qr_utility::cli::Cli::new_short_code();
    assert_eq!(c.len(), 8);
    assert!(c.chars().all(|ch| ch.is_ascii_digit() || ('a'..='f').contains(&ch)));
}
