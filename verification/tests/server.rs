use qr_utility::config::lan::{fallback_ip_usable, lan_ip_from_ifconfig};
use qr_utility::models::{EccLevel, ExportFormat, QrItem, TargetType};
use qr_utility::services::pages::{expired_page, photo_page, status_page};
use qr_utility::services::redirect_provider::{LocalRedirectProvider, RedirectProvider, RedirectResolution};
use qr_utility::services::redirect_server::{raw_reply, redirect_reply, ServerReply};
use qr_utility::storage::history::HistoryStore;

const MAC_IFCONFIG: &str = "lo0: flags=8049<UP,LOOPBACK,RUNNING,MULTICAST> mtu 16384\n\
\tinet 127.0.0.1 netmask 0xff000000\n\
utun0: flags=8051<UP,POINTOPOINT,RUNNING,MULTICAST> mtu 1380\n\
\tinet 10.8.0.2 --> 10.8.0.1 netmask 0xffffff00\n\
en0: flags=8863<UP,BROADCAST,SMART,RUNNING,SIMPLEX,MULTICAST> mtu 1500\n\
\tinet6 fe80::1%en0 prefixlen 64\n\
\tinet 169.254.3.4 netmask 0xffff0000\n\
\tinet 192.168.1.23 netmask 0xffffff00 broadcast 192.168.1.255\n";

#[test]
fn lan_address_skips_loopback_tunnels_and_link_local() {
    assert_eq!(lan_ip_from_ifconfig(MAC_IFCONFIG).as_deref(), Some("192.168.1.23"));
}

#[test]
fn lan_address_on_linux_output() {
    let out = "eth0: flags=4163<UP,BROADCAST,RUNNING,MULTICAST>  mtu 1500\r\n        inet 10.0.0.5  netmask 255.255.255.0  broadcast 10.0.0.255\r\n";
    assert_eq!(lan_ip_from_ifconfig(out).as_deref(), Some("10.0.0.5"));
    assert_eq!(lan_ip_from_ifconfig(""), None);
    assert_eq!(lan_ip_from_ifconfig("wg0: flags=209<UP,POINTOPOINT>\n\tinet 10.1.1.1\n"), None);
}

#[test]
fn fallback_addresses() {
    assert!(!fallback_ip_usable("127.0.1.1"));
    assert!(!fallback_ip_usable("10.3.2.1"));
    assert!(fallback_ip_usable("192.168.0.2"));
}

#[test]
fn redirect_replies() {
    match redirect_reply("c", RedirectResolution::ActiveUrl { target_url: "https://x/".to_string() }) {
        ServerReply::Redirect { status, location } => {
            assert_eq!(status, 302);
            assert_eq!(location, "https://x/");
        }
        _ => panic!("expected a redirect"),
    }
    match redirect_reply("c", RedirectResolution::NotFound) {
        ServerReply::Page { status, body } => {
            assert_eq!(status, 404);
            assert_eq!(body, "Not Found");
        }
        _ => panic!("expected a page"),
    }
    match redirect_reply(
        "c",
        RedirectResolution::Expired { original_url: "https://x/".to_string(), expired_at: "then".to_string() },
    ) {
        ServerReply::Page { status, body } => {
            assert_eq!(status, 410);
            assert_eq!(body, expired_page("https://x/", "then"));
            assert!(body.contains("https://x/") && body.contains("then"));
        }
        _ => panic!("expected a page"),
    }
    match redirect_reply(
        "abc",
        RedirectResolution::ActivePhoto { file_path: "/p/cat.png".to_string(), filename: "cat.png".to_string() },
    ) {
        ServerReply::Page { status, body } => {
            assert_eq!(status, 200);
            assert_eq!(body, photo_page("abc", "cat.png"));
            assert!(body.contains("/r/abc/raw"));
        }
        _ => panic!("expected a page"),
    }
}

#[test]
fn raw_replies() {
    match raw_reply(
        RedirectResolution::ActivePhoto { file_path: "~/p/cat.PNG".to_string(), filename: "cat.PNG".to_string() },
        Some("/home/u"),
    ) {
        ServerReply::File { path, mime } => {
            assert_eq!(path, "/home/u/p/cat.PNG");
            assert_eq!(mime, "image/png");
        }
        _ => panic!("expected a file"),
    }
    match raw_reply(RedirectResolution::NotFound, None) {
        ServerReply::Text { status, body } => {
            assert_eq!(status, 404);
            assert_eq!(body, "Not Found");
        }
        _ => panic!("expected text"),
    }
}

#[test]
fn status_page_names_the_address() {
    assert!(status_page("192.168.1.9").contains("http://192.168.1.9:8080"));
}

#[test]
fn dynamic_links_drop_trailing_slashes() {
    let p = LocalRedirectProvider::new(HistoryStore::new());
    let it = QrItem::with_identity(
        "i".to_string(),
        0,
        "https://x/".to_string(),
        TargetType::Url("https://x/".to_string()),
        "abc".to_string(),
        None,
        None,
        EccLevel::Medium,
        ExportFormat::Png,
    );
    assert_eq!(p.register_dynamic_url(&it, "http://h:8080//"), "http://h:8080/r/abc");
}

#[test]
fn photo_codes_resolve_to_photos() {
    let mut s = HistoryStore::new();
    s.add(QrItem::with_identity(
        "i".to_string(),
        0,
        "file:///p/cat.png".to_string(),
        TargetType::Photo { file_path: "/p/cat.png".to_string(), filename: "cat.png".to_string() },
        "ph".to_string(),
        None,
        None,
        EccLevel::Medium,
        ExportFormat::Png,
    ));
    let p = LocalRedirectProvider::new(s);
    match p.resolve_at("ph", 0) {
        RedirectResolution::ActivePhoto { file_path, filename } => {
            assert_eq!(file_path, "/p/cat.png");
            assert_eq!(filename, "cat.png");
        }
        _ => panic!("expected a photo"),
    }
}
