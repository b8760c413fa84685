//! The HTML pages the redirect server answers with.
use vstd::prelude::*;

use crate::text::{push_str, string_of};

verus! {

/// Part 0 of the status page.
pub const STATUS_0: &'static str = "<!DOCTYPE html>\n<html>\n<head><meta charset=\"utf-8\"><title>QR Utility Server</title>\n<meta name=\"viewport\" content=\"width=device-width, initial-scale=1.0\">\n<style>\nbody { font-family: -apple-system, BlinkMacSystemFont, 'Segoe UI', Roboto, sans-serif; background: #0f172a; color: #f8fafc; display: flex; align-items: center; justify-content: center; height: 100vh; margin: 0; }\n.card { background: #1e293b; padding: 2.5rem 3rem; border-radius: 1rem; box-shadow: 0 20px 25px -5px rgba(0,0,0,0.5); text-align: center; border: 1px solid #334155; max-width: 500px; }\nh1 { color: #38bdf8; margin-bottom: 0.5rem; font-size: 1.5rem; }\np { color: #94a3b8; margin: 0.5rem 0; }\n.badge { background: #10b981; color: #022c22; font-weight: bold; padding: 0.25rem 0.75rem; border-radius: 9999px; font-size: 0.85rem; }\n.ip { font-family: monospace; color: #f59e0b; background: #0f172a; padding: 0.25rem 0.5rem; border-radius: 0.25rem; }\n</style>\n</head>\n<body>\n<div class=\"card\">\n  <h1>⚡ QR Utility Server</h1>\n  <p>Status: <span class=\"badge\">ACTIVE</span></p>\n  <p>LAN: <span class=\"ip\">http://";

/// Part 1 of the status page.
pub const STATUS_1: &'static str = ":8080</span></p>\n  <p style=\"color:#64748b;font-size:0.85rem;\">Serving dynamic QR redirects & shared photos.</p>\n</div>\n</body>\n</html>";

/// Part 0 of the photo page.
pub const PHOTO_0: &'static str = "<!DOCTYPE html>\n<html>\n<head>\n<meta charset=\"utf-8\">\n<meta name=\"viewport\" content=\"width=device-width, initial-scale=1.0\">\n<title>Shared Photo</title>\n<style>\n* { box-sizing: border-box; margin: 0; padding: 0; }\nbody { background: #090d16; color: #f8fafc; font-family: -apple-system, BlinkMacSystemFont, \"Segoe UI\", Roboto, sans-serif; display: flex; flex-direction: column; align-items: center; justify-content: center; min-height: 100vh; padding: 1.5rem; }\n.container { background: #131c2e; border: 1px solid #1e2d4a; border-radius: 1.25rem; padding: 1.5rem; max-width: 640px; width: 100%; box-shadow: 0 25px 50px -12px rgba(0,0,0,0.7); text-align: center; }\n.header { margin-bottom: 1.25rem; display: flex; align-items: center; justify-content: space-between; border-bottom: 1px solid #1e2d4a; padding-bottom: 0.75rem; }\n.title { font-size: 1.1rem; font-weight: 600; color: #38bdf8; }\n.badge { background: #0284c7; color: #f0f9ff; font-size: 0.75rem; font-weight: bold; padding: 0.2rem 0.6rem; border-radius: 9999px; }\n.img-wrapper { border-radius: 0.75rem; overflow: hidden; background: #000; max-height: 70vh; margin-bottom: 1.25rem; border: 1px solid #334155; }\nimg { max-width: 100%; max-height: 70vh; object-fit: contain; display: block; margin: 0 auto; }\n.actions { display: flex; gap: 0.75rem; justify-content: center; flex-wrap: wrap; }\n.btn { background: #0284c7; color: white; border: none; padding: 0.6rem 1.25rem; border-radius: 0.5rem; font-size: 0.9rem; font-weight: 600; text-decoration: none; cursor: pointer; transition: background 0.2s; }\n.btn:hover { background: #0369a1; }\n.footer { margin-top: 1rem; color: #64748b; font-size: 0.8rem; }\n</style>\n</head>\n<body>\n<div class=\"container\">\n  <div class=\"header\">\n    <div class=\"title\">📷 Shared Photo</div>\n    <div class=\"badge\">QR UTILITY</div>\n  </div>\n  <div class=\"img-wrapper\">\n    <img src=\"";

/// Part 1 of the photo page.
pub const PHOTO_1: &'static str = "\" alt=\"";

/// Part 2 of the photo page.
pub const PHOTO_2: &'static str = "\" />\n  </div>\n  <div class=\"actions\">\n    <a href=\"";

/// Part 3 of the photo page.
pub const PHOTO_3: &'static str = "\" download=\"";

/// Part 4 of the photo page.
pub const PHOTO_4: &'static str = "\" class=\"btn\">⬇ Download</a>\n    <a href=\"";

/// Part 5 of the photo page.
pub const PHOTO_5: &'static str = "\" target=\"_blank\" class=\"btn\" style=\"background:#334155;\">🔍 Full Size</a>\n  </div>\n  <div class=\"footer\">";

/// Part 6 of the photo page.
pub const PHOTO_6: &'static str = "</div>\n</div>\n</body>\n</html>";

/// Part 0 of the expired page.
pub const EXPIRED_0: &'static str = "<!DOCTYPE html>\n<html>\n<head><meta charset=\"utf-8\"><title>QR Expired</title>\n<meta name=\"viewport\" content=\"width=device-width, initial-scale=1.0\">\n<style>\nbody { font-family: system-ui, -apple-system, sans-serif; background: #0f172a; color: #f8fafc; display: flex; align-items: center; justify-content: center; height: 100vh; margin: 0; }\n.card { background: #1e293b; padding: 3rem; border-radius: 1rem; border: 1px solid #ef4444; text-align: center; max-width: 480px; }\nh1 { color: #ef4444; font-size: 1.8rem; margin-bottom: 1rem; }\np { color: #94a3b8; font-size: 1rem; line-height: 1.5; }\n.url { background: #0f172a; padding: 0.5rem; border-radius: 0.5rem; font-family: monospace; color: #64748b; word-break: break-all; margin: 1rem 0; }\n</style>\n</head>\n<body>\n<div class=\"card\">\n  <h1>⏳ QR Code Expired</h1>\n  <p>This link is no longer active.</p>\n  <div class=\"url\">";

/// Part 1 of the expired page.
pub const EXPIRED_1: &'static str = "</div>\n  <p><small>Expired: ";

/// Part 2 of the expired page.
pub const EXPIRED_2: &'static str = "</small></p>\n</div>\n</body>\n</html>";

/// The server's status page for the LAN address `lan_ip`.
pub open spec fn status_page_text(lan_ip: Seq<char>) -> Seq<char> {
    STATUS_0@ + lan_ip + STATUS_1@
}

/// The path of a shared photo's raw bytes.
pub open spec fn raw_path(code: Seq<char>) -> Seq<char> {
    "/r/"@ + code + "/raw"@
}

/// The viewer page of a shared photo.
pub open spec fn photo_page_text(code: Seq<char>, filename: Seq<char>) -> Seq<char> {
    let raw = raw_path(code);
    PHOTO_0@ + raw + PHOTO_1@ + filename + PHOTO_2@ + raw + PHOTO_3@ + filename + PHOTO_4@ + raw
        + PHOTO_5@ + filename + PHOTO_6@
}

/// The notice shown for an expired code.
pub open spec fn expired_page_text(original_url: Seq<char>, expired_at: Seq<char>) -> Seq<char> {
    EXPIRED_0@ + original_url + EXPIRED_1@ + expired_at + EXPIRED_2@
}

/// The server's status page for the LAN address `lan_ip`.
pub fn status_page(lan_ip: &str) -> (r: String)
    ensures
        r@ == status_page_text(lan_ip@),
{
    let mut v: Vec<char> = Vec::new();
    push_str(&mut v, STATUS_0);
    push_str(&mut v, lan_ip);
    push_str(&mut v, STATUS_1);
    string_of(v.as_slice())
}

/// The viewer page of the photo shared under `code`.
pub fn photo_page(code: &str, filename: &str) -> (r: String)
    ensures
        r@ == photo_page_text(code@, filename@),
{
    let mut raw: Vec<char> = Vec::new();
    push_str(&mut raw, "/r/");
    push_str(&mut raw, code);
    push_str(&mut raw, "/raw");
    let raw_text = string_of(raw.as_slice());
    let raw_str = raw_text.as_str();
    let mut v: Vec<char> = Vec::new();
    push_str(&mut v, PHOTO_0);
    push_str(&mut v, raw_str);
    push_str(&mut v, PHOTO_1);
    push_str(&mut v, filename);
    push_str(&mut v, PHOTO_2);
    push_str(&mut v, raw_str);
    push_str(&mut v, PHOTO_3);
    push_str(&mut v, filename);
    push_str(&mut v, PHOTO_4);
    push_str(&mut v, raw_str);
    push_str(&mut v, PHOTO_5);
    push_str(&mut v, filename);
    push_str(&mut v, PHOTO_6);
    string_of(v.as_slice())
}

/// The notice for an expired code that pointed at `original_url`.
pub fn expired_page(original_url: &str, expired_at: &str) -> (r: String)
    ensures
        r@ == expired_page_text(original_url@, expired_at@),
{
    let mut v: Vec<char> = Vec::new();
    push_str(&mut v, EXPIRED_0);
    push_str(&mut v, original_url);
    push_str(&mut v, EXPIRED_1);
    push_str(&mut v, expired_at);
    push_str(&mut v, EXPIRED_2);
    string_of(v.as_slice())
}

} // verus!
