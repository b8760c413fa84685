//! The answers of the redirect server, decided on resolved short codes.
//! The HTTP plumbing lives in the application.
use vstd::prelude::*;

use crate::services::pages::{expired_page, expired_page_text, photo_page, photo_page_text};
use crate::models::expiration::expired_at;
use crate::models::qr_item::QrItem;
use crate::services::redirect_provider::{
    expired_label, law_record_then_resolve, law_unknown_code, resolves_to, RedirectResolution,
};
use crate::storage::history::added;
use crate::text::{
    chars_of, decimal, decimal_of, ends_with, has_suffix_str, lowercase, push_all, push_str,
    string_of, to_lowercase,
};
use crate::utils::file_ops::{sanitized, FileOps};

verus! {

/// An answer of the redirect server.
#[derive(Debug, Clone)]
pub enum ServerReply {
    /// A redirect with the given status code (302 Found) to `location`.
    Redirect { status: u16, location: String },
    /// An HTML page with the given status code.
    Page { status: u16, body: String },
    /// A plain-text answer with the given status code.
    Text { status: u16, body: String },
    /// The bytes of the file at `path`, served as `mime`.
    File { path: String, mime: String },
}

/// The MIME type for a file name, by its extension, case ignored.
pub open spec fn mime_of(filename: Seq<char>) -> Seq<char> {
    let lower = lowercase(filename);
    if ends_with(lower, ".png"@) {
        "image/png"@
    } else if ends_with(lower, ".jpg"@) || ends_with(lower, ".jpeg"@) {
        "image/jpeg"@
    } else if ends_with(lower, ".gif"@) {
        "image/gif"@
    } else if ends_with(lower, ".webp"@) {
        "image/webp"@
    } else if ends_with(lower, ".svg"@) {
        "image/svg+xml"@
    } else if ends_with(lower, ".bmp"@) {
        "image/bmp"@
    } else {
        "application/octet-stream"@
    }
}

/// The MIME type for a file name, by its extension, case ignored.
pub fn guess_mime(filename: &str) -> (r: &'static str)
    ensures
        r@ == mime_of(filename@),
{
    let lower_s = to_lowercase(filename);
    let lower = chars_of(lower_s.as_str());
    let l = lower.as_slice();
    if has_suffix_str(l, ".png") {
        "image/png"
    } else if has_suffix_str(l, ".jpg") || has_suffix_str(l, ".jpeg") {
        "image/jpeg"
    } else if has_suffix_str(l, ".gif") {
        "image/gif"
    } else if has_suffix_str(l, ".webp") {
        "image/webp"
    } else if has_suffix_str(l, ".svg") {
        "image/svg+xml"
    } else if has_suffix_str(l, ".bmp") {
        "image/bmp"
    } else {
        "application/octet-stream"
    }
}

/// The answer to `/r/<code>`: a 302 redirect to an active URL, the viewer
/// page of an active photo, a 410 notice for an expired code, 404 otherwise.
pub open spec fn redirect_answer(code: Seq<char>, resolution: RedirectResolution, reply: ServerReply) -> bool {
    match resolution {
        RedirectResolution::ActiveUrl { target_url } => reply matches ServerReply::Redirect {
            status,
            location,
        } && status == 302 && location@ == target_url@,
        RedirectResolution::ActivePhoto { file_path, filename } => reply matches ServerReply::Page {
            status,
            body,
        } && status == 200 && body@ == photo_page_text(code, filename@),
        RedirectResolution::Expired { original_url, expired_at } => reply matches ServerReply::Page {
            status,
            body,
        } && status == 410 && body@ == expired_page_text(original_url@, expired_at@),
        RedirectResolution::NotFound => reply matches ServerReply::Page { status, body } && status
            == 404 && body@ == "Not Found"@,
    }
}

/// The answer to `/r/<code>/raw`: the photo's file for an active photo
/// (its path cleaned with `home` for `~`), 404 otherwise.
pub open spec fn raw_answer(resolution: RedirectResolution, home: Option<Seq<char>>, reply: ServerReply) -> bool {
    match resolution {
        RedirectResolution::ActivePhoto { file_path, filename } => reply matches ServerReply::File {
            path,
            mime,
        } && path@ == sanitized(file_path@, home) && mime@ == mime_of(filename@),
        _ => reply matches ServerReply::Text { status, body } && status == 404 && body@
            == "Not Found"@,
    }
}

/// The answer to `/r/<code>` for the resolution of `code`.
pub fn redirect_reply(code: &str, resolution: RedirectResolution) -> (r: ServerReply)
    ensures
        redirect_answer(code@, resolution, r),
{
    match resolution {
        RedirectResolution::ActiveUrl { target_url } => ServerReply::Redirect {
            status: 302,
            location: target_url,
        },
        RedirectResolution::ActivePhoto { file_path, filename } => ServerReply::Page {
            status: 200,
            body: photo_page(code, filename.as_str()),
        },
        RedirectResolution::Expired { original_url, expired_at } => ServerReply::Page {
            status: 410,
            body: expired_page(original_url.as_str(), expired_at.as_str()),
        },
        RedirectResolution::NotFound => ServerReply::Page {
            status: 404,
            body: "Not Found".to_owned(),
        },
    }
}

/// The answer to `/r/<code>/raw` for the resolution of `code`; `home` is the
/// value of `$HOME`, if set.
pub fn raw_reply(resolution: RedirectResolution, home: Option<&str>) -> (r: ServerReply)
    ensures
        raw_answer(
            resolution,
            match home {
                Some(h) => Some(h@),
                None => None,
            },
            r,
        ),
{
    match resolution {
        RedirectResolution::ActivePhoto { file_path, filename } => ServerReply::File {
            path: FileOps::sanitize_path(file_path.as_str(), home),
            mime: guess_mime(filename.as_str()).to_owned(),
        },
        _ => ServerReply::Text { status: 404, body: "Not Found".to_owned() },
    }
}

/// How many ports the server tries, from the configured one upwards.
pub const PORT_ATTEMPTS: u16 = 10;

/// The ports the server tries, in order: the configured one and the nine
/// after it.
pub fn port_candidates(initial_port: u16) -> (r: Vec<u16>)
    requires
        initial_port + 9 <= u16::MAX,
    ensures
        r@.len() == PORT_ATTEMPTS,
        forall|i: int| 0 <= i < r@.len() ==> r@[i] == initial_port + i,
{
    let mut r: Vec<u16> = Vec::new();
    let mut offset: u16 = 0;
    while offset < PORT_ATTEMPTS
        invariant
            offset <= PORT_ATTEMPTS,
            initial_port + 9 <= u16::MAX,
            r@.len() == offset,
            forall|i: int| 0 <= i < r@.len() ==> r@[i] == initial_port + i,
        decreases PORT_ATTEMPTS - offset,
    {
        r.push(initial_port + offset);
        offset = offset + 1;
    }
    r
}

/// The error when none of the ports could be bound.
pub fn bind_failure(initial_port: u16) -> (r: String)
    requires
        initial_port + 9 <= u16::MAX,
    ensures
        r@ == "Could not bind to any port in range "@ + decimal(initial_port as nat) + "-"@ + decimal(
            (initial_port + 9) as nat,
        ),
{
    let mut v = chars_of("Could not bind to any port in range ");
    let a = decimal_of(initial_port as u64);
    push_all(&mut v, a.as_slice());
    push_str(&mut v, "-");
    let b = decimal_of((initial_port + 9) as u64);
    push_all(&mut v, b.as_slice());
    string_of(v.as_slice())
}

/// What the server does next while looking for a free port.
#[derive(Debug, Clone)]
pub enum BindStep {
    /// Try to bind `port`.
    Try { port: u16 },
    /// Every port of the range was refused: fail with `message`.
    GiveUp { message: String },
    /// The next port would be past 65535: the count overflows.
    Overflow,
}

/// The step after `port`, counted from `initial_port`, was refused: the
/// next port while fewer than ten were tried, the range's failure message
/// after the tenth, and an overflow where the next port would be past 65535.
pub open spec fn after_refusal(initial_port: u16, port: u16, r: BindStep) -> bool {
    if port - initial_port >= PORT_ATTEMPTS - 1 {
        r matches BindStep::GiveUp { message } && message@ == "Could not bind to any port in range "@
            + decimal(initial_port as nat) + "-"@ + decimal((initial_port + 9) as nat)
    } else if port == u16::MAX {
        r is Overflow
    } else {
        r == (BindStep::Try { port: (port + 1) as u16 })
    }
}

/// The first port the server tries: the configured one.
pub fn first_bind_step(initial_port: u16) -> (r: BindStep)
    ensures
        r == (BindStep::Try { port: initial_port }),
{
    BindStep::Try { port: initial_port }
}

/// What follows a refused `port` in the search that started at
/// `initial_port` (see `after_refusal`).
pub fn next_bind_step(initial_port: u16, port: u16) -> (r: BindStep)
    requires
        initial_port <= port,
        port - initial_port < PORT_ATTEMPTS,
    ensures
        after_refusal(initial_port, port, r),
{
    if port - initial_port >= PORT_ATTEMPTS - 1 {
        BindStep::GiveUp { message: bind_failure(initial_port) }
    } else if port == u16::MAX {
        BindStep::Overflow
    } else {
        BindStep::Try { port: port + 1 }
    }
}

/// Expiration is enforced: once a recorded code has expired, scanning it
/// answers 410 Gone with the expiry notice; before, an active URL answers
/// with a 302 redirect to it.
pub proof fn law_expired_code_is_gone(
    store: Seq<QrItem>,
    item: QrItem,
    now: int,
    r: RedirectResolution,
    reply: ServerReply,
)
    requires
        resolves_to(r, added(store, item), item.short_code@, now),
        redirect_answer(item.short_code@, r, reply),
    ensures
        expired_at(item.expiration_time, now) ==> (reply matches ServerReply::Page { status, body }
            && status == 410 && body@ == expired_page_text(
            item.original_url@,
            expired_label(item.expiration_time),
        )),
        !expired_at(item.expiration_time, now) && item.target_type is Url ==> (
        reply matches ServerReply::Redirect { status, location } && status == 302 && location@ == item.target_type->Url_0@),
{
    law_record_then_resolve(store, item, now, r);
}

/// A code that no item carries is answered 404 Not Found, whatever the
/// time.
pub proof fn law_unknown_code_not_found(
    store: Seq<QrItem>,
    code: Seq<char>,
    now: int,
    r: RedirectResolution,
    reply: ServerReply,
)
    requires
        forall|i: int| 0 <= i < store.len() ==> (#[trigger] store[i]).short_code@ != code,
        resolves_to(r, store, code, now),
        redirect_answer(code, r, reply),
    ensures
        reply matches ServerReply::Page { status, body } && status == 404 && body@ == "Not Found"@,
{
    law_unknown_code(store, code, now, r);
}

} // verus!
