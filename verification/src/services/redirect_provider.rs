//! Resolution of dynamic short codes against the history.
use vstd::prelude::*;

use crate::clock::{display_pattern, format_utc, now_millis, utc_format, MAX_UTC_MILLIS};
use crate::models::expiration::expired_at;
use crate::models::qr_item::{QrItem, TargetType};
use crate::storage::history::{added, has_code, law_add_then_find, lookup, HistoryStore};
use crate::text::{first_index, is_first};
use crate::text::{chars_of, push_all, push_str, string_of};
use crate::utils::file_ops::strip_end;

verus! {

/// What a scanned short code leads to.
#[derive(Debug, Clone)]
pub enum RedirectResolution {
    ActiveUrl { target_url: String },
    ActivePhoto { file_path: String, filename: String },
    Expired { original_url: String, expired_at: String },
    NotFound,
}

/// The text shown for when an expired code expired: its instant in UTC, or
/// "Unknown" where there is none.
pub open spec fn expired_label(exp: Option<i64>) -> Seq<char> {
    match exp {
        Some(t) => match utc_format(t, display_pattern()) {
            Some(s) => s,
            None => "Unknown"@,
        },
        None => "Unknown"@,
    }
}

/// `r` is what the code `code` resolves to in the history `store` at `now`:
/// not found if no item has the code; otherwise the first such item's
/// expiry notice once it has expired, and its URL or photo before.
pub open spec fn resolves_to(r: RedirectResolution, store: Seq<QrItem>, code: Seq<char>, now: int) -> bool {
    match lookup(store, has_code(code)) {
        None => r is NotFound,
        Some(item) => if expired_at(item.expiration_time, now) {
            r matches RedirectResolution::Expired { original_url: u, expired_at: a }
                && u@ == item.original_url@ && a@ == expired_label(item.expiration_time)
        } else {
            match item.target_type {
                TargetType::Url(u) => r matches RedirectResolution::ActiveUrl { target_url }
                    && target_url@ == u@,
                TargetType::Photo { file_path, filename } => r matches RedirectResolution::ActivePhoto {
                    file_path: p,
                    filename: f,
                } && p@ == file_path@ && f@ == filename@,
            }
        },
    }
}

/// The dynamic link of `code` under the server address `base_host`.
pub open spec fn dynamic_link(base_host: Seq<char>, code: Seq<char>) -> Seq<char> {
    strip_end(base_host, '/') + "/r/"@ + code
}

/// Resolves short codes to their targets.
pub trait RedirectProvider {
    /// The dynamic link under which `item` is served from `base_host`.
    fn register_dynamic_url(&self, item: &QrItem, base_host: &str) -> String;

    /// What `short_code` leads to now.
    fn resolve_short_code(&self, short_code: &str) -> RedirectResolution;
}

/// A provider that answers from a history of generated codes.
pub struct LocalRedirectProvider {
    pub store: HistoryStore,
}

impl LocalRedirectProvider {
    /// A provider answering from `store`.
    pub fn new(store: HistoryStore) -> (r: LocalRedirectProvider)
        ensures
            r.store@ == store@,
    {
        LocalRedirectProvider { store }
    }

    /// What `short_code` leads to at `now`.
    pub fn resolve_at(&self, short_code: &str, now: i64) -> (r: RedirectResolution)
        ensures
            resolves_to(r, self.store@, short_code@, now as int),
    {
        match self.store.find_by_short_code(short_code) {
            None => RedirectResolution::NotFound,
            Some(item) => {
                if item.is_expired_at(now) {
                    let exp_str = match item.expiration_time {
                        Some(t) => match format_utc(t, "%Y-%m-%d %H:%M:%S UTC") {
                            Some(s) => s,
                            None => "Unknown".to_owned(),
                        },
                        None => "Unknown".to_owned(),
                    };
                    RedirectResolution::Expired { original_url: item.original_url, expired_at: exp_str }
                } else {
                    match item.target_type {
                        TargetType::Url(url) => RedirectResolution::ActiveUrl { target_url: url },
                        TargetType::Photo { file_path, filename } => RedirectResolution::ActivePhoto {
                            file_path,
                            filename,
                        },
                    }
                }
            },
        }
    }
}

impl RedirectProvider for LocalRedirectProvider {
    /// The link `<base_host without trailing slashes>/r/<short code>`.
    fn register_dynamic_url(&self, item: &QrItem, base_host: &str) -> (r: String)
        ensures
            r@ == dynamic_link(base_host@, item.short_code@),
    {
        let base = chars_of(base_host);
        let mut v = strip_trailing_slashes(base.as_slice());
        push_str(&mut v, "/r/");
        push_str(&mut v, item.short_code.as_str());
        string_of(v.as_slice())
    }

    /// What `short_code` leads to at the machine's current time.
    fn resolve_short_code(&self, short_code: &str) -> (r: RedirectResolution)
        ensures
            exists|now: int| 0 <= now <= MAX_UTC_MILLIS && #[trigger] resolves_to(r, self.store@, short_code@, now),
    {
        let now = now_millis();
        self.resolve_at(short_code, now)
    }
}

/// `s` without trailing slashes.
fn strip_trailing_slashes(s: &[char]) -> (r: Vec<char>)
    ensures
        r@ == strip_end(s@, '/'),
{
    let mut b = s.len();
    proof {
        assert(s@.subrange(0, b as int) =~= s@);
    }
    while b > 0 && s[b - 1] == '/'
        invariant
            b <= s@.len(),
            strip_end(s@, '/') == strip_end(s@.subrange(0, b as int), '/'),
        decreases b,
    {
        proof {
            assert(s@.subrange(0, b as int).drop_last() =~= s@.subrange(0, b - 1));
        }
        b = b - 1;
    }
    let mut r: Vec<char> = Vec::new();
    push_all(&mut r, s);
    r.truncate(b);
    proof {
        assert(r@ =~= s@.subrange(0, b as int));
    }
    r
}

/// A code read back after it was recorded: once `item` is added to the
/// history, its short code resolves to its own URL or photo while it has
/// not expired, and to its expiry notice once it has.
pub proof fn law_record_then_resolve(store: Seq<QrItem>, item: QrItem, now: int, r: RedirectResolution)
    requires
        resolves_to(r, added(store, item), item.short_code@, now),
    ensures
        !expired_at(item.expiration_time, now) ==> match item.target_type {
            TargetType::Url(u) => r matches RedirectResolution::ActiveUrl { target_url }
                && target_url@ == u@,
            TargetType::Photo { file_path, filename } => r matches RedirectResolution::ActivePhoto {
                file_path: p,
                filename: f,
            } && p@ == file_path@ && f@ == filename@,
        },
        expired_at(item.expiration_time, now) ==> (r matches RedirectResolution::Expired {
            original_url,
            expired_at: when,
        } && original_url@ == item.original_url@ && when@ == expired_label(item.expiration_time)),
{
    law_add_then_find(store, item);
}

/// An unknown code stays unknown: a history without any item of short code
/// `code` resolves it to "not found", whatever the time.
pub proof fn law_unknown_code(store: Seq<QrItem>, code: Seq<char>, now: int, r: RedirectResolution)
    requires
        forall|i: int| 0 <= i < store.len() ==> (#[trigger] store[i]).short_code@ != code,
        resolves_to(r, store, code, now),
    ensures
        r is NotFound,
{
    if let Some(k) = first_index(store, has_code(code)) {
        assert(is_first(store, has_code(code), k));
        assert(store[k].short_code@ != code);
    }
}

} // verus!
