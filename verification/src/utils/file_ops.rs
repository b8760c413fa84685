//! File names and dragged-in paths. The file system itself is the
//! application's business; here are the decisions on text.
use vstd::prelude::*;

use crate::clock::{file_pattern, format_utc, now_millis, utc_format, MAX_UTC_MILLIS};
use crate::models::qr_item::ExportFormat;
use crate::text::{
    chars_of, has_prefix_str, matches_at, occurs_at, push_all, push_str, same_str, slice,
    starts_with, string_of, trim, trimmed,
};

verus! {

/// `s` with every non-overlapping occurrence of `pat`, scanned from the
/// left, replaced by `rep` (`str::replace`, for a non-empty pattern).
pub open spec fn replace_all(s: Seq<char>, pat: Seq<char>, rep: Seq<char>) -> Seq<char>
    decreases s.len(),
{
    if pat.len() == 0 || s.len() == 0 {
        s
    } else if occurs_at(s, pat, 0) {
        rep + replace_all(s.skip(pat.len() as int), pat, rep)
    } else {
        seq![s[0]] + replace_all(s.drop_first(), pat, rep)
    }
}

/// `s` without leading copies of `c`.
pub open spec fn strip_start(s: Seq<char>, c: char) -> Seq<char>
    decreases s.len(),
{
    if s.len() > 0 && s[0] == c {
        strip_start(s.drop_first(), c)
    } else {
        s
    }
}

/// `s` without trailing copies of `c`.
pub open spec fn strip_end(s: Seq<char>, c: char) -> Seq<char>
    decreases s.len(),
{
    if s.len() > 0 && s.last() == c {
        strip_end(s.drop_last(), c)
    } else {
        s
    }
}

/// `s` without leading and trailing copies of `c` (`str::trim_matches`).
pub open spec fn strip(s: Seq<char>, c: char) -> Seq<char> {
    strip_end(strip_start(s, c), c)
}

/// `s` without a leading `file://` scheme.
pub open spec fn without_scheme(s: Seq<char>) -> Seq<char> {
    if starts_with(s, "file://"@) {
        s.skip(7)
    } else {
        s
    }
}

/// The cleaned form of a dragged-in path, `home` being `$HOME` if set:
/// trimmed, without a `file://` scheme (outside or inside the quotes), with
/// `%20` and `\ ` read as spaces, without surrounding quotes, and with a
/// leading `~` expanded.
pub open spec fn sanitized(input: Seq<char>, home: Option<Seq<char>>) -> Seq<char> {
    let s1 = trim(input);
    let s2 = without_scheme(s1);
    let s3 = replace_all(s2, "%20"@, " "@);
    let s4 = without_scheme(trim(strip(strip(s3, '\''), '"')));
    let s5 = replace_all(s4, "\\ "@, " "@);
    if starts_with(s5, "~/"@) || s5 == "~"@ {
        match home {
            Some(h) => h + s5.drop_first(),
            None => s5,
        }
    } else {
        s5
    }
}

/// `base` joined with `part` as `Path::join` does on Unix: an absolute `part`
/// replaces `base`; otherwise a separator is put between them unless `base`
/// is empty or already ends with one.
pub open spec fn joined_path(base: Seq<char>, part: Seq<char>) -> Seq<char> {
    if part.len() > 0 && part[0] == '/' {
        part
    } else if base.len() == 0 || base.last() == '/' {
        base + part
    } else {
        base + "/"@ + part
    }
}

/// The final component that `Path::file_name` gives for `path`, read as
/// text. Named, not restated: `Path`'s component rules are std's.
pub uninterp spec fn final_component(path: Seq<char>) -> Option<Seq<char>>;

/// The default file name for an export at the time written `stamp`.
pub open spec fn default_name(format: ExportFormat, stamp: Seq<char>) -> Seq<char> {
    "qr_"@ + stamp + "."@ + format.extension_text()
}

/// `replace_all` on executable sequences.
pub fn replace_every(s: &[char], pat: &[char], rep: &[char]) -> (r: Vec<char>)
    requires
        pat@.len() > 0,
    ensures
        r@ == replace_all(s@, pat@, rep@),
{
    let mut out: Vec<char> = Vec::new();
    let mut i: usize = 0;
    proof {
        assert(s@.skip(0) =~= s@);
    }
    while i < s.len()
        invariant
            pat@.len() > 0,
            i <= s@.len(),
            replace_all(s@, pat@, rep@) == out@ + replace_all(s@.skip(i as int), pat@, rep@),
        decreases s@.len() - i,
    {
        let ghost t = s@.skip(i as int);
        if matches_at(s, pat, i) {
            proof {
                assert(t.subrange(0, pat@.len() as int) =~= s@.subrange(i as int, i + pat@.len()));
                assert(t.skip(pat@.len() as int) =~= s@.skip(i + pat@.len()));
                assert(out@ + (rep@ + replace_all(t.skip(pat@.len() as int), pat@, rep@)) =~= (out@
                    + rep@) + replace_all(s@.skip(i + pat@.len()), pat@, rep@));
            }
            push_all(&mut out, rep);
            i = i + pat.len();
        } else {
            proof {
                if occurs_at(t, pat@, 0) {
                    assert(t.subrange(0, pat@.len() as int) =~= s@.subrange(i as int, i + pat@.len()));
                }
                assert(t.drop_first() =~= s@.skip(i + 1));
                assert(out@ + (seq![s@[i as int]] + replace_all(s@.skip(i + 1), pat@, rep@)) =~= out@.push(
                    s@[i as int],
                ) + replace_all(s@.skip(i + 1), pat@, rep@));
            }
            out.push(s[i]);
            i = i + 1;
        }
    }
    proof {
        assert(out@ + Seq::<char>::empty() =~= out@);
    }
    out
}

/// `s` without leading and trailing copies of `c`.
pub fn strip_char(s: &[char], c: char) -> (r: Vec<char>)
    ensures
        r@ == strip(s@, c),
{
    let mut a: usize = 0;
    proof {
        assert(s@.subrange(0, s@.len() as int) =~= s@);
    }
    while a < s.len() && s[a] == c
        invariant
            a <= s@.len(),
            strip_start(s@, c) == strip_start(s@.subrange(a as int, s@.len() as int), c),
        decreases s@.len() - a,
    {
        proof {
            assert(s@.subrange(a as int, s@.len() as int).drop_first() =~= s@.subrange(a + 1, s@.len() as int));
        }
        a = a + 1;
    }
    let mut b = s.len();
    while b > a && s[b - 1] == c
        invariant
            a <= b <= s@.len(),
            strip(s@, c) == strip_end(s@.subrange(a as int, b as int), c),
        decreases b,
    {
        proof {
            assert(s@.subrange(a as int, b as int).drop_last() =~= s@.subrange(a as int, b - 1));
        }
        b = b - 1;
    }
    slice(s, a, b)
}

/// File-name helpers.
pub struct FileOps;

impl FileOps {
    /// The default file name for an export written at the time `stamp`:
    /// `qr_<stamp>.<extension>`.
    pub fn default_filename_at(format: ExportFormat, stamp: &str) -> (r: String)
        ensures
            r@ == default_name(format, stamp@),
    {
        let mut v: Vec<char> = Vec::new();
        push_str(&mut v, "qr_");
        push_str(&mut v, stamp);
        push_str(&mut v, ".");
        push_str(&mut v, format.extension());
        string_of(v.as_slice())
    }

    /// The default file name for an export written now:
    /// `qr_YYYY-MM-DD_HH-MM-SS.<extension>`.
    pub fn default_filename(format: ExportFormat) -> (r: String)
        ensures
            exists|now: i64|
                0 <= now <= MAX_UTC_MILLIS && #[trigger] utc_format(now, file_pattern()) is Some
                    && r@ == default_name(format, utc_format(now, file_pattern()).unwrap()),
    {
        let now = now_millis();
        let pattern = "%Y-%m-%d_%H-%M-%S";
        assert(pattern@ == file_pattern());
        match format_utc(now, pattern) {
            Some(stamp) => {
                let r = Self::default_filename_at(format, stamp.as_str());
                assert(utc_format(now, file_pattern()) is Some);
                r
            },
            None => {
                // `format_utc` answers for every instant `now_millis` returns.
                Self::default_filename_at(format, "")
            },
        }
    }

    /// The cleaned form of a terminal drag-and-drop path: quotes, `file://`
    /// URLs (quoted or not), escaped and percent-encoded spaces and a leading `~` (expanded to
    /// `home`, the value of `$HOME` if set) are handled.
    pub fn sanitize_path(input: &str, home: Option<&str>) -> (r: String)
        ensures
            r@ == sanitized(
                input@,
                match home {
                    Some(h) => Some(h@),
                    None => None,
                },
            ),
    {
        proof {
            reveal_strlit("file://");
            reveal_strlit("%20");
            reveal_strlit("\\ ");
            reveal_strlit("~/");
            reveal_strlit("~");
            reveal_strlit(" ");
        }
        let s1 = trimmed(chars_of(input).as_slice());
        let s2 = if has_prefix_str(s1.as_slice(), "file://") {
            let v = slice(s1.as_slice(), 7, s1.len());
            proof {
                assert(v@ =~= s1@.skip(7));
            }
            v
        } else {
            s1
        };
        let pct = chars_of("%20");
        let sp = chars_of(" ");
        let s3 = replace_every(s2.as_slice(), pct.as_slice(), sp.as_slice());
        let s4a = strip_char(s3.as_slice(), '\'');
        let s4b = strip_char(s4a.as_slice(), '"');
        let s4c = trimmed(s4b.as_slice());
        let s4 = if has_prefix_str(s4c.as_slice(), "file://") {
            let v = slice(s4c.as_slice(), 7, s4c.len());
            proof {
                assert(v@ =~= s4c@.skip(7));
            }
            v
        } else {
            s4c
        };
        let esc = chars_of("\\ ");
        let s5 = replace_every(s4.as_slice(), esc.as_slice(), sp.as_slice());
        if has_prefix_str(s5.as_slice(), "~/") || same_str(s5.as_slice(), "~") {
            match home {
                Some(h) => {
                    let mut v = chars_of(h);
                    let rest = slice(s5.as_slice(), 1, s5.len());
                    proof {
                        assert(rest@ =~= s5@.drop_first());
                    }
                    push_all(&mut v, rest.as_slice());
                    string_of(v.as_slice())
                },
                None => string_of(s5.as_slice()),
            }
        } else {
            string_of(s5.as_slice())
        }
    }

    /// `base` joined with `part` (`Path::join`, Unix separators).
    pub fn join(base: &str, part: &str) -> (r: String)
        ensures
            r@ == joined_path(base@, part@),
    {
        proof {
            reveal_strlit("/");
        }
        let b = chars_of(base);
        let p = chars_of(part);
        if p.len() > 0 && p[0] == '/' {
            return string_of(p.as_slice());
        }
        let mut v = b;
        if v.len() > 0 && v[v.len() - 1] != '/' {
            v.push('/');
        }
        push_all(&mut v, p.as_slice());
        string_of(v.as_slice())
    }

    /// Whether something exists at `path` (`Path::exists`). The answer is the
    /// file system's at the moment of the call, so nothing is claimed of it.
    #[verifier::external_body]
    pub fn path_exists(path: &str) -> (r: bool) {
        std::path::Path::new(path).exists()
    }

    /// Whether `path` names a regular file (`Path::is_file`), as the file
    /// system answers at the moment of the call; nothing is claimed of it.
    #[verifier::external_body]
    pub(crate) fn is_file(path: &str) -> (r: bool) {
        std::path::Path::new(path).is_file()
    }

    /// The final component of `path` (`Path::file_name`), or the empty text
    /// where there is none.
    #[verifier::external_body]
    pub(crate) fn file_name(path: &str) -> (r: String)
        ensures
            r@ == match final_component(path@) {
                Some(n) => n,
                None => Seq::<char>::empty(),
            },
    {
        std::path::Path::new(path).file_name().unwrap_or_default().to_string_lossy().to_string()
    }
}

} // verus!
