//! The command line: its commands and the decisions of `qru generate` and
//! `qru history`. Parsing the arguments, the files and the printing are the
//! application's business.
use vstd::prelude::*;

use crate::clock::{now_millis, MAX_UTC_MILLIS};
use crate::generator::qr::{qr_encoding, QrGenerator, QrMatrix};
use crate::models::expiration::{lenient_parse, remaining_text, splittable, ExpirationOption};
use crate::models::qr_item::{new_uuid, EccLevel, ExportFormat, QrItem, TargetType};
use crate::text::{
    chars_of, decimal, decimal_of, lowercase, push_str, same_str, slice, string_of,
    to_lowercase, to_uppercase, trim, uppercase, is_ascii_text, ascii_lower, ascii_upper, first_word,
};
use crate::utils::url_validator::{validation, UrlValidator};
use vstd::string::StringSliceAdditionalSpecFns;
use vstd::utf8::encode_utf8;

verus! {

/// The parsed command line: a subcommand, or none for the interactive UI.
pub struct Cli {
    pub command: Option<Commands>,
}

/// The subcommands of `qru`. Paths are kept as text.
pub enum Commands {
    /// Generate a single QR code directly from CLI flags.
    Generate {
        url: String,
        expire: String,
        output: Option<String>,
        format: String,
        ecc: String,
        static_only: bool,
    },
    /// Batch generate QR codes from a CSV file.
    Batch { csv: String, output_dir: Option<String> },
    /// Run the redirect server on its own.
    Server { port: u16 },
    /// Print the history of generated QR codes.
    History,
}

/// The level an upper-cased `--ecc` flag names; Medium for anything else.
pub open spec fn ecc_flag(upper: Seq<char>) -> EccLevel {
    if upper == "L"@ {
        EccLevel::Low
    } else if upper == "M"@ {
        EccLevel::Medium
    } else if upper == "Q"@ {
        EccLevel::Quartile
    } else if upper == "H"@ {
        EccLevel::High
    } else {
        EccLevel::Medium
    }
}

/// The format a lower-cased `--format` flag names; PNG for anything else.
pub open spec fn format_flag(lower: Seq<char>) -> ExportFormat {
    if lower == "svg"@ {
        ExportFormat::Svg
    } else if lower == "jpg"@ || lower == "jpeg"@ {
        ExportFormat::Jpeg
    } else if lower == "ascii"@ {
        ExportFormat::Ascii
    } else if lower == "unicode"@ || lower == "txt"@ {
        ExportFormat::Unicode
    } else {
        ExportFormat::Png
    }
}

/// The first word of a text whose first space is at `k` is its first `k`
/// characters.
proof fn lemma_first_word(s: Seq<char>, k: int)
    requires
        0 <= k < s.len(),
        s[k] == ' ',
        forall|j: int| 0 <= j < k ==> s[j] != ' ',
    ensures
        first_word(s) == s.take(k),
    decreases k,
{
    if k > 0 {
        lemma_first_word(s.drop_first(), k - 1);
        assert(s.take(k) =~= seq![s[0]] + s.drop_first().take(k - 1));
    } else {
        assert(s.take(0) =~= Seq::<char>::empty());
    }
}

/// The format a label names by its first word, in lower case.
proof fn lemma_label_flag(label: Seq<char>, k: int, word: Seq<char>)
    requires
        0 <= k < label.len(),
        label[k] == ' ',
        forall|j: int| 0 <= j < k ==> label[j] != ' ',
        ascii_lower(label.take(k)) == word,
    ensures
        ascii_lower(first_word(label)) == word,
{
    lemma_first_word(label, k);
}

/// Every export format is named by its own flag: the first word of its
/// label, in lower case ("png", "svg", "jpeg", "ascii", "unicode"), gives
/// the format back, and so does its file extension for every format but
/// ASCII art, whose `txt` extension it shares with the Unicode art.
pub proof fn law_format_flags_name_formats(f: ExportFormat)
    ensures
        format_flag(ascii_lower(first_word(f.label_text()))) == f,
        f != ExportFormat::Ascii ==> format_flag(f.extension_text()) == f,
{
    reveal_strlit("png");
    reveal_strlit("svg");
    reveal_strlit("jpg");
    reveal_strlit("jpeg");
    reveal_strlit("ascii");
    reveal_strlit("unicode");
    reveal_strlit("txt");
    match f {
        ExportFormat::Png => {
            reveal_strlit("PNG Image");
            let l = "PNG Image"@;
            assert(ascii_lower(l.take(3)) =~= "png"@);
            lemma_label_flag(l, 3, "png"@);
            assert("png"@[0] != "svg"@[0] && "png"@[0] != "jpg"@[0] && "png"@[0] != "txt"@[0]);
            assert("png"@.len() != "jpeg"@.len() && "png"@.len() != "ascii"@.len());
            assert("png"@.len() != "unicode"@.len());
        },
        ExportFormat::Svg => {
            reveal_strlit("SVG Vector");
            let l = "SVG Vector"@;
            assert(ascii_lower(l.take(3)) =~= "svg"@);
            lemma_label_flag(l, 3, "svg"@);
        },
        ExportFormat::Jpeg => {
            reveal_strlit("JPEG Image");
            let l = "JPEG Image"@;
            assert(ascii_lower(l.take(4)) =~= "jpeg"@);
            lemma_label_flag(l, 4, "jpeg"@);
            assert("jpeg"@.len() != "svg"@.len() && "jpg"@[0] != "svg"@[0]);
        },
        ExportFormat::Ascii => {
            reveal_strlit("ASCII Text");
            let l = "ASCII Text"@;
            assert(ascii_lower(l.take(5)) =~= "ascii"@);
            lemma_label_flag(l, 5, "ascii"@);
            assert("ascii"@.len() != "svg"@.len() && "ascii"@.len() != "jpg"@.len());
            assert("ascii"@.len() != "jpeg"@.len());
        },
        ExportFormat::Unicode => {
            reveal_strlit("Unicode Text");
            let l = "Unicode Text"@;
            assert(ascii_lower(l.take(7)) =~= "unicode"@);
            lemma_label_flag(l, 7, "unicode"@);
            assert("unicode"@.len() != "svg"@.len() && "unicode"@.len() != "jpg"@.len());
            assert("unicode"@.len() != "jpeg"@.len() && "unicode"@.len() != "ascii"@.len());
            assert("txt"@[0] != "svg"@[0] && "txt"@[0] != "jpg"@[0]);
            assert("txt"@.len() != "jpeg"@.len() && "txt"@.len() != "ascii"@.len());
        },
    }
}

/// Every error-correction level is named by its own flag: the first letter
/// of its label, in upper case.
pub proof fn law_ecc_flags_name_levels(e: EccLevel)
    ensures
        ecc_flag(ascii_upper(e.label_text().take(1))) == e,
{
    reveal_strlit("L");
    reveal_strlit("M");
    reveal_strlit("Q");
    reveal_strlit("H");
    match e {
        EccLevel::Low => {
            reveal_strlit("Low (~7% recovery)");
            assert(ascii_upper("Low (~7% recovery)"@.take(1)) =~= "L"@);
        },
        EccLevel::Medium => {
            reveal_strlit("Medium (~15% recovery)");
            assert(ascii_upper("Medium (~15% recovery)"@.take(1)) =~= "M"@);
            assert("M"@[0] != "L"@[0]);
        },
        EccLevel::Quartile => {
            reveal_strlit("Quartile (~25% recovery)");
            assert(ascii_upper("Quartile (~25% recovery)"@.take(1)) =~= "Q"@);
            assert("Q"@[0] != "L"@[0] && "Q"@[0] != "M"@[0]);
        },
        EccLevel::High => {
            reveal_strlit("High (~30% recovery)");
            assert(ascii_upper("High (~30% recovery)"@.take(1)) =~= "H"@);
            assert("H"@[0] != "L"@[0] && "H"@[0] != "M"@[0] && "H"@[0] != "Q"@[0]);
        },
    }
}

/// The redirect address of a short code on the server at `host`.
pub open spec fn redirect_link(host: Seq<char>, code: Seq<char>) -> Seq<char> {
    host + "/r/"@ + code
}

/// What a QR code generated from the command line encodes.
pub open spec fn encoded_for(
    static_only: bool,
    valid_url: Seq<char>,
    host: Seq<char>,
    code: Seq<char>,
) -> Seq<char> {
    if static_only {
        valid_url
    } else {
        redirect_link(host, code)
    }
}

/// A line of `qru history`: position, favorite mark, URL, remaining time and
/// short code.
pub open spec fn history_text(position: nat, favorite: bool, url: Seq<char>, remaining: Seq<char>, code: Seq<char>) -> Seq<char> {
    decimal(position) + ". "@ + (if favorite {
        "★"@
    } else {
        " "@
    }) + " URL: "@ + url + " | Exp: "@ + remaining + " | Code: "@ + code
}

/// Everything `qru generate` has decided before it writes the file.
pub struct GeneratePlan {
    pub valid_url: String,
    pub expiration: ExpirationOption,
    pub ecc: EccLevel,
    pub format: ExportFormat,
    pub short_code: String,
    pub encoded_target: String,
    pub static_only: bool,
    pub qr: QrMatrix,
}

/// The plan fits the flags it was made from: `url` validated to
/// `valid_url`, `expire` read leniently, the flags mapped, and the code
/// encoding the URL itself or its redirect address on `host`.
pub open spec fn plan_fits(
    p: GeneratePlan,
    url: Seq<char>,
    expire: Seq<char>,
    format: Seq<char>,
    ecc: Seq<char>,
    static_only: bool,
    host: Seq<char>,
) -> bool {
    &&& validation(url) == Ok::<Seq<char>, Seq<char>>(p.valid_url@)
    &&& lenient_parse(lowercase(trim(expire)), expire) == Ok::<ExpirationOption, Seq<char>>(p.expiration)
    &&& p.ecc == ecc_flag(uppercase(ecc))
    &&& p.format == format_flag(lowercase(format))
    &&& p.static_only == static_only
    &&& p.encoded_target@ == encoded_for(static_only, p.valid_url@, host, p.short_code@)
    &&& qr_encoding(encode_utf8(p.encoded_target@), p.ecc) == Ok::<(nat, Seq<bool>), Seq<char>>((p.qr.size(), p.qr.cells()))
}

/// What `qru generate` decides for the short code `code`: the URL's
/// rejection, `None` where the expiration cannot be split, the expiration's
/// rejection, the encoder's rejection, or a plan that fits the flags.
pub open spec fn generate_outcome(
    r: Option<Result<GeneratePlan, String>>,
    url: Seq<char>,
    expire: Seq<char>,
    format: Seq<char>,
    ecc: Seq<char>,
    static_only: bool,
    host: Seq<char>,
    code: Seq<char>,
) -> bool {
    match validation(url) {
        Err(e) => r matches Some(Err(m)) && m@ == "Invalid URL: "@ + e,
        Ok(valid) => {
            if !splittable(lowercase(trim(expire))) {
                r is None
            } else {
                match lenient_parse(lowercase(trim(expire)), expire) {
                    Err(e) => r matches Some(Err(m)) && m@ == e,
                    Ok(_) => match qr_encoding(
                        encode_utf8(encoded_for(static_only, valid, host, code)),
                        ecc_flag(uppercase(ecc)),
                    ) {
                        Err(e) => r matches Some(Err(m)) && m@
                            == "Failed to encode data into QR code: "@ + e,
                        Ok(_) => r matches Some(Ok(p)) && p.short_code@ == code && plan_fits(
                            p,
                            url,
                            expire,
                            format,
                            ecc,
                            static_only,
                            host,
                        ),
                    },
                }
            }
        },
    }
}

impl Cli {
    /// The error-correction level an `--ecc` flag names (L, M, Q, H in any
    /// case); Medium for anything else.
    pub fn ecc_from_flag(flag: &str) -> (r: EccLevel)
        ensures
            r == ecc_flag(uppercase(flag@)),
            is_ascii_text(flag@) ==> r == ecc_flag(ascii_upper(flag@)),
    {
        let u = to_uppercase(flag);
        let c = chars_of(u.as_str());
        let s = c.as_slice();
        if same_str(s, "L") {
            EccLevel::Low
        } else if same_str(s, "M") {
            EccLevel::Medium
        } else if same_str(s, "Q") {
            EccLevel::Quartile
        } else if same_str(s, "H") {
            EccLevel::High
        } else {
            EccLevel::Medium
        }
    }

    /// The export format a `--format` flag names (svg, jpg/jpeg, ascii,
    /// unicode/txt, in any case); PNG for anything else.
    pub fn format_from_flag(flag: &str) -> (r: ExportFormat)
        ensures
            r == format_flag(lowercase(flag@)),
            is_ascii_text(flag@) ==> r == format_flag(ascii_lower(flag@)),
    {
        let l = to_lowercase(flag);
        let c = chars_of(l.as_str());
        let s = c.as_slice();
        if same_str(s, "svg") {
            ExportFormat::Svg
        } else if same_str(s, "jpg") || same_str(s, "jpeg") {
            ExportFormat::Jpeg
        } else if same_str(s, "ascii") {
            ExportFormat::Ascii
        } else if same_str(s, "unicode") || same_str(s, "txt") {
            ExportFormat::Unicode
        } else {
            ExportFormat::Png
        }
    }

    /// A fresh short code: the first eight characters of a random UUID,
    /// lower-case hexadecimal digits.
    pub fn new_short_code() -> (r: String)
        ensures
            r@.len() == 8,
            forall|i: int|
                0 <= i < 8 ==> ('0' <= #[trigger] r@[i] && r@[i] <= '9') || ('a' <= r@[i] && r@[i] <= 'f'),
    {
        let id = new_uuid();
        let c = chars_of(id.as_str());
        let head = slice(c.as_slice(), 0, 8);
        proof {
            assert forall|i: int| 0 <= i < 8 implies ('0' <= #[trigger] head@[i] && head@[i] <= '9') || (
            'a' <= head@[i] && head@[i] <= 'f') by {
                assert(head@[i] == id@[i]);
            }
        }
        string_of(head.as_slice())
    }

    /// What a generated code encodes: the URL itself for a static code, its
    /// redirect address on `host` otherwise.
    pub fn encoded_target(static_only: bool, valid_url: &str, host: &str, code: &str) -> (r: String)
        ensures
            r@ == encoded_for(static_only, valid_url@, host@, code@),
    {
        if static_only {
            return valid_url.to_owned();
        }
        let mut v = chars_of(host);
        push_str(&mut v, "/r/");
        push_str(&mut v, code);
        string_of(v.as_slice())
    }

    /// The decisions of `qru generate` before the file is written, for the
    /// short code `code`, `host` being the configured server address. In the
    /// order the flags are examined: an invalid URL gives `Invalid URL: `
    /// and the reason; an unreadable expiration its message; a text the code
    /// cannot hold the encoder's message. `None` where the expiration ends in
    /// a character that the lenient syntax cannot split off.
    pub fn plan_generate(
        url: &str,
        expire: &str,
        format: &str,
        ecc: &str,
        static_only: bool,
        host: &str,
        code: &str,
    ) -> (r: Option<Result<GeneratePlan, String>>)
        ensures
            generate_outcome(r, url@, expire@, format@, ecc@, static_only, host@, code@),
    {
        let valid_url = match UrlValidator::validate(url) {
            Ok(u) => u,
            Err(e) => {
                let mut v: Vec<char> = Vec::new();
                push_str(&mut v, "Invalid URL: ");
                push_str(&mut v, e.as_str());
                return Some(Err(string_of(v.as_slice())));
            },
        };
        let parsed = match ExpirationOption::try_from_str_lenient(expire) {
            None => return None,
            Some(p) => p,
        };
        let expiration = match parsed {
            Ok(x) => x,
            Err(e) => return Some(Err(e)),
        };
        let ecc_level = Self::ecc_from_flag(ecc);
        let export_fmt = Self::format_from_flag(format);
        let target = Self::encoded_target(static_only, valid_url.as_str(), host, code);
        let ts = target.as_str();
        let qr = match QrGenerator::create_qr(ts, ecc_level) {
            Ok(q) => q,
            Err(e) => {
                proof {
                    assert(ts.spec_bytes() == encode_utf8(target@));
                }
                return Some(Err(e));
            },
        };
        proof {
            assert(ts.spec_bytes() == encode_utf8(target@));
        }
        Some(
            Ok(
                GeneratePlan {
                    valid_url,
                    expiration,
                    ecc: ecc_level,
                    format: export_fmt,
                    short_code: code.to_owned(),
                    encoded_target: target,
                    static_only,
                    qr,
                },
            ),
        )
    }

    /// The decisions of `qru generate` before the file is written, for a
    /// fresh short code (see `plan_generate`).
    pub fn prepare_generate(
        url: &str,
        expire: &str,
        format: &str,
        ecc: &str,
        static_only: bool,
        host: &str,
    ) -> (r: Option<Result<GeneratePlan, String>>)
        ensures
            exists|code: Seq<char>|
                code.len() == 8 && #[trigger] generate_outcome(
                    r,
                    url@,
                    expire@,
                    format@,
                    ecc@,
                    static_only,
                    host@,
                    code,
                ),
    {
        let code = Self::new_short_code();
        let r = Self::plan_generate(url, expire, format, ecc, static_only, host, code.as_str());
        proof {
            assert(generate_outcome(r, url@, expire@, format@, ecc@, static_only, host@, code@));
        }
        r
    }

    /// One line of `qru history` for the item at `index` (counted from 0),
    /// its remaining time taken at `now`.
    pub fn history_line(index: usize, item: &QrItem, now: i64) -> (r: String)
        requires
            index < usize::MAX,
        ensures
            r@ == history_text(
                (index + 1) as nat,
                item.is_favorite,
                item.original_url@,
                remaining_text(item.expiration_time, now as int),
                item.short_code@,
            ),
    {
        let mut v = decimal_of((index + 1) as u64);
        push_str(&mut v, ". ");
        if item.is_favorite {
            push_str(&mut v, "★");
        } else {
            push_str(&mut v, " ");
        }
        push_str(&mut v, " URL: ");
        push_str(&mut v, item.original_url.as_str());
        push_str(&mut v, " | Exp: ");
        let rem = item.remaining_time_at(now);
        push_str(&mut v, rem.as_str());
        push_str(&mut v, " | Code: ");
        push_str(&mut v, item.short_code.as_str());
        string_of(v.as_slice())
    }

    /// One line of `qru history` for the item at `index`, its remaining time
    /// taken by the machine's clock, some instant of the calendar from the
    /// epoch on.
    pub fn history_entry(index: usize, item: &QrItem) -> (r: String)
        requires
            index < usize::MAX,
        ensures
            exists|now: int|
                0 <= now <= MAX_UTC_MILLIS && r@ == #[trigger] history_text(
                    (index + 1) as nat,
                    item.is_favorite,
                    item.original_url@,
                    remaining_text(item.expiration_time, now),
                    item.short_code@,
                ),
    {
        let now = now_millis();
        Self::history_line(index, item, now)
    }
}

/// The history item of the plan `p` for a code created at `now`: none where
/// the expiration period cannot be added to `now` within the calendar;
/// otherwise a fresh item for the validated URL, with the plan's short code,
/// redirect address (unless static), expiration, error correction and format.
pub open spec fn plan_item(p: GeneratePlan, r: Option<QrItem>, now: int) -> bool {
    &&& (r is Some <==> p.expiration.fits_at(now))
    &&& r matches Some(i) ==> {
        &&& i.original_url == p.valid_url
        &&& i.target_type == TargetType::Url(p.valid_url)
        &&& i.short_code == p.short_code
        &&& i.dynamic_url == (if p.static_only {
            None
        } else {
            Some(p.encoded_target)
        })
        &&& i.expiration_time == p.expiration.expiry_at(now)
        &&& i.ecc_level == p.ecc
        &&& i.export_format == p.format
        &&& !i.is_favorite
        &&& i.last_saved_path is None
        &&& i.title is None
    }
}

impl GeneratePlan {
    /// The history item of a generated code, created now (see `plan_item`).
    pub fn item(&self) -> (r: Option<QrItem>)
        ensures
            exists|now: int| 0 <= now <= MAX_UTC_MILLIS && #[trigger] plan_item(*self, r, now),
    {
        let now = now_millis();
        let expires = match self.expiration.expiration_checked(now) {
            Some(e) => e,
            None => {
                proof {
                    assert(plan_item(*self, None, now as int));
                }
                return None;
            },
        };
        let dynamic = if self.static_only {
            None
        } else {
            Some(self.encoded_target.clone())
        };
        let r = Some(
            QrItem::new(
                self.valid_url.clone(),
                TargetType::Url(self.valid_url.clone()),
                self.short_code.clone(),
                dynamic,
                expires,
                self.ecc,
                self.format,
            ),
        );
        proof {
            assert(plan_item(*self, r, now as int));
        }
        r
    }
}

} // verus!
