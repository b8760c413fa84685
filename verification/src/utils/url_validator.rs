//! Validation and display of target URLs.
use vstd::prelude::*;

use crate::text::{
    chars_of, contains, find_in, is_space, lemma_trim_edges, lemma_trim_fixed, occurs_at, push_all,
    push_str, same_str, string_of, trim, trimmed_str,
};

verus! {

/// The parts of a parsed URL the validator reads.
pub struct ParsedUrl {
    pub scheme: String,
    pub host: Option<String>,
    pub serialization: String,
}

/// The text of an optional string.
pub open spec fn opt_text(o: Option<String>) -> Option<Seq<char>> {
    match o {
        Some(s) => Some(s@),
        None => None,
    }
}

/// What `url::Url::parse` makes of a text: its scheme, its host and its
/// serialization, or the text of the parse error.
pub uninterp spec fn url_parse_outcome(input: Seq<char>) -> Result<
    (Seq<char>, Option<Seq<char>>, Seq<char>),
    Seq<char>,
>;

/// The plain view of a parse result.
pub open spec fn parsed_view(r: Result<ParsedUrl, String>) -> Result<
    (Seq<char>, Option<Seq<char>>, Seq<char>),
    Seq<char>,
> {
    match r {
        Ok(u) => Ok((u.scheme@, opt_text(u.host), u.serialization@)),
        Err(e) => Err(e@),
    }
}

/// `url::Url::parse`, read through `scheme()`, `host_str()` and `to_string()`,
/// the error through its `Display`. WHATWG URL parsing takes pages to state,
/// so the outcome is named `url_parse_outcome`; nothing more is claimed.
#[verifier::external_body]
fn parse_url(input: &str) -> (r: Result<ParsedUrl, String>)
    ensures
        parsed_view(r) == url_parse_outcome(input@),
{
    match url::Url::parse(input) {
        Ok(u) => Ok(
            ParsedUrl {
                scheme: u.scheme().to_string(),
                host: u.host_str().map(|h| h.to_string()),
                serialization: u.to_string(),
            },
        ),
        Err(e) => Err(e.to_string()),
    }
}

/// The text handed to the URL parser: the trimmed input, with `https://`
/// put in front when it names no scheme.
pub open spec fn url_target(input: Seq<char>) -> Seq<char> {
    let t = trim(input);
    if contains(t, "://"@) {
        t
    } else {
        "https://"@ + t
    }
}

/// The verdict on a parse outcome: only http and https URLs with a host pass,
/// and they pass in their normalized serialization.
pub open spec fn verdict(outcome: Result<(Seq<char>, Option<Seq<char>>, Seq<char>), Seq<char>>) -> Result<
    Seq<char>,
    Seq<char>,
> {
    match outcome {
        Ok((scheme, host, serialization)) => {
            if scheme != "http"@ && scheme != "https"@ {
                Err(
                    "Unsupported protocol '"@ + scheme
                        + "'. Only http:// and https:// are supported."@,
                )
            } else if host is None {
                Err("URL must include a valid domain name or IP host."@)
            } else {
                Ok(serialization)
            }
        },
        Err(e) => Err("Invalid URL syntax: "@ + e),
    }
}

/// The result of validating `input`.
pub open spec fn validation(input: Seq<char>) -> Result<Seq<char>, Seq<char>> {
    if trim(input).len() == 0 {
        Err("URL cannot be empty."@)
    } else {
        verdict(url_parse_outcome(url_target(input)))
    }
}

/// A missing scheme is taken as https: for every input whose trimmed text
/// `t` is not empty and names no scheme (holds no `://`), validating the
/// input gives what validating `https://` followed by `t` gives, the verdict
/// on parsing that text.
pub proof fn law_missing_scheme_is_https(input: Seq<char>)
    requires
        trim(input).len() > 0,
        !contains(trim(input), "://"@),
    ensures
        validation(input) == validation("https://"@ + trim(input)),
        validation(input) == verdict(url_parse_outcome("https://"@ + trim(input))),
{
    let t = trim(input);
    let w = "https://"@ + t;
    reveal_strlit("https://");
    reveal_strlit("://");
    lemma_trim_edges(input);
    assert(w[0] == 'h');
    assert(!is_space(w[0]));
    assert(w.last() == t.last());
    lemma_trim_fixed(w);
    assert(w.subrange(5, 8) =~= "://"@);
    assert(occurs_at(w, "://"@, 5));
    assert(contains(w, "://"@));
}

/// The plain view of a validation result.
pub open spec fn result_text(r: Result<String, String>) -> Result<Seq<char>, Seq<char>> {
    match r {
        Ok(s) => Ok(s@),
        Err(e) => Err(e@),
    }
}

/// The UTF-8 length of a character.
pub open spec fn char_width(c: char) -> nat {
    let u = c as u32;
    if u < 0x80 {
        1
    } else if u < 0x800 {
        2
    } else if u < 0x10000 {
        3
    } else {
        4
    }
}

/// The UTF-8 length of a text, in bytes (`str::len`).
pub open spec fn byte_len(s: Seq<char>) -> nat
    decreases s.len(),
{
    if s.len() == 0 {
        0
    } else {
        char_width(s[0]) + byte_len(s.drop_first())
    }
}

/// The longest prefix of `s` whose UTF-8 encoding fits in `k` bytes.
pub open spec fn take_bytes(s: Seq<char>, k: int) -> Seq<char>
    decreases s.len(),
{
    if s.len() == 0 || char_width(s[0]) > k {
        Seq::empty()
    } else {
        seq![s[0]] + take_bytes(s.drop_first(), k - char_width(s[0]))
    }
}

/// The display form of `url` for at most `max_len` bytes.
pub open spec fn truncated(url: Seq<char>, max_len: nat) -> Seq<char> {
    if byte_len(url) <= max_len {
        url
    } else {
        take_bytes(url, if max_len >= 3 { max_len - 3 } else { 0 }) + "..."@
    }
}

/// Cutting `url` for `max_len` bytes falls on a character boundary: the cut
/// slices the UTF-8 bytes, which is only possible between characters.
pub open spec fn cut_on_boundary(url: Seq<char>, max_len: nat) -> bool {
    let k: int = if max_len >= 3 { max_len - 3 } else { 0 };
    byte_len(url) <= max_len || byte_len(take_bytes(url, k)) == k
}

/// Validates and normalizes URLs typed by the user.
pub struct UrlValidator;

impl UrlValidator {
    /// The verdict on an already parsed URL.
    pub fn judge(parsed: Result<ParsedUrl, String>) -> (r: Result<String, String>)
        ensures
            result_text(r) == verdict(parsed_view(parsed)),
    {
        match parsed {
            Ok(u) => {
                let s = chars_of(u.scheme.as_str());
                if !same_str(s.as_slice(), "http") && !same_str(s.as_slice(), "https") {
                    let mut msg: Vec<char> = Vec::new();
                    push_str(&mut msg, "Unsupported protocol '");
                    push_all(&mut msg, s.as_slice());
                    push_str(&mut msg, "'. Only http:// and https:// are supported.");
                    return Err(string_of(msg.as_slice()));
                }
                if u.host.is_none() {
                    return Err("URL must include a valid domain name or IP host.".to_owned());
                }
                Ok(u.serialization)
            },
            Err(e) => {
                let mut msg: Vec<char> = Vec::new();
                push_str(&mut msg, "Invalid URL syntax: ");
                push_str(&mut msg, e.as_str());
                Err(string_of(msg.as_slice()))
            },
        }
    }

    /// Validates `input` as an http or https URL with a host; a missing
    /// scheme is taken as https. Returns the normalized URL, or the reason.
    pub fn validate(input: &str) -> (r: Result<String, String>)
        ensures
            result_text(r) == validation(input@),
    {
        let t = trimmed_str(input);
        if t.len() == 0 {
            return Err("URL cannot be empty.".to_owned());
        }
        let sep = chars_of("://");
        let target = if find_in(t.as_slice(), sep.as_slice()) {
            string_of(t.as_slice())
        } else {
            let mut v: Vec<char> = Vec::new();
            push_str(&mut v, "https://");
            push_all(&mut v, t.as_slice());
            string_of(v.as_slice())
        };
        let parsed = parse_url(target.as_str());
        Self::judge(parsed)
    }

    /// `url` shortened to at most `max_len` bytes, with "..." marking a cut.
    pub fn truncate(url: &str, max_len: usize) -> (r: String)
        requires
            cut_on_boundary(url@, max_len as nat),
        ensures
            r@ == truncated(url@, max_len as nat),
    {
        let u = chars_of(url);
        let total = utf8_length(u.as_slice());
        if total <= max_len as u128 {
            return string_of(u.as_slice());
        }
        let k: usize = if max_len >= 3 {
            max_len - 3
        } else {
            0
        };
        let mut v = prefix_within(u.as_slice(), k);
        push_str(&mut v, "...");
        string_of(v.as_slice())
    }
}

/// The UTF-8 width of a character.
fn width_of(c: char) -> (w: usize)
    ensures
        w == char_width(c),
{
    let u = c as u32;
    if u < 0x80 {
        1
    } else if u < 0x800 {
        2
    } else if u < 0x10000 {
        3
    } else {
        4
    }
}

/// The UTF-8 length of `s`.
fn utf8_length(s: &[char]) -> (n: u128)
    ensures
        n == byte_len(s@),
{
    let mut n: u128 = 0;
    let mut i = s.len();
    while i > 0
        invariant
            i <= s@.len(),
            n == byte_len(s@.subrange(i as int, s@.len() as int)),
            n <= 4 * (s@.len() - i),
        decreases i,
    {
        proof {
            let t = s@.subrange(i - 1, s@.len() as int);
            assert(t.drop_first() =~= s@.subrange(i as int, s@.len() as int));
        }
        n = n + width_of(s[i - 1]) as u128;
        i = i - 1;
    }
    proof {
        assert(s@.subrange(0, s@.len() as int) =~= s@);
    }
    n
}

/// `take_bytes(s, k)`.
fn prefix_within(s: &[char], k: usize) -> (r: Vec<char>)
    ensures
        r@ == take_bytes(s@, k as int),
{
    let mut r: Vec<char> = Vec::new();
    let mut left = k;
    let mut i: usize = 0;
    proof {
        assert(s@.skip(0) =~= s@);
    }
    while i < s.len() && width_of(s[i]) <= left
        invariant
            i <= s@.len(),
            take_bytes(s@, k as int) == r@ + take_bytes(s@.skip(i as int), left as int),
        decreases s@.len() - i,
    {
        proof {
            let t = s@.skip(i as int);
            assert(t.drop_first() =~= s@.skip(i + 1));
            assert(r@ + (seq![s@[i as int]] + take_bytes(s@.skip(i + 1), left - char_width(s@[i as int])))
                =~= r@.push(s@[i as int]) + take_bytes(s@.skip(i + 1), left - char_width(s@[i as int])));
        }
        left = left - width_of(s[i]);
        r.push(s[i]);
        i = i + 1;
    }
    proof {
        assert(r@ + Seq::<char>::empty() =~= r@);
    }
    r
}

} // verus!
