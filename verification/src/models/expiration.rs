//! Expiration periods of dynamic QR codes: presets, custom durations, the
//! lenient text syntax ("30m", "1h", "never", ...) and remaining-time texts.
use vstd::prelude::*;

use crate::clock::{now_millis, MAX_UTC_MILLIS, MIN_UTC_MILLIS, TIMESTAMP_LIMIT};
use crate::text::{
    all_digits, chars_of, decimal, decimal_of, digits_value, is_digit, is_digit_char, lowercase,
    is_ascii_text, ascii_lower, ascii_lower_char,
    push_all, push_str, same_str, slice, string_of, to_lowercase, trim, trimmed_str,
};

verus! {

/// The unit of a custom expiration period.
#[derive(Debug, Clone, Copy, PartialEq, Eq, Structural)]
pub enum TimeUnit {
    Minutes,
    Hours,
    Days,
    Weeks,
    Months,
}

impl TimeUnit {
    /// The length of one unit in seconds (a month counts thirty days).
    pub open spec fn seconds(self) -> int {
        match self {
            TimeUnit::Minutes => 60,
            TimeUnit::Hours => 3600,
            TimeUnit::Days => 86400,
            TimeUnit::Weeks => 604800,
            TimeUnit::Months => 2592000,
        }
    }

    /// The unit's display name.
    pub open spec fn name_text(self) -> Seq<char> {
        match self {
            TimeUnit::Minutes => "Minutes"@,
            TimeUnit::Hours => "Hours"@,
            TimeUnit::Days => "Days"@,
            TimeUnit::Weeks => "Weeks"@,
            TimeUnit::Months => "Months"@,
        }
    }

    /// The unit's display name ("Minutes", "Hours", ...).
    pub fn display(&self) -> (r: String)
        ensures
            r@ == self.name_text(),
    {
        match self {
            TimeUnit::Minutes => "Minutes".to_owned(),
            TimeUnit::Hours => "Hours".to_owned(),
            TimeUnit::Days => "Days".to_owned(),
            TimeUnit::Weeks => "Weeks".to_owned(),
            TimeUnit::Months => "Months".to_owned(),
        }
    }
}

/// How long a generated QR code stays valid.
#[derive(Debug, Clone, Copy, PartialEq, Eq, Structural)]
pub enum ExpirationOption {
    FiveMinutes,
    TenMinutes,
    ThirtyMinutes,
    OneHour,
    OneDay,
    SevenDays,
    Never,
    Custom { value: u64, unit: TimeUnit },
}

/// The largest offset, in milliseconds, that can be added to a current time.
/// It is wider than the whole range of `DateTime<Utc>`, so a longer period
/// overflows the calendar whatever the current time is.
pub const OFFSET_LIMIT: i64 = 17_000_000_000_000_000;

/// Whether `exp` lies in the past at `now` (an instant without expiration never does).
pub open spec fn expired_at(exp: Option<i64>, now: int) -> bool {
    match exp {
        Some(e) => now >= e,
        None => false,
    }
}

/// The remaining-time text shown for the expiration `exp` at `now`.
pub open spec fn remaining_text(exp: Option<i64>, now: int) -> Seq<char> {
    match exp {
        None => "Never expires"@,
        Some(e) => {
            if now >= e {
                "Expired"@
            } else {
                let secs = ((e - now) / 1000) as nat;
                let days = secs / 86400;
                let hours = secs / 3600;
                let mins = secs / 60;
                if days > 0 {
                    "Expires in "@ + decimal(days) + "d "@ + decimal(hours % 24) + "h"@
                } else if hours > 0 {
                    "Expires in "@ + decimal(hours) + "h "@ + decimal(mins % 60) + "m"@
                } else if mins > 0 {
                    "Expires in "@ + decimal(mins) + "m "@ + decimal(secs % 60) + "s"@
                } else {
                    "Expires in "@ + decimal(secs) + "s"@
                }
            }
        },
    }
}

/// `str::parse::<u64>`: an optional `+`, then at least one ASCII digit, the
/// value fitting in 64 bits.
pub open spec fn parse_u64(s: Seq<char>) -> Option<u64> {
    let digits = unsigned_digits(s);
    if digits.len() > 0 && all_digits(digits) && digits_value(digits) <= u64::MAX {
        Some(digits_value(digits) as u64)
    } else {
        None
    }
}

/// `s` without a leading `+`.
pub open spec fn unsigned_digits(s: Seq<char>) -> Seq<char> {
    if s.len() > 0 && s[0] == '+' {
        s.drop_first()
    } else {
        s
    }
}

/// The lenient parser splits its (lower-cased, trimmed) input before the
/// last byte; that is a character boundary unless the input ends with a
/// non-ASCII character.
pub open spec fn splittable(l: Seq<char>) -> bool {
    l.len() == 0 || (l.last() as u32) < 128
}

/// The unit a custom period's trailing letter names.
pub open spec fn unit_of(c: char) -> Option<TimeUnit> {
    if c == 'm' {
        Some(TimeUnit::Minutes)
    } else if c == 'h' {
        Some(TimeUnit::Hours)
    } else if c == 'd' {
        Some(TimeUnit::Days)
    } else if c == 'w' {
        Some(TimeUnit::Weeks)
    } else if c == 'M' {
        Some(TimeUnit::Months)
    } else {
        None
    }
}

/// The message of an input that matches no form.
pub open spec fn invalid_format_message(original: Seq<char>) -> Seq<char> {
    "Invalid expiration format: '"@ + original + "'. Try e.g. '30m', '1h', '7d', or 'never'."@
}

/// What the lenient syntax makes of `l`, the trimmed and lower-cased input;
/// `original` is the input as given, quoted in the error message.
pub open spec fn lenient_parse(l: Seq<char>, original: Seq<char>) -> Result<
    ExpirationOption,
    Seq<char>,
> {
    if l == "never"@ || l == "none"@ || l == "0"@ {
        Ok(ExpirationOption::Never)
    } else if l == "5m"@ || l == "5min"@ {
        Ok(ExpirationOption::FiveMinutes)
    } else if l == "10m"@ || l == "10min"@ {
        Ok(ExpirationOption::TenMinutes)
    } else if l == "30m"@ || l == "30min"@ {
        Ok(ExpirationOption::ThirtyMinutes)
    } else if l == "1h"@ || l == "1hour"@ {
        Ok(ExpirationOption::OneHour)
    } else if l == "1d"@ || l == "1day"@ {
        Ok(ExpirationOption::OneDay)
    } else if l == "7d"@ || l == "7days"@ {
        Ok(ExpirationOption::SevenDays)
    } else if l.len() >= 2 && parse_u64(l.drop_last()) is Some {
        match unit_of(l.last()) {
            Some(unit) => Ok(
                ExpirationOption::Custom { value: parse_u64(l.drop_last()).unwrap(), unit },
            ),
            None => Err("Unknown time unit: "@ + seq![l.last()]),
        }
    } else {
        Err(invalid_format_message(original))
    }
}

/// An executable result agrees with a specified one, the error as text.
pub open spec fn agrees(r: Result<ExpirationOption, String>, s: Result<ExpirationOption, Seq<char>>) -> bool {
    match r {
        Ok(o) => s == Ok::<ExpirationOption, Seq<char>>(o),
        Err(e) => s == Err::<ExpirationOption, Seq<char>>(e@),
    }
}

impl ExpirationOption {
    /// The option's label.
    pub open spec fn label_text(self) -> Seq<char> {
        match self {
            ExpirationOption::FiveMinutes => "5 minutes"@,
            ExpirationOption::TenMinutes => "10 minutes"@,
            ExpirationOption::ThirtyMinutes => "30 minutes"@,
            ExpirationOption::OneHour => "1 hour"@,
            ExpirationOption::OneDay => "1 day"@,
            ExpirationOption::SevenDays => "7 days"@,
            ExpirationOption::Never => "Never expires"@,
            ExpirationOption::Custom { value, unit } => "Custom ("@ + decimal(value as nat) + " "@
                + unit.name_text() + ")"@,
        }
    }

    /// The period in milliseconds, `None` for an option that never expires.
    /// A custom value is scaled by its unit as it stands, so no period is
    /// negative: an expiration counted from now never lies in the past.
    pub open spec fn offset_millis(self) -> Option<int> {
        match self {
            ExpirationOption::FiveMinutes => Some(300_000int),
            ExpirationOption::TenMinutes => Some(600_000int),
            ExpirationOption::ThirtyMinutes => Some(1_800_000int),
            ExpirationOption::OneHour => Some(3_600_000int),
            ExpirationOption::OneDay => Some(86_400_000int),
            ExpirationOption::SevenDays => Some(604_800_000int),
            ExpirationOption::Never => None,
            ExpirationOption::Custom { value, unit } => Some(value * unit.seconds() * 1000),
        }
    }

    /// The period fits the calendar at all (see `OFFSET_LIMIT`).
    pub open spec fn within_bounds(self) -> bool {
        match self.offset_millis() {
            Some(o) => -OFFSET_LIMIT <= o <= OFFSET_LIMIT,
            None => true,
        }
    }

    /// The expiration instant of a code created at `now`; `None` for a
    /// period that never expires.
    pub open spec fn expiry_at(self, now: int) -> Option<i64> {
        match self.offset_millis() {
            Some(o) => Some((now + o) as i64),
            None => None,
        }
    }

    /// The period can be added to `now` without leaving the calendar, as
    /// chrono's addition demands.
    pub open spec fn fits_at(self, now: int) -> bool {
        self.within_bounds() && match self.offset_millis() {
            Some(o) => MIN_UTC_MILLIS <= now + o <= MAX_UTC_MILLIS,
            None => true,
        }
    }

    /// The seven presets, in menu order.
    pub open spec fn preset_list() -> Seq<ExpirationOption> {
        seq![
            ExpirationOption::FiveMinutes,
            ExpirationOption::TenMinutes,
            ExpirationOption::ThirtyMinutes,
            ExpirationOption::OneHour,
            ExpirationOption::OneDay,
            ExpirationOption::SevenDays,
            ExpirationOption::Never,
        ]
    }

    /// The seven presets, in menu order.
    pub fn presets() -> (r: Vec<ExpirationOption>)
        ensures
            r@ == Self::preset_list(),
    {
        let r = vec![
            ExpirationOption::FiveMinutes,
            ExpirationOption::TenMinutes,
            ExpirationOption::ThirtyMinutes,
            ExpirationOption::OneHour,
            ExpirationOption::OneDay,
            ExpirationOption::SevenDays,
            ExpirationOption::Never,
        ];
        proof {
            assert(r@ =~= Self::preset_list());
        }
        r
    }

    /// The option's label ("5 minutes", "Never expires", "Custom (45 Minutes)", ...).
    pub fn label(&self) -> (r: String)
        ensures
            r@ == self.label_text(),
    {
        match self {
            ExpirationOption::FiveMinutes => "5 minutes".to_owned(),
            ExpirationOption::TenMinutes => "10 minutes".to_owned(),
            ExpirationOption::ThirtyMinutes => "30 minutes".to_owned(),
            ExpirationOption::OneHour => "1 hour".to_owned(),
            ExpirationOption::OneDay => "1 day".to_owned(),
            ExpirationOption::SevenDays => "7 days".to_owned(),
            ExpirationOption::Never => "Never expires".to_owned(),
            ExpirationOption::Custom { value, unit } => {
                let mut v: Vec<char> = Vec::new();
                push_str(&mut v, "Custom (");
                let d = decimal_of(*value);
                push_all(&mut v, d.as_slice());
                push_str(&mut v, " ");
                let n = unit.display();
                push_str(&mut v, n.as_str());
                push_str(&mut v, ")");
                string_of(v.as_slice())
            },
        }
    }

    /// Whether the period fits the calendar at all (`within_bounds`).
    pub fn in_bounds(&self) -> (r: bool)
        ensures
            r == self.within_bounds(),
    {
        match self {
            ExpirationOption::Custom { value, unit } => {
                let v: i128 = *value as i128;
                let off: i128 = match unit {
                    TimeUnit::Minutes => v * 60_000,
                    TimeUnit::Hours => v * 3_600_000,
                    TimeUnit::Days => v * 86_400_000,
                    TimeUnit::Weeks => v * 604_800_000,
                    TimeUnit::Months => v * 2_592_000_000,
                };
                -(OFFSET_LIMIT as i128) <= off && off <= OFFSET_LIMIT as i128
            },
            _ => true,
        }
    }

    /// The expiration instant of this option for a code created at `now`.
    pub fn expiration_at(&self, now: i64) -> (r: Option<i64>)
        requires
            self.within_bounds(),
            -TIMESTAMP_LIMIT <= now <= TIMESTAMP_LIMIT,
        ensures
            match self.offset_millis() {
                Some(o) => r == Some((now + o) as i64),
                None => r is None,
            },
            r matches Some(t) ==> t == now + self.offset_millis().unwrap(),
    {
        match self {
            ExpirationOption::FiveMinutes => Some(now + 300_000),
            ExpirationOption::TenMinutes => Some(now + 600_000),
            ExpirationOption::ThirtyMinutes => Some(now + 1_800_000),
            ExpirationOption::OneHour => Some(now + 3_600_000),
            ExpirationOption::OneDay => Some(now + 86_400_000),
            ExpirationOption::SevenDays => Some(now + 604_800_000),
            ExpirationOption::Never => None,
            ExpirationOption::Custom { value, unit } => {
                let v: i128 = *value as i128;
                let off: i128 = match unit {
                    TimeUnit::Minutes => v * 60_000,
                    TimeUnit::Hours => v * 3_600_000,
                    TimeUnit::Days => v * 86_400_000,
                    TimeUnit::Weeks => v * 604_800_000,
                    TimeUnit::Months => v * 2_592_000_000,
                };
                Some((now as i128 + off) as i64)
            },
        }
    }

    /// The expiration instant of a code created at `now`, when the period
    /// fits the calendar from there (see `fits_at`); `None` inside for a
    /// period that never expires, `None` outside where the calendar has no
    /// such instant.
    pub fn expiration_checked(&self, now: i64) -> (r: Option<Option<i64>>)
        requires
            0 <= now <= MAX_UTC_MILLIS,
        ensures
            r is Some <==> self.fits_at(now as int),
            r matches Some(e) ==> e == self.expiry_at(now as int),
    {
        if !self.in_bounds() {
            return None;
        }
        let e = self.expiration_at(now);
        match e {
            Some(t) => {
                if t < MIN_UTC_MILLIS || t > MAX_UTC_MILLIS {
                    None
                } else {
                    Some(Some(t))
                }
            },
            None => Some(None),
        }
    }

    /// The expiration instant of this option for a code created now.
    /// The current time is the machine's, so the instant is stated relative to
    /// some current time within the calendar's range.
    pub fn to_timestamp(&self) -> (r: Option<i64>)
        requires
            self.within_bounds(),
        ensures
            r is None <==> self.offset_millis() is None,
            r matches Some(t) ==> 0 <= t - self.offset_millis().unwrap() <= MAX_UTC_MILLIS,
    {
        let now = now_millis();
        self.expiration_at(now)
    }

    /// Whether the expiration instant `exp` has passed at `now`.
    pub fn is_expired_at(exp: Option<i64>, now: i64) -> (r: bool)
        ensures
            r == expired_at(exp, now as int),
    {
        match exp {
            Some(e) => now >= e,
            None => false,
        }
    }

    /// Whether the expiration instant `exp` has passed by the machine's
    /// clock: the answer of `is_expired_at` for the clock's reading, some
    /// instant of the calendar from the epoch on. An instant without
    /// expiration never passes.
    pub fn is_expired(exp: Option<i64>) -> (r: bool)
        ensures
            exists|now: int| 0 <= now <= MAX_UTC_MILLIS && #[trigger] expired_at(exp, now) == r,
    {
        let now = now_millis();
        let r = Self::is_expired_at(exp, now);
        proof {
            assert(expired_at(exp, now as int) == r);
        }
        r
    }

    /// The remaining time until `exp` at `now`, in words.
    pub fn format_remaining_at(exp: Option<i64>, now: i64) -> (r: String)
        ensures
            r@ == remaining_text(exp, now as int),
    {
        match exp {
            None => "Never expires".to_owned(),
            Some(e) => {
                if now >= e {
                    "Expired".to_owned()
                } else {
                    let diff: i128 = e as i128 - now as i128;
                    let secs: u64 = (diff / 1000) as u64;
                    let days = secs / 86400;
                    let hours = secs / 3600;
                    let mins = secs / 60;
                    let mut v: Vec<char> = Vec::new();
                    push_str(&mut v, "Expires in ");
                    if days > 0 {
                        push_all(&mut v, decimal_of(days).as_slice());
                        push_str(&mut v, "d ");
                        push_all(&mut v, decimal_of(hours % 24).as_slice());
                        push_str(&mut v, "h");
                    } else if hours > 0 {
                        push_all(&mut v, decimal_of(hours).as_slice());
                        push_str(&mut v, "h ");
                        push_all(&mut v, decimal_of(mins % 60).as_slice());
                        push_str(&mut v, "m");
                    } else if mins > 0 {
                        push_all(&mut v, decimal_of(mins).as_slice());
                        push_str(&mut v, "m ");
                        push_all(&mut v, decimal_of(secs % 60).as_slice());
                        push_str(&mut v, "s");
                    } else {
                        push_all(&mut v, decimal_of(secs).as_slice());
                        push_str(&mut v, "s");
                    }
                    string_of(v.as_slice())
                }
            },
        }
    }

    /// The remaining time until `exp`, in words, at the machine's current
    /// time, some instant of the calendar from the epoch on.
    pub fn format_remaining(exp: Option<i64>) -> (r: String)
        ensures
            exists|now: int| 0 <= now <= MAX_UTC_MILLIS && r@ == #[trigger] remaining_text(exp, now),
    {
        let now = now_millis();
        Self::format_remaining_at(exp, now)
    }

    /// The lenient syntax applied to `lowered`, the trimmed and lower-cased
    /// input; `original` is the input as given, for the error message.
    pub fn parse_lowered(lowered: &str, original: &str) -> (r: Result<ExpirationOption, String>)
        requires
            splittable(lowered@),
        ensures
            agrees(r, lenient_parse(lowered@, original@)),
    {
        let l = chars_of(lowered);
        let ls = l.as_slice();
        if same_str(ls, "never") || same_str(ls, "none") || same_str(ls, "0") {
            return Ok(ExpirationOption::Never);
        }
        if same_str(ls, "5m") || same_str(ls, "5min") {
            return Ok(ExpirationOption::FiveMinutes);
        }
        if same_str(ls, "10m") || same_str(ls, "10min") {
            return Ok(ExpirationOption::TenMinutes);
        }
        if same_str(ls, "30m") || same_str(ls, "30min") {
            return Ok(ExpirationOption::ThirtyMinutes);
        }
        if same_str(ls, "1h") || same_str(ls, "1hour") {
            return Ok(ExpirationOption::OneHour);
        }
        if same_str(ls, "1d") || same_str(ls, "1day") {
            return Ok(ExpirationOption::OneDay);
        }
        if same_str(ls, "7d") || same_str(ls, "7days") {
            return Ok(ExpirationOption::SevenDays);
        }
        if l.len() >= 2 {
            let n = l.len();
            let num_part = slice(ls, 0, n - 1);
            proof {
                assert(num_part@ =~= l@.drop_last());
            }
            if let Some(num) = parse_u64_chars(num_part.as_slice()) {
                let u = l[n - 1];
                let unit = if u == 'm' {
                    TimeUnit::Minutes
                } else if u == 'h' {
                    TimeUnit::Hours
                } else if u == 'd' {
                    TimeUnit::Days
                } else if u == 'w' {
                    TimeUnit::Weeks
                } else if u == 'M' {
                    TimeUnit::Months
                } else {
                    let mut msg: Vec<char> = Vec::new();
                    push_str(&mut msg, "Unknown time unit: ");
                    msg.push(u);
                    proof {
                        assert(msg@ =~= "Unknown time unit: "@ + seq![u]);
                    }
                    return Err(string_of(msg.as_slice()));
                };
                return Ok(ExpirationOption::Custom { value: num, unit });
            }
        }
        let mut msg: Vec<char> = Vec::new();
        push_str(&mut msg, "Invalid expiration format: '");
        push_str(&mut msg, original);
        push_str(&mut msg, "'. Try e.g. '30m', '1h', '7d', or 'never'.");
        Err(string_of(msg.as_slice()))
    }

    /// Parses "5m", "10m", "30m", "1h", "1d", "7d", "never" and custom periods
    /// such as "45m", "12h", "3w" (case and surrounding white space ignored).
    pub fn from_str_lenient(s: &str) -> (r: Result<ExpirationOption, String>)
        requires
            is_ascii_text(trim(s@)) || splittable(lowercase(trim(s@))),
        ensures
            agrees(r, lenient_parse(lowercase(trim(s@)), s@)),
            is_ascii_text(trim(s@)) ==> agrees(r, lenient_parse(ascii_lower(trim(s@)), s@)),
            !(r matches Ok(ExpirationOption::Custom { unit: TimeUnit::Months, .. })),
    {
        let t = trimmed_str(s);
        let ts = string_of(t.as_slice());
        let lowered = to_lowercase(ts.as_str());
        proof {
            lemma_ascii_lower_splittable(trim(s@));
            if lowered@.len() > 0 {
                let last = lowered@[lowered@.len() - 1];
                assert(!(65 <= (last as u32) && (last as u32) <= 90));
                assert(lowered@.last() == last);
            }
        }
        Self::parse_lowered(lowered.as_str(), s)
    }

    /// `from_str_lenient` where it is defined: `None` for the inputs on which
    /// the lenient syntax cannot split its input (it ends with a non-ASCII
    /// character after lower-casing).
    pub fn try_from_str_lenient(s: &str) -> (r: Option<Result<ExpirationOption, String>>)
        ensures
            r is None <==> !splittable(lowercase(trim(s@))),
            r matches Some(res) ==> agrees(res, lenient_parse(lowercase(trim(s@)), s@)),
            is_ascii_text(trim(s@)) ==> (r matches Some(res) && agrees(
                res,
                lenient_parse(ascii_lower(trim(s@)), s@),
            )),
            !(r matches Some(Ok(ExpirationOption::Custom { unit: TimeUnit::Months, .. }))),
    {
        let t = trimmed_str(s);
        let ts = string_of(t.as_slice());
        let lowered = to_lowercase(ts.as_str());
        proof {
            lemma_ascii_lower_splittable(trim(s@));
        }
        let l = chars_of(lowered.as_str());
        if l.len() > 0 && (l[l.len() - 1] as u32) >= 128 {
            return None;
        }
        Some(Self::from_str_lenient(s))
    }
}

/// Each preset lasts the period its label names, measured with the same
/// unit table as custom periods: five, ten and thirty minutes, one hour, one
/// day and seven days (one week); and the units themselves are a minute of
/// sixty seconds, an hour of sixty minutes, a day of twenty-four hours, a
/// week of seven days and a month of thirty days.
pub proof fn law_presets_match_units()
    ensures
        TimeUnit::Minutes.seconds() == 60,
        TimeUnit::Hours.seconds() == 60 * TimeUnit::Minutes.seconds(),
        TimeUnit::Days.seconds() == 24 * TimeUnit::Hours.seconds(),
        TimeUnit::Weeks.seconds() == 7 * TimeUnit::Days.seconds(),
        TimeUnit::Months.seconds() == 30 * TimeUnit::Days.seconds(),
        ExpirationOption::FiveMinutes.offset_millis()
            == (ExpirationOption::Custom { value: 5, unit: TimeUnit::Minutes }).offset_millis(),
        ExpirationOption::TenMinutes.offset_millis()
            == (ExpirationOption::Custom { value: 10, unit: TimeUnit::Minutes }).offset_millis(),
        ExpirationOption::ThirtyMinutes.offset_millis()
            == (ExpirationOption::Custom { value: 30, unit: TimeUnit::Minutes }).offset_millis(),
        ExpirationOption::OneHour.offset_millis()
            == (ExpirationOption::Custom { value: 1, unit: TimeUnit::Hours }).offset_millis(),
        ExpirationOption::OneDay.offset_millis()
            == (ExpirationOption::Custom { value: 1, unit: TimeUnit::Days }).offset_millis(),
        ExpirationOption::SevenDays.offset_millis()
            == (ExpirationOption::Custom { value: 7, unit: TimeUnit::Days }).offset_millis(),
        ExpirationOption::SevenDays.offset_millis()
            == (ExpirationOption::Custom { value: 1, unit: TimeUnit::Weeks }).offset_millis(),
        ExpirationOption::Never.offset_millis() is None,
{
}

/// An expiration is counted forward: for a code created at `now`, the
/// expiration instant of any period that fits the calendar lies at or after
/// `now`.
pub proof fn law_expiry_not_in_past(opt: ExpirationOption, now: int)
    requires
        opt.fits_at(now),
    ensures
        opt.offset_millis() matches Some(o) ==> o >= 0,
        opt.expiry_at(now) matches Some(t) ==> t >= now,
{
    if let ExpirationOption::Custom { value, unit } = opt {
        assert(value * unit.seconds() * 1000 >= 0) by (nonlinear_arith)
            requires
                unit.seconds() > 0,
        ;
    }
}

/// Lower-casing an ASCII text leaves it ASCII, so the lenient syntax can
/// split it.
pub proof fn lemma_ascii_lower_splittable(t: Seq<char>)
    ensures
        is_ascii_text(t) ==> splittable(ascii_lower(t)),
{
    if is_ascii_text(t) && t.len() > 0 {
        let c = t[t.len() - 1];
        assert((c as u32) < 128);
        assert(ascii_lower(t).last() == ascii_lower_char(c));
    }
}

/// The value of an all-digit sequence is at least that of any of its prefixes.
pub proof fn lemma_digits_value_prefix(s: Seq<char>, k: int)
    requires
        all_digits(s),
        0 <= k <= s.len(),
    ensures
        digits_value(s.take(k)) <= digits_value(s),
    decreases s.len(),
{
    if k < s.len() {
        let p = s.drop_last();
        assert(all_digits(p)) by {
            assert forall|i: int| 0 <= i < p.len() implies is_digit(#[trigger] p[i]) by {
                assert(p[i] == s[i]);
            }
        }
        lemma_digits_value_prefix(p, k);
        assert(p.take(k) =~= s.take(k));
    } else {
        assert(s.take(k) =~= s);
    }
}

/// `str::parse::<u64>` on a character sequence.
pub fn parse_u64_chars(s: &[char]) -> (r: Option<u64>)
    ensures
        r == parse_u64(s@),
{
    let start: usize = if s.len() > 0 && s[0] == '+' {
        1
    } else {
        0
    };
    let digits = slice(s, start, s.len());
    proof {
        if start == 1 {
            assert(digits@ =~= s@.drop_first());
        } else {
            assert(digits@ =~= s@);
        }
    }
    if digits.len() == 0 {
        return None;
    }
    let mut acc: u64 = 0;
    let mut i: usize = 0;
    while i < digits.len()
        invariant
            digits@ == unsigned_digits(s@),
            i <= digits@.len(),
            all_digits(digits@.take(i as int)),
            acc as nat == digits_value(digits@.take(i as int)),
        decreases digits@.len() - i,
    {
        let c = digits[i];
        let ghost prefix = digits@.take(i as int);
        let ghost next = digits@.take(i + 1);
        proof {
            assert(next.drop_last() =~= prefix);
        }
        if !is_digit_char(c) {
            proof {
                assert(!all_digits(digits@)) by {
                    assert(digits@[i as int] == c);
                }
            }
            return None;
        }
        let d = (c as u32 - 48) as u64;
        let wide: u128 = (acc as u128) * 10 + d as u128;
        proof {
            assert(all_digits(next)) by {
                assert forall|j: int| 0 <= j < next.len() implies is_digit(#[trigger] next[j]) by {
                    if j < i {
                        assert(next[j] == prefix[j]);
                    }
                }
            }
            assert(wide == digits_value(next));
        }
        if wide > 0xffff_ffff_ffff_ffffu128 {
            proof {
                if all_digits(digits@) {
                    lemma_digits_value_prefix(digits@, i + 1);
                }
            }
            return None;
        }
        acc = wide as u64;
        i = i + 1;
    }
    proof {
        assert(digits@.take(digits@.len() as int) =~= digits@);
    }
    Some(acc)
}

/// Once a code has expired it stays expired; a code that never expires
/// never does.
pub proof fn law_expiry_monotone(exp: Option<i64>, now: int, later: int)
    requires
        now <= later,
    ensures
        expired_at(exp, now) ==> expired_at(exp, later),
        exp is None ==> !expired_at(exp, later),
{
}

} // verus!
