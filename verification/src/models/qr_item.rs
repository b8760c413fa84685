//! A generated QR code as the history keeps it.
use vstd::prelude::*;

use crate::clock::{now_millis, MAX_UTC_MILLIS};
use crate::models::expiration::{expired_at, remaining_text, ExpirationOption};

verus! {

/// The error-correction level of a QR code.
#[derive(Debug, Clone, Copy, PartialEq, Eq, Structural)]
pub enum EccLevel {
    Low,
    Medium,
    Quartile,
    High,
}

impl EccLevel {
    /// The level's descriptive label.
    pub open spec fn label_text(self) -> Seq<char> {
        match self {
            EccLevel::Low => "Low (~7% recovery)"@,
            EccLevel::Medium => "Medium (~15% recovery)"@,
            EccLevel::Quartile => "Quartile (~25% recovery)"@,
            EccLevel::High => "High (~30% recovery)"@,
        }
    }

    /// The level's descriptive label.
    pub fn label(&self) -> (r: &'static str)
        ensures
            r@ == self.label_text(),
    {
        match self {
            EccLevel::Low => "Low (~7% recovery)",
            EccLevel::Medium => "Medium (~15% recovery)",
            EccLevel::Quartile => "Quartile (~25% recovery)",
            EccLevel::High => "High (~30% recovery)",
        }
    }

    /// The level's one-letter code.
    pub open spec fn code_text(self) -> Seq<char> {
        match self {
            EccLevel::Low => "L"@,
            EccLevel::Medium => "M"@,
            EccLevel::Quartile => "Q"@,
            EccLevel::High => "H"@,
        }
    }

    /// The level's one-letter code ("L", "M", "Q", "H").
    pub fn short_code(&self) -> (r: &'static str)
        ensures
            r@ == self.code_text(),
    {
        match self {
            EccLevel::Low => "L",
            EccLevel::Medium => "M",
            EccLevel::Quartile => "Q",
            EccLevel::High => "H",
        }
    }

    /// The next level in the cycle Low, Medium, Quartile, High, Low.
    pub open spec fn spec_next(self) -> EccLevel {
        match self {
            EccLevel::Low => EccLevel::Medium,
            EccLevel::Medium => EccLevel::Quartile,
            EccLevel::Quartile => EccLevel::High,
            EccLevel::High => EccLevel::Low,
        }
    }

    /// The next level in the cycle Low, Medium, Quartile, High, Low.
    pub fn next(&self) -> (r: EccLevel)
        ensures
            r == self.spec_next(),
    {
        match self {
            EccLevel::Low => EccLevel::Medium,
            EccLevel::Medium => EccLevel::Quartile,
            EccLevel::Quartile => EccLevel::High,
            EccLevel::High => EccLevel::Low,
        }
    }
}

/// The file format a QR code is exported to.
#[derive(Debug, Clone, Copy, PartialEq, Eq, Structural)]
pub enum ExportFormat {
    Png,
    Svg,
    Jpeg,
    Ascii,
    Unicode,
}

impl ExportFormat {
    /// The file extension of the format.
    pub open spec fn extension_text(self) -> Seq<char> {
        match self {
            ExportFormat::Png => "png"@,
            ExportFormat::Svg => "svg"@,
            ExportFormat::Jpeg => "jpg"@,
            ExportFormat::Ascii => "txt"@,
            ExportFormat::Unicode => "txt"@,
        }
    }

    /// The file extension of the format (without the dot).
    pub fn extension(&self) -> (r: &'static str)
        ensures
            r@ == self.extension_text(),
    {
        match self {
            ExportFormat::Png => "png",
            ExportFormat::Svg => "svg",
            ExportFormat::Jpeg => "jpg",
            ExportFormat::Ascii => "txt",
            ExportFormat::Unicode => "txt",
        }
    }

    /// The format's descriptive label.
    pub open spec fn label_text(self) -> Seq<char> {
        match self {
            ExportFormat::Png => "PNG Image"@,
            ExportFormat::Svg => "SVG Vector"@,
            ExportFormat::Jpeg => "JPEG Image"@,
            ExportFormat::Ascii => "ASCII Text"@,
            ExportFormat::Unicode => "Unicode Text"@,
        }
    }

    /// The format's descriptive label.
    pub fn label(&self) -> (r: &'static str)
        ensures
            r@ == self.label_text(),
    {
        match self {
            ExportFormat::Png => "PNG Image",
            ExportFormat::Svg => "SVG Vector",
            ExportFormat::Jpeg => "JPEG Image",
            ExportFormat::Ascii => "ASCII Text",
            ExportFormat::Unicode => "Unicode Text",
        }
    }

    /// The format the wizard's format key moves to: the cycle through all
    /// five formats.
    pub open spec fn spec_next(self) -> ExportFormat {
        match self {
            ExportFormat::Png => ExportFormat::Svg,
            ExportFormat::Svg => ExportFormat::Jpeg,
            ExportFormat::Jpeg => ExportFormat::Ascii,
            ExportFormat::Ascii => ExportFormat::Unicode,
            ExportFormat::Unicode => ExportFormat::Png,
        }
    }

    /// The format the wizard's format key moves to.
    pub fn next(&self) -> (r: ExportFormat)
        ensures
            r == self.spec_next(),
    {
        match self {
            ExportFormat::Png => ExportFormat::Svg,
            ExportFormat::Svg => ExportFormat::Jpeg,
            ExportFormat::Jpeg => ExportFormat::Ascii,
            ExportFormat::Ascii => ExportFormat::Unicode,
            ExportFormat::Unicode => ExportFormat::Png,
        }
    }

    /// The preferred format the settings screen moves to: PNG, SVG, JPEG in
    /// turn; a text format goes back to PNG.
    pub open spec fn spec_next_preferred(self) -> ExportFormat {
        match self {
            ExportFormat::Png => ExportFormat::Svg,
            ExportFormat::Svg => ExportFormat::Jpeg,
            ExportFormat::Jpeg => ExportFormat::Png,
            _ => ExportFormat::Png,
        }
    }

    /// The preferred format the settings screen moves to.
    pub fn next_preferred(&self) -> (r: ExportFormat)
        ensures
            r == self.spec_next_preferred(),
    {
        match self {
            ExportFormat::Png => ExportFormat::Svg,
            ExportFormat::Svg => ExportFormat::Jpeg,
            ExportFormat::Jpeg => ExportFormat::Png,
            _ => ExportFormat::Png,
        }
    }
}

/// What a QR code points at.
#[derive(Debug, Clone)]
pub enum TargetType {
    Url(String),
    Photo { file_path: String, filename: String },
}

impl TargetType {
    /// An identical copy.
    pub fn duplicate(&self) -> (r: TargetType)
        ensures
            r == *self,
    {
        match self {
            TargetType::Url(u) => TargetType::Url(u.clone()),
            TargetType::Photo { file_path, filename } => TargetType::Photo {
                file_path: file_path.clone(),
                filename: filename.clone(),
            },
        }
    }
}

/// A copy of an optional string.
pub fn copy_opt(s: &Option<String>) -> (r: Option<String>)
    ensures
        r == *s,
{
    match s {
        Some(x) => Some(x.clone()),
        None => None,
    }
}

/// A generated QR code. Instants are milliseconds since the Unix epoch.
#[derive(Debug, Clone)]
pub struct QrItem {
    pub id: String,
    pub original_url: String,
    pub target_type: TargetType,
    pub short_code: String,
    pub dynamic_url: Option<String>,
    pub expiration_time: Option<i64>,
    pub created_at: i64,
    pub is_favorite: bool,
    pub last_saved_path: Option<String>,
    pub ecc_level: EccLevel,
    pub export_format: ExportFormat,
    pub title: Option<String>,
}

/// The hyphenated layout of a UUID: 36 characters, `-` at positions 8, 13,
/// 18 and 23, lower-case hexadecimal digits elsewhere.
pub open spec fn uuid_layout(s: Seq<char>) -> bool {
    &&& s.len() == 36
    &&& forall|i: int|
        0 <= i < 36 ==> if i == 8 || i == 13 || i == 18 || i == 23 {
            #[trigger] s[i] == '-'
        } else {
            ('0' <= s[i] && s[i] <= '9') || ('a' <= s[i] && s[i] <= 'f')
        }
}

/// `uuid::Uuid::new_v4().to_string()`: a random identifier. Being random it
/// is tied to nothing; what is claimed is its hyphenated form, as uuid's
/// `Display` writes it: 36 ASCII characters in the 8-4-4-4-12 layout of
/// lower-case hexadecimal digits.
#[verifier::external_body]
pub(crate) fn new_uuid() -> (r: String)
    ensures
        r@.len() == 36,
        forall|i: int| 0 <= i < 36 ==> (#[trigger] r@[i] as u32) < 128,
        uuid_layout(r@),
{
    uuid::Uuid::new_v4().to_string()
}

impl QrItem {
    /// An item with the given identity and creation time, not a favorite,
    /// never saved and without a title.
    pub fn with_identity(
        id: String,
        created_at: i64,
        original_url: String,
        target_type: TargetType,
        short_code: String,
        dynamic_url: Option<String>,
        expiration_time: Option<i64>,
        ecc_level: EccLevel,
        export_format: ExportFormat,
    ) -> (r: QrItem)
        ensures
            r == (QrItem {
                id,
                original_url,
                target_type,
                short_code,
                dynamic_url,
                expiration_time,
                created_at,
                is_favorite: false,
                last_saved_path: None,
                ecc_level,
                export_format,
                title: None,
            }),
    {
        QrItem {
            id,
            original_url,
            target_type,
            short_code,
            dynamic_url,
            expiration_time,
            created_at,
            is_favorite: false,
            last_saved_path: None,
            ecc_level,
            export_format,
            title: None,
        }
    }

    /// A new item with a fresh random identifier (a UUID in its hyphenated
    /// layout, see `uuid_layout`),
    /// created now: at the clock's reading, some instant of the calendar from
    /// the epoch on.
    pub fn new(
        original_url: String,
        target_type: TargetType,
        short_code: String,
        dynamic_url: Option<String>,
        expiration_time: Option<i64>,
        ecc_level: EccLevel,
        export_format: ExportFormat,
    ) -> (r: QrItem)
        ensures
            r.id@.len() == 36,
            forall|i: int| 0 <= i < 36 ==> (#[trigger] r.id@[i] as u32) < 128,
            uuid_layout(r.id@),
            0 <= r.created_at <= MAX_UTC_MILLIS,
            r == (QrItem {
                id: r.id,
                original_url,
                target_type,
                short_code,
                dynamic_url,
                expiration_time,
                created_at: r.created_at,
                is_favorite: false,
                last_saved_path: None,
                ecc_level,
                export_format,
                title: None,
            }),
    {
        let id = new_uuid();
        let created_at = now_millis();
        Self::with_identity(
            id,
            created_at,
            original_url,
            target_type,
            short_code,
            dynamic_url,
            expiration_time,
            ecc_level,
            export_format,
        )
    }

    /// An identical copy.
    pub fn duplicate(&self) -> (r: QrItem)
        ensures
            r == *self,
    {
        QrItem {
            id: self.id.clone(),
            original_url: self.original_url.clone(),
            target_type: self.target_type.duplicate(),
            short_code: self.short_code.clone(),
            dynamic_url: copy_opt(&self.dynamic_url),
            expiration_time: self.expiration_time,
            created_at: self.created_at,
            is_favorite: self.is_favorite,
            last_saved_path: copy_opt(&self.last_saved_path),
            ecc_level: self.ecc_level,
            export_format: self.export_format,
            title: copy_opt(&self.title),
        }
    }

    /// The URL the QR code encodes: the dynamic redirect link if there is
    /// one, the original URL otherwise.
    pub open spec fn encoded_text(self) -> Seq<char> {
        match self.dynamic_url {
            Some(d) => d@,
            None => self.original_url@,
        }
    }

    /// The URL the QR code encodes.
    pub fn encoded_url(&self) -> (r: &str)
        ensures
            r@ == self.encoded_text(),
    {
        match &self.dynamic_url {
            Some(d) => d.as_str(),
            None => self.original_url.as_str(),
        }
    }

    /// Whether the item has expired at `now`.
    pub fn is_expired_at(&self, now: i64) -> (r: bool)
        ensures
            r == expired_at(self.expiration_time, now as int),
    {
        ExpirationOption::is_expired_at(self.expiration_time, now)
    }

    /// Whether the item has expired by the machine's clock: whether its
    /// expiration instant has passed at the clock's reading, some instant of
    /// the calendar from the epoch on. An item without expiration never has.
    pub fn is_expired(&self) -> (r: bool)
        ensures
            exists|now: int|
                0 <= now <= MAX_UTC_MILLIS && #[trigger] expired_at(self.expiration_time, now) == r,
    {
        ExpirationOption::is_expired(self.expiration_time)
    }

    /// The remaining time of the item at `now`, in words.
    pub fn remaining_time_at(&self, now: i64) -> (r: String)
        ensures
            r@ == remaining_text(self.expiration_time, now as int),
    {
        ExpirationOption::format_remaining_at(self.expiration_time, now)
    }

    /// The remaining time of the item by the machine's clock, in words.
    pub fn remaining_time_str(&self) -> (r: String)
        ensures
            exists|now: int| 0 <= now <= MAX_UTC_MILLIS && r@ == #[trigger] remaining_text(self.expiration_time, now),
    {
        ExpirationOption::format_remaining(self.expiration_time)
    }
}

/// The E key walks the four error-correction levels in a cycle: four steps
/// come back, and no step stays put.
pub proof fn law_ecc_cycle(e: EccLevel)
    ensures
        e.spec_next().spec_next().spec_next().spec_next() == e,
        e.spec_next() != e,
{
}

/// The F key walks the five export formats in a cycle; the settings' format
/// row walks PNG, SVG and JPEG and brings a text format back to PNG.
pub proof fn law_format_cycle(f: ExportFormat)
    ensures
        f.spec_next().spec_next().spec_next().spec_next().spec_next() == f,
        f.spec_next() != f,
        (f == ExportFormat::Png || f == ExportFormat::Svg || f == ExportFormat::Jpeg)
            ==> f.spec_next_preferred().spec_next_preferred().spec_next_preferred() == f,
        f.spec_next_preferred() == ExportFormat::Png || f.spec_next_preferred() == ExportFormat::Svg
            || f.spec_next_preferred() == ExportFormat::Jpeg,
{
}

} // verus!
