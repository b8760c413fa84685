//! The data model: expiration periods, QR items and themes.
pub mod expiration;
pub mod qr_item;
pub mod theme;

pub use expiration::{ExpirationOption, TimeUnit};
pub use qr_item::{EccLevel, ExportFormat, QrItem, TargetType};
pub use theme::AppTheme;
