//! Settings and the machine's LAN address.
pub mod lan;
pub mod settings;

pub use settings::AppConfig;
