//! URL validation and file-name helpers.
pub mod file_ops;
pub mod url_validator;

pub use file_ops::FileOps;
pub use url_validator::UrlValidator;
