//! QR code generation, rendering and batch processing.
pub mod batch;
pub mod qr;

pub use batch::{BatchGenerator, BatchResult};
pub use qr::{QrGenerator, QrMatrix};
