//! The history of generated QR codes.
pub mod history;

pub use history::HistoryStore;
