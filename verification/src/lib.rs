//! Dynamic, expiring QR codes: the verified core of the `qru` terminal utility.
pub mod cli;
pub mod clock;
pub mod config;
pub mod generator;
pub mod models;
pub mod services;
pub mod storage;
pub mod text;
pub mod ui;
pub mod utils;
