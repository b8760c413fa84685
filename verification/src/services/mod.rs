//! The dynamic redirect service: short-code resolution and server answers.
pub mod pages;
pub mod redirect_provider;
pub mod redirect_server;

pub use redirect_provider::{LocalRedirectProvider, RedirectProvider, RedirectResolution};
pub use redirect_server::{guess_mime, ServerReply};
