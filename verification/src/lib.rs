//! Resolution and validation of a popup window configuration.
//!
//! The library reconciles three sources of settings — built-in defaults, a
//! YAML document, and command-line values — into one validated [`config::Config`]:
//! the content to show (a URL-backed view or a notification) together with a
//! fully populated window description.

pub mod config;
pub mod errors;
pub mod laws;
pub mod paths;
pub mod strutil;
pub mod window;
pub mod yaml;
