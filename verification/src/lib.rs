//! A small directory and file listing library.
//!
//! A [`Config`] is built from raw command-line arguments; the listing
//! functions turn filesystem facts, handed in as plain values, into the
//! exact text to print, including fixed-width long-mode rows.

pub mod config;
pub mod listing;
pub mod num;
pub mod perms;

pub use config::Config;
pub use listing::{list_files, list_path, print_long_listing, run};
pub use perms::format_permissions;
