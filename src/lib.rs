//! Reader for the page-oriented container format of Jet desktop databases.
//!
//! A file is a run of fixed-size pages. The first byte of each page selects
//! its kind; the first page must describe the database itself and carries the
//! secret from which the obfuscated counter is recovered.

pub mod bytes;
pub mod page;
pub mod records;
pub mod database;
pub mod obfuscation;
