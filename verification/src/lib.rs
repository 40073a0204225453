//! Core of a single-directory file organizer.
//!
//! Files in one directory are routed into subdirectories named after their
//! lowercased extensions; extensionless files go to a configurable catch-all
//! directory; hidden files and subdirectories can be skipped. This crate
//! holds the decision logic (classification, destination resolution, log-line
//! rendering) and the laws it obeys; the caller performs the filesystem
//! operations that the computed plan calls for.

use vstd::prelude::*;

pub mod classify;
pub mod clock;
pub mod errors;
pub mod laws;
pub mod logline;
pub mod plan;
pub mod text;

verus! {

/// Settings for one organizing run.
#[derive(Debug, Clone)]
pub struct Config {
    /// If true, files are copied; otherwise they are moved.
    pub copy: bool,
    /// If true, hidden files (names starting with `.`) are organized too.
    pub include_hidden: bool,
    /// Name of the subdirectory that receives files without an extension.
    pub others_directory: String,
    /// Path of the log file that receives one line per operation.
    pub log_file: String,
}

/// The mathematical form of a [`Config`].
pub struct ConfigModel {
    pub copy: bool,
    pub include_hidden: bool,
    pub others_directory: Seq<char>,
    pub log_file: Seq<char>,
}

impl View for Config {
    type V = ConfigModel;

    open spec fn view(&self) -> ConfigModel {
        ConfigModel {
            copy: self.copy,
            include_hidden: self.include_hidden,
            others_directory: self.others_directory@,
            log_file: self.log_file@,
        }
    }
}

} // verus!
