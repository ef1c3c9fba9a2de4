//! File and folder queries behind a markdown editor's desktop shell.
//!
//! Everything here computes on plain values: the shell reads the disk, the
//! clock and the environment, and hands what it found to these functions.
pub mod entry;
pub mod errors;
pub mod file_browser;
pub mod info;
pub mod listing;
pub mod menu;
pub mod new_file;
pub mod paths;
pub mod settings;
