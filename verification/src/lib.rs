//! Core logic of a small desktop web-view shell: validating download and
//! window-open requests, planning their side effects, resolving per-instance
//! storage directories, and deriving save-dialog file names.

pub mod bridge;
pub mod download;
pub mod instance;
pub mod text;
pub mod urlinfo;
pub mod window;
