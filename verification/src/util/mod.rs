//! Helpers every view shares.

pub mod clipboard;
pub mod format;
pub mod fuzzy;
pub mod laws;
