//! Resolves snap package identifiers into package names.
//!
//! The library holds the verified logic: building the assertion service
//! address, extracting the package name from a declaration document, the
//! per-user cache handle, and the line that is shown to the user.
pub mod address;
pub mod cache;
pub mod document;
pub mod report;
