//! A library for renaming image files after the capture timestamp embedded in
//! their metadata.
//!
//! The pipeline it supports: filter a path for a recognized image extension
//! ([`filter`]), read the capture-time field out of the file's metadata
//! container ([`metadata`]), turn that timestamp into a sortable filename stem
//! ([`format`]), and compute the renamed path in the same parent directory
//! ([`paths`], [`process`]). Directory traversal and the actual filesystem
//! rename are left to the caller; this crate works on plain strings and bytes.

pub mod chars;
pub mod errors;
pub mod filter;
pub mod format;
pub mod metadata;
pub mod process;
pub mod paths;
