//! A namespaced store for JSON resources, addressed by reverse-DNS identifiers
//! such as `com.example.App` rather than by raw filesystem paths.
//!
//! A bucket's directory is the data root, then `bucket`, then the namespace
//! with each `.` turned into a separator. The library derives every location,
//! decides what each filesystem outcome means, classifies directory entries and
//! checks resource bytes as JSON; the filesystem calls themselves are left to
//! the caller.

pub mod bucket;
pub mod document;
pub mod listing;
pub mod location;
mod platform;

pub use bucket::{Bucket, BucketError, DirCreation};
pub use document::{decode_document, decode_resource};
pub use listing::{BucketChild, EntryInfo};
