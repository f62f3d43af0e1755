//! A verified write path for an HTTP object-storage backend.
//!
//! The crate models the two write protocols such a service offers —
//! chunked multipart upload and append-at-offset — as verified state
//! machines (`multipart`, `append`), selected once at construction
//! (`writer::ObsWriters`).  The backend adapter (`writer::ObsWriter`)
//! translates each protocol step into a request description and
//! interprets the response's status, headers and body exactly as the
//! service documents them.

pub mod append;
pub mod digits;
pub mod error;
pub mod http;
pub mod multipart;
pub mod oio;
pub mod options;
pub mod writer;
pub mod xml;
