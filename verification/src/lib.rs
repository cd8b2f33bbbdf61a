//! Request-ingestion core for a media-composition front door.
//!
//! A client submits a delimiter-encoded composite identifier in the URL path
//! and two image files in a multipart body. This library holds the verified
//! core of that front door: parsing the identifier into its three fields,
//! validating the received parts against a per-part size ceiling, and
//! assembling the generation job that is handed to the (external) pipeline.
//! The HTTP and multipart transport lives outside the library and hands in
//! plain values.

pub mod coordinator;
pub mod error;
pub mod identifier;
pub mod upload;
