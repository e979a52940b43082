//! Core data-access layer of an IM desktop client: an authenticated HTTP
//! request client with a bounded token-refresh-and-retry protocol, and a
//! media cache manager that resolves `mxc://` content locators to local
//! files, downloads on miss under size limits, and aggregates cache
//! statistics.
//!
//! All network and filesystem I/O is performed by the surrounding shell;
//! this crate holds the verified decision logic, data types and string
//! computations, plus a few thin trusted wrappers around pure calls into
//! outside crates (base64 encoding, MIME lookup).

pub mod client;
pub mod config;
pub mod error;
pub mod logfmt;
pub mod media;
pub mod strutil;
pub mod urls;
