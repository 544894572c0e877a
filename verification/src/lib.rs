//! A development server core: serves a frontend's static assets and simulates
//! its backend API from JSON fixture files on disk, with an optional fixed
//! response delay for API requests.
//!
//! This crate holds the request-dispatch and path-resolution logic: deciding
//! whether a request belongs to the API namespace or the static namespace,
//! resolving it to a file path under the right root, applying route
//! precedence, planning the delay, and turning what was read from disk into
//! the terminal response outcome. The serving layer around it (socket
//! handling, filesystem reads, console logging) hands this crate plain values
//! and transmits what it decides.

pub mod assets;
pub mod dispatch;
pub mod fixture;
pub mod laws;
pub mod mime;
pub mod outcome;
pub mod paths;
pub mod request;
