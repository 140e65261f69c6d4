//! A minimal edge server library: canonical-domain redirect policy, favicon
//! selection by query parameter, a fixed route dispatcher over immutable
//! resources, and loading of TLS server credentials.
//!
//! All request and response text is handled as plain bytes, so that every
//! decision the server makes is a verified function from bytes to bytes.

pub mod bytes;
pub mod dispatch;
pub mod favicon;
pub mod handler;
pub mod lit;
pub mod redirect;
pub mod tls;
