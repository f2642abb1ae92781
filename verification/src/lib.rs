//! Routing and response policy for a single-page-application file server.
//!
//! The server's behaviour is a pure function of the request path and of the
//! two filesystem reads it may perform (an asset file, the entry document).
//! This crate states and verifies that function; the I/O and the HTTP stack
//! live outside it.

pub mod mime;
pub mod policy;
pub mod response;
pub mod routes;
