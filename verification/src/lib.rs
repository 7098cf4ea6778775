//! Request routing and handler dispatch for an HTTP server: method filters,
//! path patterns, typed extraction and a fallback chain of routes.

pub mod extract;
pub mod handler;
pub mod http_types;
pub mod response;
pub mod router;
pub mod service;
