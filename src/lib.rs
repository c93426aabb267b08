//! Typed wrappers around host-provided bindings and HTTP request handles.
//!
//! The host objects are modelled by plain values (`host`), the bindings are
//! resolved and checked by name (`env`), a request's body may be read once
//! (`request`), and URL query pairs can be looked up by key (`url_ext`).
pub mod env;
pub mod error;
pub mod host;
pub mod laws;
pub mod request;
pub mod url_ext;
