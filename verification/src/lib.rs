//! Dual-mode web serving: route a request path either to a frontend development
//! server or to pre-built static assets.
//!
//! The crate holds the decisions: which route serves a path, what a probe of
//! a development server means, which processes are tracked, what the proxy
//! answers and which file is served. Everything that touches the network,
//! the file system or a process is done by the caller, who reports what
//! happened and is told what to do next.

pub mod error;
pub mod routing;
pub mod services;
pub mod text;
pub mod timing;
pub mod utils;

pub use crate::error::HeisenbergError;
pub use crate::routing::config::Heisenberg;
pub use crate::routing::config::SpaRouteBuilder;
