//! The services behind a route: health probes, the process registry, the
//! proxy and the static assets.

pub mod health;
pub mod process;
pub mod proxy;
pub mod static_files;
