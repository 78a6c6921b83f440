//! Helpers around the router: defaults read from a project manifest, the
//! command that opens a browser, and path spelling.

pub mod browser;
pub mod json;
pub mod package_json;
pub mod paths;
