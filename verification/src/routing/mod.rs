//! Routing core: operating mode, route configuration and the pattern router.

pub mod config;
pub mod mode;
pub mod router;
pub mod specificity;
