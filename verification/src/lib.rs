//! Application bootstrap library.
//!
//! The crate models the startup shell of a desktop or mobile application:
//! a `Builder` accumulates an ordered list of plugin descriptors and an
//! optional setup callback into an immutable application configuration,
//! and the runner turns that configuration into a running application or
//! a fatal startup error, recording every lifecycle step it takes.

pub mod bootstrap;
pub mod error;
pub mod laws;
pub mod logging;
pub mod plugin;
