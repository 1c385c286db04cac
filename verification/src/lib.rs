//! Configuration resolution for a kiosk launcher.
//!
//! The library turns a layered set of configuration sources into a single,
//! always-valid start URL: it picks the configuration file among ordered
//! candidate locations, parses the file tolerantly, applies defaults, and
//! validates the resulting URL, falling back to a compiled-in default or an
//! inert placeholder on any failure. All filesystem and display work is left
//! to the caller, which hands in plain values and takes plain values back.

pub mod config;
pub mod loader;
pub mod paths;
pub mod urlcheck;
pub mod yaml;
