//! Configuration resolution and startup sequencing for the panel backend,
//! and the verdict of its WebAssembly feature probe.
//!
//! The library decides; the program around it reads files, opens the
//! database, binds the listener, serves requests and runs the probe.

pub mod bootstrap;
pub mod config;
pub mod probe;
pub mod toml_doc;
