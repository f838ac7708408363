//! Wraps a package's build helper in a small program that carries the helper's bytes, unpacks
//! them at run time and runs them through a configurable command.
//!
//! The crate holds the decisions of that scheme: how a command's result is judged, how the
//! wrapping program's sources are put together, how the command that runs the unpacked helper
//! is formed, which linker invocations link a build helper, and how the allow / ignore
//! configuration is read. Running commands and touching the file system is left to callers, which
//! hand the results back as plain values.

pub mod model;
pub mod text;
pub mod config;
pub mod shim;
pub mod exec;
pub mod command;
pub mod wrapper;
pub mod link;

