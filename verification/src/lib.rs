//! Context scanning and module activation for a shell prompt.
//!
//! A render works on a [`context::Context`]: a snapshot of the target
//! directory, the process environment, the configuration tree and the results
//! of the external probes. Every module is a function of that snapshot and
//! either declines or yields an ordered list of styled text segments.

pub mod command;
pub mod config;
pub mod configs;
pub mod context;
pub mod module;
pub mod modules;
pub mod prompt;
pub mod segment;
pub mod text;
