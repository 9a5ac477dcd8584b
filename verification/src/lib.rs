//! Bridge between pattern-based lint plugins and a host's diagnostic pipeline.
//!
//! A plugin is a compiled pattern query. The host compiles the plugin's
//! source, runs it against a parsed file and hands what the pattern engine
//! produced to this crate, which decides what the host reports: one
//! diagnostic per engine log, followed by the diagnostics that the plugin
//! registered through the `register_diagnostic` builtin, or a single error
//! diagnostic when the run failed.

pub mod analyzer_grit_plugin;
pub mod diagnostic;
pub mod engine;
pub mod registrar;

pub use analyzer_grit_plugin::AnalyzerGritPlugin;
pub use registrar::register_diagnostic;
