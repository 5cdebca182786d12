//! Layered, defaulted, strongly-typed runtime configuration for a
//! metrics-forwarding agent: hard-coded defaults, multi-file merge with
//! append-versus-overwrite semantics, per-field type coercion with
//! descriptive error context, and compilation of user-supplied patterns
//! into executable filters.
pub mod config;
pub mod error;
pub mod extract;
pub mod laws;
pub mod level;
pub mod loader;
pub mod merge;
pub mod msg;
pub mod node;
pub mod pattern;
pub mod yaml;

pub use crate::config::{default_config, Config, Parameters, Sink, Source, SourceFormat};
pub use crate::error::ConfigError;
pub use crate::level::LogLevel;
pub use crate::loader::{load_layers, load_str};
pub use crate::node::Node;
pub use crate::pattern::{compile_metric_filters, compile_selector, CompiledPattern, MetricFilter};
