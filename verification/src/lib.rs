//! Diagnostics engine of a language server: the diagnostic model, the three
//! diagnostic sources, the per-source stores and the publisher that merges
//! them, all stated over plain values and verified.

pub mod text;
pub mod specifier;
pub mod model;
pub mod table;
pub mod tsc;
pub mod stores;
pub mod cancellation;
pub mod publisher;
pub mod publisher_laws;
pub mod deno_diagnostic;
pub mod code_action;
pub mod npm;
pub mod import_maps;
pub mod snapshot;
pub mod analyzer;
pub mod lint;
pub mod ts;
pub mod server;
pub mod scheduler;
