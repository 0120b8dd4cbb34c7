//! Analyzes why a build tool decided to recompile units of a project.
//!
//! The crate parses the diagnostic log lines that cargo emits when run with
//! fingerprint logging enabled, turns each recognized line into a structured
//! rebuild reason, and correlates the reasons into root causes and the
//! rebuild cascades they triggered.

pub mod config;
pub mod explain;
pub mod graph;
pub mod parser;
pub mod reason;
pub mod report;
pub mod text;

pub use config::Config;
pub use graph::PackageTarget;
pub use graph::RebuildGraph;
pub use graph::RebuildNode;
pub use graph::RootCauseChain;
pub use parser::parse_rebuild_entry;
pub use parser::parse_rebuild_reason;
pub use parser::ParsedRebuildEntry;
pub use reason::DependencyChangeContext;
pub use reason::RebuildReason;
