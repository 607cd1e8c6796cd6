//! The logic of the Mana development tools: resolving a project's
//! configuration, driving the watcher that builds its sources, indexing the
//! built repository, the development server's request and client logs, and
//! benchmark statistics for the V8 script runtime.

pub mod bench;
pub mod config;
pub mod json;
pub mod paths;
pub mod project;
pub mod report;
pub mod runtime;
pub mod server;
pub mod text;
pub mod watcher;
