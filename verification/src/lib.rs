//! Core logic of a dynamic API gateway data plane: a hot-swappable
//! configuration snapshot store, prefix-based route matching, a
//! plugin-chain driver with allow/deny/error verdicts, upstream endpoint
//! selection, the host capability surface offered to sandboxed plugins,
//! and the key discipline of the kernel socket-redirect fast path.
//!
//! All request-level decisions are made by verified functions in this
//! crate; the surrounding process (listeners, transport, the plugin
//! sandbox, the kernel program loader) drives them from outside.

pub mod bootstrap;
pub mod config;
pub mod engine;
pub mod headers;
pub mod plugins;
pub mod resources;
pub mod sockmap;
pub mod store;
pub mod text;
pub mod vm;
