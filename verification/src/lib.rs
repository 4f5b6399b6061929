//! A minimal static-site generator with a live development loop.
//!
//! The library holds the verified logic of the tool: line-oriented
//! markdown-to-HTML rendering, template placeholder substitution, HTTP
//! request resolution and response assembly, the content-watcher decision
//! rule, the reload-notification state, and the orchestrator state machine
//! that serializes rebuild cycles. All I/O (filesystem, sockets, threads)
//! lives outside the library and hands it plain values.

pub mod builder;
pub mod http;
pub mod orchestrate;
pub mod reload;
pub mod render;
pub mod text;
pub mod watch;
