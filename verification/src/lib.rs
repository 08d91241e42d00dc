//! A verified MCP (Model Context Protocol) request/response engine.
//!
//! The crate parses JSON-RPC 2.0 envelopes, dispatches by method name,
//! translates tool invocations into outbound knowledge-base API calls,
//! and produces the exact response bytes for a line-oriented transport
//! and a minimal HTTP framing.

pub mod cli;
pub mod codec;
pub mod config;
pub mod error;
pub mod envelope;
pub mod http;
pub mod json;
pub mod mcp;
pub mod outline;
pub mod text;
pub mod tools;
pub use cli::{server_name, server_version, CliCommand};
pub use config::{ApiKey, Config, LogLevel, Port};
pub use error::Error;
