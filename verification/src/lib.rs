//! Verified configuration, policy and protocol logic of a Terraform MCP server.
pub mod text;
pub mod errors;
pub mod deployment;
pub mod tool_filter;
pub mod transport;
pub mod types;
pub mod json;
pub mod descriptions;
pub mod metrics;
pub mod registry;
pub mod server;
