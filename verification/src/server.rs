//! The MCP server's own decisions: which tool a call runs, how failures read, which
//! resources exist, and how a stdio session answers each message.
pub mod capabilities;
pub mod handlers;
pub mod http;
pub mod resources;
pub mod session;
pub mod tools;
