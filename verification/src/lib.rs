//! Verified core of a Matrix messaging bot and its MCP relays.

pub mod generate;
pub mod matrix;
pub mod matrix_relay;
pub mod mcp;
pub mod mcp_server;
pub mod relay;
pub mod sampling;
pub mod text;
