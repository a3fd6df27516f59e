//! Verified core of a browser-backed MCP server that fetches web pages as Markdown.

pub mod browser;
pub mod error;
pub mod mcp;
pub mod text;
pub mod tools;
