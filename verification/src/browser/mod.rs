//! Browser configuration and the decisions of a browser session.

pub mod active_tab;
pub mod config;
pub mod devtools;
pub mod session;
pub mod waits;
