//! The core of a server between MCP clients and a plugin in Roblox Studio.
//!
//! Clients call tools; the server queues each call as a command, the plugin fetches the commands
//! and reports on them, and every report goes to the client that waits for it.

use vstd::prelude::*;

pub mod about;
pub mod base64_text;
pub mod channels;
pub mod dud_proxy;
pub mod handlers;
pub mod ids;
pub mod imaging;
pub mod laws;
pub mod mcp;
pub mod scaling;
pub mod screenshot;
pub mod screenshot_laws;
pub mod state;
pub mod tool_run;
pub mod tools;

verus! {

/// The port on which the Studio plugin reaches the server.
pub const STUDIO_PLUGIN_PORT: u16 = 44755;

} // verus!
