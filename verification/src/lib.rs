//! A bridge between an editor and a coding assistant.
//!
//! The assistant finds a running server by its lock file, connects over a
//! WebSocket with the secret that the lock file names, and drives the editor
//! through JSON-RPC tool calls. The editor talks to the same server over its
//! own protocol, and what it selects and mentions is passed on to the
//! assistant as notifications.
//!
//! This library holds the rules of that server, each with its contract:
//!
//! - [`json`]: JSON documents; reading and writing them is left to
//!   `serde_json`.
//! - [`text`], [`position`], [`selection`]: strings, UTF-16 positions and the
//!   text that a range selects.
//! - [`tools`]: the tools and their registry.
//! - [`websocket`], [`handshake`], [`upgrade`], [`connections`], [`lockfile`]:
//!   the WebSocket endpoint, from the handshake to the keepalive.
//! - [`lsp`]: the editor endpoint.
//! - [`mcp`], [`messages`]: the tool protocol as a plain request handler, and
//!   the protocol of typed messages.
//! - [`supervisor`]: what a server process runs and when it ends.
//! - [`extension`]: what the editor's extension decides when it launches the
//!   server.
//!
//! Sockets, files, clocks and signals are the caller's business: the library
//! takes what was read and says what to write.
pub mod connections;
pub mod extension;
pub mod handshake;
pub mod json;
pub mod lockfile;
pub mod lsp;
pub mod mcp;
pub mod messages;
pub mod position;
pub mod selection;
pub mod supervisor;
pub mod text;
pub mod tools;
pub mod upgrade;
pub mod websocket;
