//! The core of Prompt Forge: a JSON-RPC 2.0 server over lines of text that
//! offers agents, skills and instructions as tools and resources, and the
//! composition of an agent's prompt from them.
//!
//! The library decides and computes; it neither reads nor writes. A caller
//! feeds it input lines one by one with [`snapshot::McpServer::handle_line`],
//! writes the answer if there is one, and loads a new snapshot when asked
//! to.
//!
//! Every function is verified against its contract. The contracts speak of
//! views: texts as sequences of characters, records as plain mathematical
//! records, JSON values as trees. What is taken on trust are the small
//! functions that call `serde_json`, `uuid`, `chrono` and two functions of
//! `std`; they are in [`json`], [`fresh`] and [`text`].

pub mod commands;
pub mod compose;
pub mod defaults;
pub mod encoding;
pub mod fresh;
pub mod instructions;
pub mod json;
pub mod lookup;
pub mod models;
pub mod protocol;
pub mod server;
pub mod snapshot;
pub mod text;
pub mod tools;
