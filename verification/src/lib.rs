//! A bridge between one stdio JSON-RPC caller speaking the Model Context
//! Protocol and plugin sessions that poll over HTTP.
//!
//! The crate holds the decisions of the bridge: the shared state with its
//! client registry, outbound queues, pending-reply table and log ring; the
//! routing of tool requests; the dispatch of JSON-RPC methods; and the
//! handling of each HTTP route. Waiting, sockets and standard streams are
//! left to the program that embeds it.

pub mod text;
pub mod json;
pub mod types;
pub mod outside;
pub mod model;
pub mod state;
pub mod mcp_stdio;
pub mod config;
pub mod bridge_http;
pub mod captures;
pub mod laws;
