//! A command-driven chat bot core: a closed set of user commands, one
//! fetch-and-format routine per external data source, and a dispatcher that
//! turns every command into exactly one reply string.
//!
//! Network and transport plumbing live outside this crate; the library holds
//! the decisions: which request a command calls for, how a response envelope
//! is projected into a reply, and how failures collapse into the fixed
//! fallback link.

pub mod commands;
pub mod config;
pub mod dispatch;
pub mod envelopes;
pub mod errors;
pub mod fetchers;

pub use commands::Command;
pub use errors::FetchError;
