//! Routing rules of a write-behind cache that mirrors trading state to a
//! Redis-compatible store, and the normalisation of market-data messages.

pub mod error;
pub mod text;
pub mod config;
pub mod identifiers;
pub mod keys;
pub mod store;
pub mod command;
pub mod dispatch;
pub mod worker;
pub mod model;
pub mod message;
pub mod parse;
pub mod database;
pub mod loader;
pub mod adapter;
pub mod encoding;
