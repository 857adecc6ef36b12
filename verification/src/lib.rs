//! Verified core of a companion bot for Rust game servers: configuration
//! bookkeeping, chat command handling, event and grid labelling, and the
//! text the bot sends back.

pub mod text;
pub mod number;
pub mod config;
pub mod markers;
pub mod grid;
pub mod server_state;
pub mod session;
pub mod discord;
