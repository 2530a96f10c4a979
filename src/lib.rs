//! Server-side engine of an online rock-paper-scissors platform: rating
//! arithmetic, the per-match session state machine, the matchmaking queue,
//! the filler opponent, the per-connection protocol decisions and the wire
//! encoding of server messages.
pub mod accounts;
pub mod auth;
pub mod config;
pub mod connection;
pub mod errors;
pub mod filler;
pub mod matchmaking;
pub mod models;
pub mod protocol;
pub mod rating;
pub mod session;
pub mod wire;
