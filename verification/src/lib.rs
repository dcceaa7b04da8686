//! Session and state coordination for a companion to a locally running game
//! client.
//!
//! The crate holds the decisions: how the connection state follows the
//! gateway's lifecycle events, which participants belong to a lobby, when the
//! dodge watch arms and disarms, and how an answer of the statistics service
//! is read. Every transition is a function from plain values to plain values;
//! the caller performs the requests that a transition asks for and hands the
//! outcome back.

pub mod config;
pub mod connection;
pub mod dodge;
pub mod error;
pub mod gateway;
pub mod lobby;
pub mod region;
pub mod session;
pub mod stats_api;
