//! Event routing and command dispatch for a chat bot that serves many guilds.
//!
//! A single supervisor owns the table of live guild actors and decides, for
//! every event the gateway hands it, whether the event registers an actor,
//! retires one, is forwarded to one, or is dropped. Each guild actor hands its
//! requests to a fixed registry of commands. Everything here is a decision on
//! plain values; the surrounding program performs the waiting and the sending.

pub mod discord_bot;
pub mod healthcheck;
pub mod state;
