//! The bot itself: the guild supervisor, the per-guild actors and the commands.

pub mod commands;
pub mod guilds;
pub mod handler;
pub mod history;
pub mod manager;
pub mod model;
pub mod utils;
