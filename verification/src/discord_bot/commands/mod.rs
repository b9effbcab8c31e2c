//! The commands of the bot and the protocol by which a request finds its
//! command.

pub mod command;
pub mod hiding;
pub mod ping;
pub mod say;
pub mod schema;
pub mod time;
pub mod util;
