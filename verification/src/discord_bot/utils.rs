//! Small values shared between the gateway handler and the guild actors.

use vstd::prelude::*;

verus! {

/// The user id under which the bot itself is known to the platform.
pub struct BotDiscordId(u64);

impl BotDiscordId {
    /// The id as a plain number.
    pub closed spec fn value(&self) -> u64 {
        self.0
    }

    /// Wraps the id the platform reported for the bot.
    pub fn new(value: u64) -> (id: Self)
        ensures
            id.value() == value,
    {
        Self(value)
    }

    /// The id of the bot.
    pub fn get(&self) -> (value: u64)
        ensures
            value == self.value(),
    {
        self.0
    }
}

} // verus!
