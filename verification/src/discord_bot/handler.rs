//! What the bot does about each report of the gateway before the supervisor
//! sees it: which event, if any, goes into the supervisor's mailbox.

use vstd::prelude::*;
use crate::discord_bot::guilds::GuildHandler;
use crate::discord_bot::manager::DiscordEvent;
use crate::discord_bot::model::{Interaction, Message};
use crate::discord_bot::utils::BotDiscordId;

verus! {

/// Something the handler needs that the bot provides once it is set up.
#[derive(Debug, Clone, Copy, PartialEq, Eq, Structural)]
pub enum Provision {
    /// The sending side of the supervisor's mailbox.
    InternalSender,
    /// The bot's own user id.
    BotDiscordId,
    /// The state of the process.
    AppState,
}

/// What the bot has provided so far.
#[derive(Debug, Clone, Copy, PartialEq, Eq, Structural)]
pub struct Provisions {
    /// The bot's own user id, once the platform has reported it.
    pub bot_id: Option<u64>,
    /// Whether the supervisor's mailbox can be sent to.
    pub has_sender: bool,
    /// Whether the state of the process is at hand.
    pub has_state: bool,
}

/// What is to be done about a report of the gateway.
#[derive(Debug, PartialEq, Eq)]
pub enum Report<H> {
    /// The event is to be put into the supervisor's mailbox.
    Send(DiscordEvent<H>),
    /// Nothing can be done for want of a provision; this is logged.
    Missing(Provision),
}

/// What is to be done about a guild the bot has joined.
#[derive(Debug, Clone, Copy, PartialEq, Eq, Structural)]
pub enum GuildCreation {
    /// The bot does not know its own id yet: wait until it does.
    AwaitIdentity,
    /// Nothing can be done for want of a provision; this is logged.
    Missing(Provision),
    /// An actor for the guild is to be set up and started, and then announced
    /// to the supervisor.
    Start { guild_id: u64, bot_id: u64 },
}

/// Receives what the gateway reports.
#[derive(Debug, Clone, Copy, PartialEq, Eq, Structural)]
pub struct Handler;

impl Handler {
    /// What is to be done about a guild the bot has joined. The bot's own
    /// id is waited for; a missing mailbox is reported before a missing state.
    pub open spec fn spec_guild_create(provisions: Provisions, guild_id: u64) -> GuildCreation {
        match provisions.bot_id {
            None => GuildCreation::AwaitIdentity,
            Some(bot_id) => if !provisions.has_sender {
                GuildCreation::Missing(Provision::InternalSender)
            } else if !provisions.has_state {
                GuildCreation::Missing(Provision::AppState)
            } else {
                GuildCreation::Start { guild_id, bot_id }
            },
        }
    }

    /// An interaction goes to the supervisor as it came.
    pub fn interaction_create<H>(&self, provisions: &Provisions, interaction: Interaction) -> (report:
        Report<H>)
        ensures
            report == if provisions.has_sender {
                Report::Send(DiscordEvent::<H>::Interaction(Box::new(interaction)))
            } else {
                Report::Missing(Provision::InternalSender)
            },
    {
        if provisions.has_sender {
            Report::Send(DiscordEvent::Interaction(Box::new(interaction)))
        } else {
            Report::Missing(Provision::InternalSender)
        }
    }

    /// A chat message goes to the supervisor as it came.
    pub fn message<H>(&self, provisions: &Provisions, message: Message) -> (report: Report<H>)
        ensures
            report == if provisions.has_sender {
                Report::Send(DiscordEvent::<H>::Message(Box::new(message)))
            } else {
                Report::Missing(Provision::InternalSender)
            },
    {
        if provisions.has_sender {
            Report::Send(DiscordEvent::Message(Box::new(message)))
        } else {
            Report::Missing(Provision::InternalSender)
        }
    }

    /// Decides what is to be done about a guild the bot has joined.
    pub fn guild_create(&self, provisions: &Provisions, guild_id: u64) -> (creation: GuildCreation)
        ensures
            creation == Self::spec_guild_create(*provisions, guild_id),
    {
        match provisions.bot_id {
            None => GuildCreation::AwaitIdentity,
            Some(bot_id) => {
                if !provisions.has_sender {
                    GuildCreation::Missing(Provision::InternalSender)
                } else if !provisions.has_state {
                    GuildCreation::Missing(Provision::AppState)
                } else {
                    GuildCreation::Start { guild_id, bot_id }
                }
            },
        }
    }

    /// The announcement of an actor that has been started.
    pub fn guild_started<H>(&self, handler: GuildHandler<H>) -> (event: DiscordEvent<H>)
        ensures
            event == DiscordEvent::NewGuild(handler),
    {
        DiscordEvent::NewGuild(handler)
    }

    /// A guild the bot has left is reported to the supervisor, so that its
    /// actor is retired.
    pub fn guild_delete<H>(&self, provisions: &Provisions, guild_id: u64) -> (report: Report<H>)
        ensures
            report == if provisions.has_sender {
                Report::Send(DiscordEvent::<H>::DeletedGuild(guild_id))
            } else {
                Report::Missing(Provision::InternalSender)
            },
    {
        if provisions.has_sender {
            Report::Send(DiscordEvent::DeletedGuild(guild_id))
        } else {
            Report::Missing(Provision::InternalSender)
        }
    }

    /// The bot's own id once the platform has reported the bot's user: the id
    /// that was provided before, if there was one, and the reported one
    /// otherwise. The id is set once and read from then on.
    pub open spec fn spec_ready(provisions: Provisions, user_id: u64) -> u64 {
        match provisions.bot_id {
            Some(known) => known,
            None => user_id,
        }
    }

    /// Once the platform has reported the bot's own user, its id is provided,
    /// unless it has been provided before.
    pub fn ready(&self, provisions: Provisions, user_id: u64) -> (provided: (
        Provisions,
        BotDiscordId,
    ))
        ensures
            provided.0 == (Provisions {
                bot_id: Some(Self::spec_ready(provisions, user_id)),
                ..provisions
            }),
            provided.1.value() == Self::spec_ready(provisions, user_id),
    {
        let bot_id = match provisions.bot_id {
            Some(known) => known,
            None => user_id,
        };
        (Provisions { bot_id: Some(bot_id), ..provisions }, BotDiscordId::new(bot_id))
    }
}

} // verus!
