//! What the gateway reports, reduced to the plain values the routing and the
//! commands read.

use vstd::prelude::*;

verus! {

/// The value a user gave for one option of a command.
#[derive(Debug, Clone, PartialEq, Eq)]
pub enum CommandDataOptionValue {
    /// A text value.
    String(String),
    /// A whole number.
    Integer(i64),
    /// A switch.
    Boolean(bool),
    /// Any other kind of value; no command reads these.
    Other,
}

impl CommandDataOptionValue {
    /// The text of a text value, and nothing for every other kind.
    pub open spec fn text(self) -> Option<Seq<char>> {
        match self {
            CommandDataOptionValue::String(s) => Some(s@),
            _ => None,
        }
    }

    /// The text of a text value.
    pub fn as_str(&self) -> (text: Option<&str>)
        ensures
            text.is_some() == self.text().is_some(),
            text matches Some(t) ==> self.text() == Some(t@),
    {
        match self {
            CommandDataOptionValue::String(s) => Some(s.as_str()),
            _ => None,
        }
    }
}

/// One option of a command request, as the user filled it in.
#[derive(Debug, Clone, PartialEq, Eq)]
pub struct CommandDataOption {
    /// The option's name in the command's schema.
    pub name: String,
    /// What the user gave for it.
    pub value: CommandDataOptionValue,
}

/// The named request inside a command interaction.
#[derive(Debug, Clone, PartialEq, Eq)]
pub struct CommandData {
    /// The name of the command that was invoked.
    pub name: String,
    /// The options in the order the platform sent them.
    pub options: Vec<CommandDataOption>,
}

/// A user invoking a command.
#[derive(Debug, Clone, PartialEq, Eq)]
pub struct CommandInteraction {
    /// The platform's id of this interaction; replies are addressed to it.
    pub id: u64,
    /// The token that authorises a reply to this interaction.
    pub token: String,
    /// The guild the command was used in, if it was used in one.
    pub guild_id: Option<u64>,
    /// The channel the command was used in.
    pub channel_id: u64,
    /// The request itself.
    pub data: CommandData,
}

/// A user operating a button or menu that an earlier response put up.
#[derive(Debug, Clone, PartialEq, Eq)]
pub struct ComponentInteraction {
    /// The platform's id of this interaction.
    pub id: u64,
    /// The token that authorises a reply to this interaction.
    pub token: String,
    /// The guild the component lives in, if any.
    pub guild_id: Option<u64>,
    /// The channel the component lives in.
    pub channel_id: u64,
    /// The id the author of the component gave it.
    pub custom_id: String,
}

/// A user submitting a modal form.
#[derive(Debug, Clone, PartialEq, Eq)]
pub struct ModalInteraction {
    /// The platform's id of this interaction.
    pub id: u64,
    /// The token that authorises a reply to this interaction.
    pub token: String,
    /// The guild the modal was opened in, if any.
    pub guild_id: Option<u64>,
    /// The channel the modal was opened in.
    pub channel_id: u64,
    /// The id the author of the modal gave it.
    pub custom_id: String,
}

/// A request a user made of the bot that is not a plain chat message.
#[derive(Debug, Clone, PartialEq, Eq)]
pub enum Interaction {
    /// The platform probing the bot; it belongs to no guild.
    Ping,
    /// A command was invoked.
    Command(CommandInteraction),
    /// A component was operated.
    Component(ComponentInteraction),
    /// A command is being typed and suggestions are wanted.
    Autocomplete(CommandInteraction),
    /// A modal was submitted.
    Modal(ModalInteraction),
}

impl Interaction {
    /// The guild an interaction belongs to. A ping belongs to none.
    pub open spec fn guild(self) -> Option<u64> {
        match self {
            Interaction::Ping => None,
            Interaction::Command(c) => c.guild_id,
            Interaction::Component(c) => c.guild_id,
            Interaction::Autocomplete(c) => c.guild_id,
            Interaction::Modal(m) => m.guild_id,
        }
    }

    /// The guild this interaction belongs to.
    pub fn guild_id(&self) -> (guild: Option<u64>)
        ensures
            guild == self.guild(),
    {
        match self {
            Interaction::Ping => None,
            Interaction::Command(c) => c.guild_id,
            Interaction::Component(c) => c.guild_id,
            Interaction::Autocomplete(c) => c.guild_id,
            Interaction::Modal(m) => m.guild_id,
        }
    }
}

/// A chat message.
#[derive(Debug, Clone, PartialEq, Eq)]
pub struct Message {
    /// The platform's id of the message.
    pub id: u64,
    /// The guild the message was posted in, if it was posted in one.
    pub guild_id: Option<u64>,
    /// The channel the message was posted in.
    pub channel_id: u64,
    /// The user who posted it.
    pub author_id: u64,
    /// The text of the message.
    pub content: String,
}

} // verus!
