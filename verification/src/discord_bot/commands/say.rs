//! The command that has the bot say a text in the channel of the request.

use vstd::prelude::*;
use vstd::string::StringExecFns;
use crate::discord_bot::commands::command::{
    Command, Continuation, ContinuationView, Handling, HandlingView,
};
use crate::discord_bot::commands::schema::{
    CommandOptionType, CreateCommand, CreateCommandOption, CreateCommandOptionView,
    CreateCommandView,
};
use crate::discord_bot::commands::util::{
    CommandResponse, CommandResponseView, Context, FailureMessageKind, InteractionReply,
    InteractionReplyView,
};
use crate::discord_bot::model::CommandInteraction;
use crate::state::AppState;

verus! {

/// The greatest length of a text the bot is asked to say.
pub const SAY_MAX_LENGTH: u16 = 1900;

/// The command `say`, with the text it was asked to say.
#[derive(Debug, Clone, PartialEq, Eq)]
pub struct SayCommand {
    message: String,
}

impl View for SayCommand {
    type V = Seq<char>;

    closed spec fn view(&self) -> Seq<char> {
        self.message@
    }
}

/// The response to a request to say `message`, once it is known how the
/// sending went: a confirmation for the requester alone that quotes the text,
/// or a failure that keeps the cause for the log.
pub open spec fn say_outcome(message: Seq<char>, sent: Result<(), String>) -> Result<
    CommandResponseView,
    CommandResponseView,
> {
    match sent {
        Ok(_) => Ok(
            CommandResponseView::ComplexSuccess(
                InteractionReplyView { content: "I will send: "@ + message, ephemeral: true },
            ),
        ),
        Err(cause) => Err(
            CommandResponseView::ComplexFailure {
                response: "Failed to use /say due to error"@,
                kind: FailureMessageKind::Error,
                log_message: cause@,
            },
        ),
    }
}

impl SayCommand {
    /// The text the command was asked to say.
    pub fn message(&self) -> (message: &str)
        ensures
            message@ == self@,
    {
        self.message.as_str()
    }

    /// The response to a request to say `message`, given how the sending went.
    pub fn confirm(message: &str, sent: Result<(), String>) -> (outcome: Result<
        CommandResponse,
        CommandResponse,
    >)
        ensures
            crate::discord_bot::commands::util::outcome_view(outcome) == say_outcome(
                message@,
                sent,
            ),
    {
        match sent {
            Ok(_) => {
                let content = "I will send: ".to_owned().concat(message);
                Ok(CommandResponse::ComplexSuccess(InteractionReply { content, ephemeral: true }))
            },
            Err(cause) => Err(
                CommandResponse::ComplexFailure {
                    response: "Failed to use /say due to error".to_owned(),
                    kind: FailureMessageKind::Error,
                    log_message: cause,
                },
            ),
        }
    }
}

impl Command for SayCommand {
    open spec fn spec_name() -> Seq<char> {
        "say"@
    }

    open spec fn spec_description() -> Seq<char> {
        "Says whatever you want!"@
    }

    open spec fn spec_options(command: CreateCommandView) -> CreateCommandView {
        CreateCommandView {
            options: command.options.push(
                CreateCommandOptionView {
                    kind: CommandOptionType::String,
                    name: "text"@,
                    description: "What you want the bot to say"@,
                    required: true,
                    max_length: Some(SAY_MAX_LENGTH),
                    choices: Seq::empty(),
                },
            ),
            ..command
        }
    }

    open spec fn spec_parse(interaction: CommandInteraction) -> Result<Seq<char>, Seq<char>> {
        if interaction.data.options@.len() == 0 {
            Err("No message provided"@)
        } else {
            match interaction.data.options@[0].value.text() {
                Some(message) => Ok(message),
                None => Err("No message provided"@),
            }
        }
    }

    open spec fn spec_handle(
        arguments: Seq<char>,
        interaction: CommandInteraction,
        context: Context,
    ) -> HandlingView {
        HandlingView::Send {
            channel_id: interaction.channel_id,
            content: arguments,
            then: ContinuationView::Say { message: arguments },
        }
    }

    fn name() -> (name: &'static str) {
        "say"
    }

    fn description() -> (description: &'static str) {
        "Says whatever you want!"
    }

    fn get_application_command_options(command: CreateCommand) -> (described: CreateCommand) {
        command.add_option(
            CreateCommandOption::new(
                CommandOptionType::String,
                "text",
                "What you want the bot to say",
            ).required(true).max_length(SAY_MAX_LENGTH),
        )
    }

    fn try_from(interaction: &CommandInteraction) -> (parsed: Result<Self, String>) {
        if interaction.data.options.len() == 0 {
            return Err("No message provided".to_owned());
        }
        match interaction.data.options[0].value.as_str() {
            Some(message) => Ok(SayCommand { message: message.to_owned() }),
            None => Err("No message provided".to_owned()),
        }
    }

    fn handle_application_command(
        self,
        interaction: &CommandInteraction,
        app_state: &AppState,
        context: &Context,
    ) -> (handling: Handling) {
        let content = self.message.clone();
        Handling::Send {
            channel_id: interaction.channel_id,
            content,
            then: Continuation::Say { message: self.message },
        }
    }
}

} // verus!
