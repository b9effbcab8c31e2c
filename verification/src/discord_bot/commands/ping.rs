//! The command that answers a ping with a pong.

use vstd::prelude::*;
use crate::discord_bot::commands::command::{Command, Handling, HandlingView};
use crate::discord_bot::commands::schema::{CreateCommand, CreateCommandView};
use crate::discord_bot::commands::util::{
    CommandResponse, CommandResponseView, Context, InteractionReply, InteractionReplyView,
};
use crate::discord_bot::model::CommandInteraction;
use crate::state::AppState;

verus! {

/// The command `ping`; it takes no arguments.
#[derive(Debug, Clone, Copy, PartialEq, Eq)]
pub struct PingCommand;

impl View for PingCommand {
    type V = ();

    open spec fn view(&self) -> () {
        ()
    }
}

impl Command for PingCommand {
    open spec fn spec_name() -> Seq<char> {
        "ping"@
    }

    open spec fn spec_description() -> Seq<char> {
        "Pings the bot, expect a pong response."@
    }

    open spec fn spec_options(command: CreateCommandView) -> CreateCommandView {
        command
    }

    open spec fn spec_parse(interaction: CommandInteraction) -> Result<(), Seq<char>> {
        Ok(())
    }

    open spec fn spec_handle(arguments: (), interaction: CommandInteraction, context: Context)
        -> HandlingView {
        HandlingView::Done(
            Ok(
                CommandResponseView::ComplexSuccess(
                    InteractionReplyView { content: "Pong!"@, ephemeral: true },
                ),
            ),
        )
    }

    fn name() -> (name: &'static str) {
        "ping"
    }

    fn description() -> (description: &'static str) {
        "Pings the bot, expect a pong response."
    }

    fn get_application_command_options(command: CreateCommand) -> (described: CreateCommand) {
        command
    }

    fn try_from(interaction: &CommandInteraction) -> (parsed: Result<Self, String>) {
        Ok(PingCommand)
    }

    fn handle_application_command(
        self,
        interaction: &CommandInteraction,
        app_state: &AppState,
        context: &Context,
    ) -> (handling: Handling) {
        Handling::Done(
            Ok(
                CommandResponse::ComplexSuccess(
                    InteractionReply { content: "Pong!".to_owned(), ephemeral: true },
                ),
            ),
        )
    }
}

} // verus!
