//! The command that pushes earlier messages out of sight.

use vstd::prelude::*;
use crate::discord_bot::commands::command::{Command, Handling, HandlingView};
use crate::discord_bot::commands::schema::{CreateCommand, CreateCommandView};
use crate::discord_bot::commands::util::{
    CommandResponse, CommandResponseView, Context, InteractionReply, InteractionReplyView,
};
use crate::discord_bot::model::CommandInteraction;
use crate::state::AppState;

verus! {

/// The text of the reply: line after line that shows nothing.
pub const HIDE_CONTENT: &'static str = "\u{200b}\n\u{200b}\n\u{200b}\n\u{200b}\n\
    \u{200b}\n\u{200b}\n\u{200b}\n\u{200b}\n\
    \u{200b}\n\u{200b}\n\u{200b}\n\u{200b}\n\
    \u{200b}\n\u{200b}\n\u{200b}\n\u{200b}\n\
    \u{200b}\n\u{200b}\n\u{200b}\n\u{200b}\n\
    \u{200b}\n\u{200b}\n\u{200b}\n\u{200b}\n\
    \u{200b}\n\u{200b}\n\u{200b}\n\u{200b}\n\
    \u{200b}\n\u{200b}\n\u{200b}\n\u{200b}\u{200b}\
    \n\u{200b}\u{200b}\n\u{200b}\u{200b}\n\u{200b}\
    \n\u{200b}\n\u{200b}\n\u{200b}\n\u{200b}\
    \n\u{200b}\n\u{200b}\n\u{200b}\n\u{200b}\
    \n\u{200b}\n\u{200b}\n\u{200b}\n\u{200b}\
    \n\u{200b}\n\u{200b}\n\u{200b}\n\u{200b}\
    \n\u{200b}\n\u{200b}\n\u{200b}\n\u{200b}\
    \n\u{200b}\n\u{200b}\n\u{200b}\n\u{200b}\
    \n\u{200b}\n\u{200b}\n\u{200b}\n\u{200b}\
    \n\n\u{200b}\n\u{200b}\n\u{200b}\n\
    \u{200b}\n\u{200b}\n\u{200b}\n\u{200b}\n\
    \u{200b}\n\u{200b}\n\u{200b}\n\u{200b}\n\
    \u{200b}\n\u{200b}\n\u{200b}\n\u{200b}\n\
    \u{200b}\n\u{200b}\n\u{200b}\n\u{200b}\n\
    \u{200b}\n\u{200b}\n\u{200b}\n\u{200b}\n\
    \u{200b}\n\u{200b}\n\u{200b}\n\u{200b}\n\
    \u{200b}\n\u{200b}\n\u{200b}\n\u{200b}\u{200b}\
    \n\u{200b}\u{200b}\n\u{200b}\u{200b}\n\u{200b}\
    \n\u{200b}\n\u{200b}\n\u{200b}\n\u{200b}\
    \n\u{200b}\n\u{200b}\n\u{200b}\n\u{200b}\
    \n\u{200b}\n\u{200b}\n\u{200b}\n\u{200b}\
    \n\u{200b}\n\u{200b}\n\u{200b}\n\u{200b}\
    \n\u{200b}\n\u{200b}\n\u{200b}\n\u{200b}\
    \n\u{200b}\n\u{200b}\n\u{200b}\n\u{200b}\
    \n\u{200b}\n\u{200b}\n\u{200b}\n\u{200b}\
    \n";

/// The command `hide`; it takes no arguments.
#[derive(Debug, Clone, Copy, PartialEq, Eq)]
pub struct HideCommand;

impl View for HideCommand {
    type V = ();

    open spec fn view(&self) -> () {
        ()
    }
}

impl Command for HideCommand {
    open spec fn spec_name() -> Seq<char> {
        "hide"@
    }

    open spec fn spec_description() -> Seq<char> {
        "Creates a large message to hide previous messages in the chat"@
    }

    open spec fn spec_options(command: CreateCommandView) -> CreateCommandView {
        command
    }

    open spec fn spec_parse(interaction: CommandInteraction) -> Result<(), Seq<char>> {
        Ok(())
    }

    open spec fn spec_handle(arguments: (), interaction: CommandInteraction, context: Context)
        -> HandlingView {
        HandlingView::Done(
            Ok(
                CommandResponseView::ComplexSuccess(
                    InteractionReplyView { content: HIDE_CONTENT@, ephemeral: false },
                ),
            ),
        )
    }

    fn name() -> (name: &'static str) {
        "hide"
    }

    fn description() -> (description: &'static str) {
        "Creates a large message to hide previous messages in the chat"
    }

    fn get_application_command_options(command: CreateCommand) -> (described: CreateCommand) {
        command
    }

    fn try_from(interaction: &CommandInteraction) -> (parsed: Result<Self, String>) {
        Ok(HideCommand)
    }

    fn handle_application_command(
        self,
        interaction: &CommandInteraction,
        app_state: &AppState,
        context: &Context,
    ) -> (handling: Handling) {
        Handling::Done(
            Ok(
                CommandResponse::ComplexSuccess(
                    InteractionReply { content: HIDE_CONTENT.to_owned(), ephemeral: false },
                ),
            ),
        )
    }
}

} // verus!
