//! The protocol between a request and the commands: what every command
//! offers, what some offer besides, and how a request finds the one command
//! that serves it.

use vstd::prelude::*;
use crate::discord_bot::commands::hiding::HideCommand;
use crate::discord_bot::commands::ping::PingCommand;
use crate::discord_bot::commands::say::{say_outcome, SayCommand};
use crate::discord_bot::commands::schema::{
    CommandType, CreateCommand, CreateCommandView, Permissions, StringChoice,
};
use crate::discord_bot::commands::time::TimeCommand;
use crate::discord_bot::commands::util::{
    internal_failure, outcome_view, CommandResponse, CommandResponseView, Context,
};
use crate::discord_bot::model::{CommandInteraction, ComponentInteraction, ModalInteraction};
use crate::state::AppState;

verus! {

/// What is left to do once the message of a command has gone out or has
/// failed to.
#[derive(Debug, Clone, PartialEq, Eq)]
pub enum Continuation {
    /// Confirm to the requester what was said, or report that it was not.
    Say { message: String },
}

/// A [`Continuation`] with its texts as sequences of characters.
pub enum ContinuationView {
    Say { message: Seq<char> },
}

impl View for Continuation {
    type V = ContinuationView;

    open spec fn view(&self) -> ContinuationView {
        match *self {
            Continuation::Say { message } => ContinuationView::Say { message: message@ },
        }
    }
}

/// How far the handling of a request has come.
#[derive(Debug, PartialEq, Eq)]
pub enum Handling {
    /// The request has its response.
    Done(Result<CommandResponse, CommandResponse>),
    /// A message is to be sent to a channel first; how the sending went
    /// decides the response.
    Send { channel_id: u64, content: String, then: Continuation },
}

/// A [`Handling`] with its texts as sequences of characters.
pub enum HandlingView {
    Done(Result<CommandResponseView, CommandResponseView>),
    Send { channel_id: u64, content: Seq<char>, then: ContinuationView },
}

impl View for Handling {
    type V = HandlingView;

    open spec fn view(&self) -> HandlingView {
        match *self {
            Handling::Done(Ok(response)) => HandlingView::Done(Ok(response@)),
            Handling::Done(Err(response)) => HandlingView::Done(Err(response@)),
            Handling::Send { channel_id, content, then } => HandlingView::Send {
                channel_id,
                content: content@,
                then: then@,
            },
        }
    }
}

/// What every command offers: a name, a description of itself for the
/// platform, a way to read its arguments out of a request, and the handling
/// of a request so read.
pub trait Command: Sized + View {
    /// The name by which the command is invoked.
    spec fn spec_name() -> Seq<char>;

    /// What the command is for.
    spec fn spec_description() -> Seq<char>;

    /// The description of the command, given one that holds its name.
    spec fn spec_options(command: CreateCommandView) -> CreateCommandView;

    /// The arguments the request holds for this command, or why it holds none.
    spec fn spec_parse(interaction: CommandInteraction) -> Result<Self::V, Seq<char>>;

    /// What handling the request with these arguments comes to.
    spec fn spec_handle(
        arguments: Self::V,
        interaction: CommandInteraction,
        context: Context,
    ) -> HandlingView;

    /// The name by which the command is invoked.
    fn name() -> (name: &'static str)
        ensures
            name@ == Self::spec_name(),
    ;

    /// What the command is for.
    fn description() -> (description: &'static str)
        ensures
            description@ == Self::spec_description(),
    ;

    /// Adds to a description what the platform needs to know of the
    /// command's options.
    fn get_application_command_options(command: CreateCommand) -> (described: CreateCommand)
        ensures
            described@ == Self::spec_options(command@),
    ;

    /// Reads the command's arguments out of a request.
    fn try_from(interaction: &CommandInteraction) -> (parsed: Result<Self, String>)
        ensures
            match parsed {
                Ok(command) => Self::spec_parse(*interaction) == Ok::<Self::V, Seq<char>>(
                    command@,
                ),
                Err(reason) => Self::spec_parse(*interaction) == Err::<Self::V, Seq<char>>(
                    reason@,
                ),
            },
    ;

    /// Handles the request.
    fn handle_application_command(
        self,
        interaction: &CommandInteraction,
        app_state: &AppState,
        context: &Context,
    ) -> (handling: Handling)
        ensures
            handling@ == Self::spec_handle(self@, *interaction, *context),
    ;
}

/// The option of a request whose value the user is still typing.
#[derive(Debug, Clone, PartialEq, Eq)]
pub struct AutocompleteOption {
    /// The option's name in the command's schema.
    pub name: String,
    /// What has been typed so far.
    pub value: String,
}

/// The suggestions offered for an option, best first.
#[derive(Debug, Clone, PartialEq, Eq)]
pub struct CreateAutocompleteResponse {
    /// The suggestions.
    pub choices: Vec<StringChoice>,
}

/// A command that suggests values for its options while they are typed.
pub trait AutocompleteCommand: Command {
    /// The suggestions for the option that is being typed.
    fn autocomplete(
        command: &CommandInteraction,
        message: &AutocompleteOption,
        app_state: &AppState,
        context: &Context,
    ) -> Result<CreateAutocompleteResponse, CommandResponse>;
}

/// A command whose responses carry components, such as buttons, that it
/// answers itself when they are operated.
pub trait InteractionCommand: Command {
    /// Whether the component that was operated is one of this command's.
    spec fn spec_answerable(interaction: ComponentInteraction, context: Context) -> bool;

    /// The command's response to the component.
    spec fn spec_interaction(interaction: ComponentInteraction, context: Context) -> Result<
        CommandResponseView,
        CommandResponseView,
    >;

    /// Whether the component that was operated is one of this command's.
    fn answerable(interaction: &ComponentInteraction, app_state: &AppState, context: &Context)
        -> (answerable: bool)
        ensures
            answerable == Self::spec_answerable(*interaction, *context),
    ;

    /// Responds to the component.
    fn interaction(interaction: &ComponentInteraction, app_state: &AppState, context: &Context)
        -> (outcome: Result<CommandResponse, CommandResponse>)
        ensures
            outcome_view(outcome) == Self::spec_interaction(*interaction, *context),
    ;
}

/// A command that opens modals and takes their submissions.
pub trait ModalSubmit: Command + InteractionCommand {
    /// Whether the modal that was submitted is one of this command's.
    spec fn spec_modal_submit(modal: ModalInteraction, context: Context) -> bool;

    /// The command's response to the submission.
    spec fn spec_handle_modal_submit(modal: ModalInteraction, context: Context) -> Result<
        CommandResponseView,
        CommandResponseView,
    >;

    /// Whether the modal that was submitted is one of this command's.
    fn modal_submit(modal: &ModalInteraction, app_state: &AppState, context: &Context) -> (mine:
        bool)
        ensures
            mine == Self::spec_modal_submit(*modal, *context),
    ;

    /// Responds to the submission.
    fn handle_modal_submit(modal: &ModalInteraction, app_state: &AppState, context: &Context)
        -> (outcome: Result<CommandResponse, CommandResponse>)
        ensures
            outcome_view(outcome) == Self::spec_handle_modal_submit(*modal, *context),
    ;
}

/// The end of a list of commands: no command at all.
#[derive(Debug, Clone, Copy, PartialEq, Eq)]
pub struct NoCommands;

/// A list of commands written as a type: the command `X`, then those of `Rest`.
#[derive(Debug, Clone, Copy, PartialEq, Eq)]
pub struct Then<X, Rest> {
    pub first: X,
    pub rest: Rest,
}

/// A list of commands that answer to components. The commands are asked in
/// the order of the list, and the first that claims a component answers it.
pub trait InteractionCommands {
    /// The response of the first command of the list that claims the
    /// component, or the failure that says that none does.
    spec fn spec_dispatch(interaction: ComponentInteraction, context: Context) -> Result<
        CommandResponseView,
        CommandResponseView,
    >;

    /// Has the first command of the list that claims the component answer it.
    fn dispatch(interaction: &ComponentInteraction, app_state: &AppState, context: &Context)
        -> (outcome: Result<CommandResponse, CommandResponse>)
        ensures
            outcome_view(outcome) == Self::spec_dispatch(*interaction, *context),
    ;
}

impl InteractionCommands for NoCommands {
    open spec fn spec_dispatch(interaction: ComponentInteraction, context: Context) -> Result<
        CommandResponseView,
        CommandResponseView,
    > {
        internal_failure("Unsupported Interaction Command"@)
    }

    fn dispatch(interaction: &ComponentInteraction, app_state: &AppState, context: &Context)
        -> (outcome: Result<CommandResponse, CommandResponse>) {
        Err(CommandResponse::InternalFailure("Unsupported Interaction Command".to_owned()))
    }
}

impl<X: InteractionCommand, Rest: InteractionCommands> InteractionCommands for Then<X, Rest> {
    open spec fn spec_dispatch(interaction: ComponentInteraction, context: Context) -> Result<
        CommandResponseView,
        CommandResponseView,
    > {
        if X::spec_answerable(interaction, context) {
            X::spec_interaction(interaction, context)
        } else {
            Rest::spec_dispatch(interaction, context)
        }
    }

    fn dispatch(interaction: &ComponentInteraction, app_state: &AppState, context: &Context)
        -> (outcome: Result<CommandResponse, CommandResponse>) {
        if X::answerable(interaction, app_state, context) {
            X::interaction(interaction, app_state, context)
        } else {
            Rest::dispatch(interaction, app_state, context)
        }
    }
}

/// A list of commands that take modal submissions. The commands are asked in
/// the order of the list, and the first that claims a submission takes it.
pub trait ModalCommands {
    /// The response of the first command of the list that claims the
    /// submission, or the failure that says that none does.
    spec fn spec_dispatch_modal(modal: ModalInteraction, context: Context) -> Result<
        CommandResponseView,
        CommandResponseView,
    >;

    /// Has the first command of the list that claims the submission take it.
    fn dispatch_modal(modal: &ModalInteraction, app_state: &AppState, context: &Context) -> (outcome:
        Result<CommandResponse, CommandResponse>)
        ensures
            outcome_view(outcome) == Self::spec_dispatch_modal(*modal, *context),
    ;
}

impl ModalCommands for NoCommands {
    open spec fn spec_dispatch_modal(modal: ModalInteraction, context: Context) -> Result<
        CommandResponseView,
        CommandResponseView,
    > {
        internal_failure("Unsupported Modal Submit Command"@)
    }

    fn dispatch_modal(modal: &ModalInteraction, app_state: &AppState, context: &Context) -> (outcome:
        Result<CommandResponse, CommandResponse>) {
        Err(CommandResponse::InternalFailure("Unsupported Modal Submit Command".to_owned()))
    }
}

impl<X: ModalSubmit, Rest: ModalCommands> ModalCommands for Then<X, Rest> {
    open spec fn spec_dispatch_modal(modal: ModalInteraction, context: Context) -> Result<
        CommandResponseView,
        CommandResponseView,
    > {
        if X::spec_modal_submit(modal, context) {
            X::spec_handle_modal_submit(modal, context)
        } else {
            Rest::spec_dispatch_modal(modal, context)
        }
    }

    fn dispatch_modal(modal: &ModalInteraction, app_state: &AppState, context: &Context) -> (outcome:
        Result<CommandResponse, CommandResponse>) {
        if X::modal_submit(modal, app_state, context) {
            X::handle_modal_submit(modal, app_state, context)
        } else {
            Rest::dispatch_modal(modal, app_state, context)
        }
    }
}

/// Of two commands that both claim a component, the one that stands first in
/// the list answers it, and the other is not asked.
pub proof fn lemma_first_answerable_wins<
    X: InteractionCommand,
    Y: InteractionCommand,
    Rest: InteractionCommands,
>(interaction: ComponentInteraction, context: Context)
    requires
        X::spec_answerable(interaction, context),
        Y::spec_answerable(interaction, context),
    ensures
        <Then<X, Then<Y, Rest>> as InteractionCommands>::spec_dispatch(interaction, context)
            == X::spec_interaction(interaction, context),
{
}

/// A command that does not claim a component is passed over: the list
/// answers as the rest of it does.
pub proof fn lemma_unanswerable_is_passed_over<X: InteractionCommand, Rest: InteractionCommands>(
    interaction: ComponentInteraction,
    context: Context,
)
    requires
        !X::spec_answerable(interaction, context),
    ensures
        <Then<X, Rest> as InteractionCommands>::spec_dispatch(interaction, context)
            == Rest::spec_dispatch(interaction, context),
{
}

/// Of two commands that both claim a modal submission, the one that stands
/// first in the list takes it.
pub proof fn lemma_first_modal_wins<X: ModalSubmit, Y: ModalSubmit, Rest: ModalCommands>(
    modal: ModalInteraction,
    context: Context,
)
    requires
        X::spec_modal_submit(modal, context),
        Y::spec_modal_submit(modal, context),
    ensures
        <Then<X, Then<Y, Rest>> as ModalCommands>::spec_dispatch_modal(modal, context)
            == X::spec_handle_modal_submit(modal, context),
{
}

/// The description under which the command `C` is registered: what the
/// command says of its options, under its name, with its description, for
/// administrators only, not in direct messages, invoked by typing.
pub open spec fn registration<C: Command>() -> CreateCommandView {
    CreateCommandView {
        name: C::spec_name(),
        description: C::spec_description(),
        default_member_permissions: Some(Permissions::Administrator),
        dm_permission: Some(false),
        kind: Some(CommandType::ChatInput),
        ..C::spec_options(
            CreateCommandView {
                name: "unnamed command"@,
                description: Seq::empty(),
                options: Seq::empty(),
                default_member_permissions: None,
                dm_permission: None,
                kind: None,
            },
        )
    }
}

/// The description under which the command `C` is registered.
fn register<C: Command>() -> (described: CreateCommand)
    ensures
        described@ == registration::<C>(),
{
    C::get_application_command_options(CreateCommand::new("unnamed command")).name(
        C::name(),
    ).description(C::description()).default_member_permissions(
        Permissions::Administrator,
    ).dm_permission(false).kind(CommandType::ChatInput)
}

/// The descriptions of all commands, in the order of the registry.
pub open spec fn spec_application_command() -> Seq<CreateCommandView> {
    seq![
        registration::<HideCommand>(),
        registration::<PingCommand>(),
        registration::<SayCommand>(),
        registration::<TimeCommand>(),
    ]
}

/// The descriptions of all commands as they are registered with the
/// platform, in the order of the registry.
pub fn application_command() -> (commands: Vec<CreateCommand>)
    ensures
        commands@.map_values(|command: CreateCommand| command@) == spec_application_command(),
{
    let mut base: Vec<CreateCommand> = Vec::new();
    base.push(register::<HideCommand>());
    base.push(register::<PingCommand>());
    base.push(register::<SayCommand>());
    base.push(register::<TimeCommand>());
    assert(base@.map_values(|command: CreateCommand| command@) =~= spec_application_command());
    base
}

/// Whether the request names the command `C`.
pub open spec fn names<C: Command>(interaction: CommandInteraction) -> bool {
    interaction.data.name@ == C::spec_name()
}

/// What the command `C` makes of the request: its handling, where the
/// request names the command and holds its arguments, and nothing otherwise.
pub open spec fn attempt<C: Command>(interaction: CommandInteraction, context: Context) -> Option<
    HandlingView,
> {
    if names::<C>(interaction) {
        match C::spec_parse(interaction) {
            Ok(arguments) => Some(C::spec_handle(arguments, interaction, context)),
            Err(_) => None,
        }
    } else {
        None
    }
}

/// Whether two texts are the same.
fn same_text(left: &str, right: &str) -> (same: bool)
    ensures
        same == (left@ == right@),
{
    left.to_owned() == right.to_owned()
}

/// Has the command `C` handle the request if the request names it and holds
/// its arguments.
fn try_command<C: Command>(
    interaction: &CommandInteraction,
    app_state: &AppState,
    context: &Context,
) -> (handling: Option<Handling>)
    ensures
        match handling {
            Some(h) => attempt::<C>(*interaction, *context) == Some(h@),
            None => attempt::<C>(*interaction, *context).is_none(),
        },
{
    if same_text(interaction.data.name.as_str(), C::name()) {
        if let Ok(value) = C::try_from(interaction) {
            return Some(value.handle_application_command(interaction, app_state, context));
        }
    }
    None
}

/// The failure that answers a request no command serves.
pub open spec fn unsupported_command() -> HandlingView {
    HandlingView::Done(internal_failure("Unsupported Command"@))
}

/// What the registry makes of a request: the handling by the first command,
/// in the order hide, ping, say, time, that the request names and whose
/// arguments it holds, and the failure for an unsupported command where
/// there is none.
pub open spec fn spec_command(interaction: CommandInteraction, context: Context) -> HandlingView {
    if let Some(handling) = attempt::<HideCommand>(interaction, context) {
        handling
    } else if let Some(handling) = attempt::<PingCommand>(interaction, context) {
        handling
    } else if let Some(handling) = attempt::<SayCommand>(interaction, context) {
        handling
    } else if let Some(handling) = attempt::<TimeCommand>(interaction, context) {
        handling
    } else {
        unsupported_command()
    }
}

/// Finds the command a request is for and has it handle the request. Every
/// request is answered: by its command, or by the failure for an unsupported
/// command where no command has its name or the command cannot read its
/// arguments.
pub fn command(interaction: &CommandInteraction, app_state: &AppState, context: &Context) -> (handling:
    Handling)
    ensures
        handling@ == spec_command(*interaction, *context),
{
    if let Some(handling) = try_command::<HideCommand>(interaction, app_state, context) {
        return handling;
    }
    if let Some(handling) = try_command::<PingCommand>(interaction, app_state, context) {
        return handling;
    }
    if let Some(handling) = try_command::<SayCommand>(interaction, app_state, context) {
        return handling;
    }
    if let Some(handling) = try_command::<TimeCommand>(interaction, app_state, context) {
        return handling;
    }
    Handling::Done(Err(CommandResponse::InternalFailure("Unsupported Command".to_owned())))
}

/// What is made of how the sending went that a handling asked for.
pub open spec fn spec_conclude(then: ContinuationView, sent: Result<(), String>) -> Result<
    CommandResponseView,
    CommandResponseView,
> {
    match then {
        ContinuationView::Say { message } => say_outcome(message, sent),
    }
}

/// Finishes a handling that asked for a message to be sent, now that it is
/// known how the sending went.
pub fn conclude(then: Continuation, sent: Result<(), String>) -> (outcome: Result<
    CommandResponse,
    CommandResponse,
>)
    ensures
        outcome_view(outcome) == spec_conclude(then@, sent),
{
    match then {
        Continuation::Say { message } => SayCommand::confirm(message.as_str(), sent),
    }
}

/// Suggests values for the option that is being typed. No command offers
/// suggestions, so every request is answered with the failure for an
/// unsupported command.
pub fn autocomplete(command: &CommandInteraction, app_state: &AppState, context: &Context) -> (outcome:
    Result<CreateAutocompleteResponse, CommandResponse>)
    ensures
        outcome matches Err(response) && response@ == CommandResponseView::InternalFailure(
            "Unsupported Autocomplete Command"@,
        ),
{
    Err(CommandResponse::InternalFailure("Unsupported Autocomplete Command".to_owned()))
}

/// Has the first command that claims the component answer it. No command
/// of the registry answers to components.
pub fn interaction(command: &ComponentInteraction, app_state: &AppState, context: &Context) -> (outcome:
    Result<CommandResponse, CommandResponse>)
    ensures
        outcome_view(outcome) == <NoCommands as InteractionCommands>::spec_dispatch(
            *command,
            *context,
        ),
{
    <NoCommands as InteractionCommands>::dispatch(command, app_state, context)
}

/// Has the first command that claims the modal submission take it. No
/// command of the registry takes modal submissions.
pub fn handle_modal(modal: &ModalInteraction, app_state: &AppState, context: &Context) -> (outcome:
    Result<CommandResponse, CommandResponse>)
    ensures
        outcome_view(outcome) == <NoCommands as ModalCommands>::spec_dispatch_modal(
            *modal,
            *context,
        ),
{
    <NoCommands as ModalCommands>::dispatch_modal(modal, app_state, context)
}

/// What becomes of a request in the registry.
#[derive(Debug, Clone, Copy, PartialEq, Eq, Structural)]
pub enum Disposition {
    /// A command has the name of the request and reads its arguments: the
    /// command handles the request.
    Handled,
    /// No command has the name of the request.
    Unsupported,
    /// A command has the name of the request and cannot read its arguments.
    ParseFailure,
}

/// What becomes of a request for the command `C`, if the request names it.
pub open spec fn disposition_by<C: Command>(interaction: CommandInteraction) -> Option<
    Disposition,
> {
    if names::<C>(interaction) {
        if C::spec_parse(interaction) is Ok {
            Some(Disposition::Handled)
        } else {
            Some(Disposition::ParseFailure)
        }
    } else {
        None
    }
}

/// What becomes of a request in the registry.
pub open spec fn spec_disposition(interaction: CommandInteraction) -> Disposition {
    if let Some(disposition) = disposition_by::<HideCommand>(interaction) {
        disposition
    } else if let Some(disposition) = disposition_by::<PingCommand>(interaction) {
        disposition
    } else if let Some(disposition) = disposition_by::<SayCommand>(interaction) {
        disposition
    } else if let Some(disposition) = disposition_by::<TimeCommand>(interaction) {
        disposition
    } else {
        Disposition::Unsupported
    }
}

/// What becomes of a request for the command `C`, if the request names it.
fn try_disposition<C: Command>(interaction: &CommandInteraction) -> (disposition: Option<
    Disposition,
>)
    ensures
        disposition == disposition_by::<C>(*interaction),
{
    if same_text(interaction.data.name.as_str(), C::name()) {
        match C::try_from(interaction) {
            Ok(_) => Some(Disposition::Handled),
            Err(_) => Some(Disposition::ParseFailure),
        }
    } else {
        None
    }
}

/// Tells what becomes of a request in the registry, without handling it.
pub fn disposition(interaction: &CommandInteraction) -> (disposition: Disposition)
    ensures
        disposition == spec_disposition(*interaction),
{
    if let Some(disposition) = try_disposition::<HideCommand>(interaction) {
        return disposition;
    }
    if let Some(disposition) = try_disposition::<PingCommand>(interaction) {
        return disposition;
    }
    if let Some(disposition) = try_disposition::<SayCommand>(interaction) {
        return disposition;
    }
    if let Some(disposition) = try_disposition::<TimeCommand>(interaction) {
        return disposition;
    }
    Disposition::Unsupported
}

/// No two commands of the registry have the same name.
pub proof fn lemma_names_are_unique()
    ensures
        HideCommand::spec_name() != PingCommand::spec_name(),
        HideCommand::spec_name() != SayCommand::spec_name(),
        HideCommand::spec_name() != TimeCommand::spec_name(),
        PingCommand::spec_name() != SayCommand::spec_name(),
        PingCommand::spec_name() != TimeCommand::spec_name(),
        SayCommand::spec_name() != TimeCommand::spec_name(),
{
    reveal_strlit("hide");
    reveal_strlit("ping");
    reveal_strlit("say");
    reveal_strlit("time");
    assert("hide"@[0] != "ping"@[0]);
    assert("hide"@[0] != "time"@[0]);
    assert("ping"@[0] != "time"@[0]);
    assert("say"@.len() != "hide"@.len());
}

/// The request names the command `C`, holds its arguments, and is handled
/// by the registry as `C` handles it.
pub open spec fn handled_by<C: Command>(interaction: CommandInteraction, context: Context)
    -> bool {
    names::<C>(interaction) && match C::spec_parse(interaction) {
        Ok(arguments) => spec_command(interaction, context) == C::spec_handle(
            arguments,
            interaction,
            context,
        ),
        Err(_) => false,
    }
}

/// The request names the command `C`, and `C` cannot read its arguments.
pub open spec fn refused_by<C: Command>(interaction: CommandInteraction) -> bool {
    names::<C>(interaction) && C::spec_parse(interaction) is Err
}

/// Every request comes to exactly one of three ends. Where a command has
/// the name of the request and reads its arguments, that command handles it.
/// Where a command has the name and cannot read the arguments, and where no
/// command has the name, the request is answered with the failure for an
/// unsupported command.
pub proof fn lemma_every_request_is_answered(interaction: CommandInteraction, context: Context)
    ensures
        match spec_disposition(interaction) {
            Disposition::Handled => {
                ||| handled_by::<HideCommand>(interaction, context)
                ||| handled_by::<PingCommand>(interaction, context)
                ||| handled_by::<SayCommand>(interaction, context)
                ||| handled_by::<TimeCommand>(interaction, context)
            },
            Disposition::ParseFailure => {
                &&& spec_command(interaction, context) == unsupported_command()
                &&& {
                    ||| refused_by::<HideCommand>(interaction)
                    ||| refused_by::<PingCommand>(interaction)
                    ||| refused_by::<SayCommand>(interaction)
                    ||| refused_by::<TimeCommand>(interaction)
                }
            },
            Disposition::Unsupported => {
                &&& spec_command(interaction, context) == unsupported_command()
                &&& !names::<HideCommand>(interaction)
                &&& !names::<PingCommand>(interaction)
                &&& !names::<SayCommand>(interaction)
                &&& !names::<TimeCommand>(interaction)
            },
        },
{
    lemma_names_are_unique();
}

/// A request is named by at most one command of the registry, so the order
/// of the registry never decides between two commands.
pub proof fn lemma_one_command_per_name(interaction: CommandInteraction)
    ensures
        !(names::<HideCommand>(interaction) && names::<PingCommand>(interaction)),
        !(names::<HideCommand>(interaction) && names::<SayCommand>(interaction)),
        !(names::<HideCommand>(interaction) && names::<TimeCommand>(interaction)),
        !(names::<PingCommand>(interaction) && names::<SayCommand>(interaction)),
        !(names::<PingCommand>(interaction) && names::<TimeCommand>(interaction)),
        !(names::<SayCommand>(interaction) && names::<TimeCommand>(interaction)),
{
    lemma_names_are_unique();
}

} // verus!
