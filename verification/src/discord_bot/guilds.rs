//! The actor that serves one guild, and the handle by which the supervisor
//! reaches it.

use vstd::prelude::*;
use crate::discord_bot::commands::command::{
    autocomplete, command, handle_modal, interaction, spec_command, CreateAutocompleteResponse,
    Handling, HandlingView, InteractionCommands, ModalCommands, NoCommands,
};
use crate::discord_bot::commands::util::{CommandResponse, CommandResponseView, Context};
use crate::discord_bot::manager::DiscordEvent;
use crate::discord_bot::model::Interaction;
use crate::state::AppState;

verus! {

/// The supervisor's handle on one guild actor: the guild's identity and the
/// sending side of the actor's mailbox.
#[derive(Debug, PartialEq, Eq)]
pub struct GuildHandler<H> {
    /// The guild this actor serves.
    pub guild_id: u64,
    /// Where events for the actor are put.
    pub internal_tx: H,
}

impl<H> GuildHandler<H> {
    /// A handle on the actor of `guild_id` whose mailbox is fed by `internal_tx`.
    pub fn new(guild_id: u64, internal_tx: H) -> (handler: Self)
        ensures
            handler.guild_id == guild_id,
            handler.internal_tx == internal_tx,
    {
        GuildHandler { guild_id, internal_tx }
    }
}

/// What a guild actor does about one event from its mailbox.
#[derive(Debug, PartialEq, Eq)]
pub enum Reaction {
    /// A command, a component or a modal is answered as the handling says.
    Respond(Handling),
    /// A request for suggestions is answered with them, or with a failure.
    Suggest(Result<CreateAutocompleteResponse, CommandResponse>),
    /// A chat message was taken note of; it calls for no answer.
    Nothing,
    /// The actor was told to shut down: its loop ends here.
    Stop,
    /// The event has no business in an actor's mailbox; it is logged.
    Unexpected,
    /// The loop had ended before; the event was not looked at.
    Stopped,
}

/// A [`Reaction`] with its texts as sequences of characters.
pub enum ReactionView {
    Respond(HandlingView),
    Suggest(Result<CreateAutocompleteResponse, CommandResponseView>),
    Nothing,
    Stop,
    Unexpected,
    Stopped,
}

impl View for Reaction {
    type V = ReactionView;

    open spec fn view(&self) -> ReactionView {
        match *self {
            Reaction::Respond(handling) => ReactionView::Respond(handling@),
            Reaction::Suggest(Ok(suggestions)) => ReactionView::Suggest(Ok(suggestions)),
            Reaction::Suggest(Err(response)) => ReactionView::Suggest(Err(response@)),
            Reaction::Nothing => ReactionView::Nothing,
            Reaction::Stop => ReactionView::Stop,
            Reaction::Unexpected => ReactionView::Unexpected,
            Reaction::Stopped => ReactionView::Stopped,
        }
    }
}

/// What an actor whose loop is running does about an event: it hands a
/// request to the registry, takes note of a message, stops at a shutdown,
/// and has no use for anything else.
pub open spec fn spec_react<H>(event: DiscordEvent<H>, context: Context) -> ReactionView {
    match event {
        DiscordEvent::Interaction(request) => match *request {
            Interaction::Command(c) => ReactionView::Respond(spec_command(c, context)),
            Interaction::Component(c) => ReactionView::Respond(
                HandlingView::Done(
                    <NoCommands as InteractionCommands>::spec_dispatch(c, context),
                ),
            ),
            Interaction::Modal(m) => ReactionView::Respond(
                HandlingView::Done(<NoCommands as ModalCommands>::spec_dispatch_modal(m, context)),
            ),
            Interaction::Autocomplete(c) => ReactionView::Suggest(
                Err(CommandResponseView::InternalFailure("Unsupported Autocomplete Command"@)),
            ),
            Interaction::Ping => ReactionView::Unexpected,
        },
        DiscordEvent::Message(_) => ReactionView::Nothing,
        DiscordEvent::Shutdown => ReactionView::Stop,
        DiscordEvent::NewGuild(_) => ReactionView::Unexpected,
        DiscordEvent::DeletedGuild(_) => ReactionView::Unexpected,
    }
}

/// The actor of one guild: it takes the events of its mailbox one at a time,
/// in the order in which they were put there, until it is told to shut down.
#[derive(Debug)]
pub struct GuildActor {
    guild_id: u64,
    running: bool,
}

impl GuildActor {
    /// The guild the actor serves.
    pub closed spec fn guild(&self) -> u64 {
        self.guild_id
    }

    /// Whether the actor's loop is still taking events.
    pub closed spec fn is_running(&self) -> bool {
        self.running
    }

    /// The actor of `guild_id`, with its loop running.
    pub fn new(guild_id: u64) -> (actor: Self)
        ensures
            actor.guild() == guild_id,
            actor.is_running(),
    {
        GuildActor { guild_id, running: true }
    }

    /// The guild the actor serves.
    pub fn guild_id(&self) -> (guild_id: u64)
        ensures
            guild_id == self.guild(),
    {
        self.guild_id
    }

    /// Whether the loop is to take another event from the mailbox.
    pub fn running(&self) -> (running: bool)
        ensures
            running == self.is_running(),
    {
        self.running
    }

    /// Deals with the next event of the mailbox. Once a shutdown has been
    /// seen the loop has ended, and later events are not looked at.
    pub fn react<H>(&mut self, event: &DiscordEvent<H>, app_state: &AppState, context: &Context)
        -> (reaction: Reaction)
        ensures
            final(self).guild() == old(self).guild(),
            final(self).is_running() == (old(self).is_running() && !(*event is Shutdown)),
            reaction@ == if old(self).is_running() {
                spec_react(*event, *context)
            } else {
                ReactionView::Stopped
            },
    {
        if !self.running {
            return Reaction::Stopped;
        }
        match event {
            DiscordEvent::Interaction(request) => match &**request {
                Interaction::Command(c) => Reaction::Respond(command(c, app_state, context)),
                Interaction::Component(c) => Reaction::Respond(
                    Handling::Done(interaction(c, app_state, context)),
                ),
                Interaction::Modal(m) => Reaction::Respond(
                    Handling::Done(handle_modal(m, app_state, context)),
                ),
                Interaction::Autocomplete(c) => Reaction::Suggest(
                    autocomplete(c, app_state, context),
                ),
                Interaction::Ping => Reaction::Unexpected,
            },
            DiscordEvent::Message(_) => Reaction::Nothing,
            DiscordEvent::Shutdown => {
                self.running = false;
                Reaction::Stop
            },
            DiscordEvent::NewGuild(_) => Reaction::Unexpected,
            DiscordEvent::DeletedGuild(_) => Reaction::Unexpected,
        }
    }
}

/// Whether an actor's loop is running after it has dealt with these events,
/// oldest first.
pub open spec fn running_after<H>(running: bool, events: Seq<DiscordEvent<H>>) -> bool
    decreases events.len(),
{
    if events.len() == 0 {
        running
    } else {
        running_after(running, events.drop_last()) && !(events.last() is Shutdown)
    }
}

/// What an actor does about the last of these events, having dealt with the
/// earlier ones in their order.
pub open spec fn last_reaction<H>(events: Seq<DiscordEvent<H>>, context: Context) -> ReactionView
    recommends
        events.len() > 0,
{
    if running_after(true, events.drop_last()) {
        spec_react(events.last(), context)
    } else {
        ReactionView::Stopped
    }
}

/// An actor's loop runs exactly until the first shutdown it is sent.
pub proof fn lemma_actor_runs_until_shutdown<H>(events: Seq<DiscordEvent<H>>)
    ensures
        running_after(true, events) <==> forall|i: int|
            0 <= i < events.len() ==> !(#[trigger] events[i] is Shutdown),
    decreases events.len(),
{
    if events.len() > 0 {
        let earlier = events.drop_last();
        lemma_actor_runs_until_shutdown(earlier);
        if running_after(true, events) {
            assert forall|i: int| 0 <= i < events.len() implies !(#[trigger] events[i]
                is Shutdown) by {
                if i < earlier.len() {
                    assert(earlier[i] == events[i]);
                }
            }
        } else if running_after(true, earlier) {
            assert(events[events.len() - 1] is Shutdown);
        } else {
            let i = choose|i: int| 0 <= i < earlier.len() && #[trigger] earlier[i] is Shutdown;
            assert(events[i] is Shutdown);
        }
    }
}

/// Nothing that is sent to an actor after a shutdown is looked at, and what
/// is sent before it is dealt with whatever comes later: the reaction to an
/// event depends on the events before it alone.
pub proof fn lemma_nothing_is_taken_after_shutdown<H>(
    events: Seq<DiscordEvent<H>>,
    at: int,
    context: Context,
)
    requires
        0 <= at < events.len(),
    ensures
        (forall|i: int| 0 <= i < at ==> !(#[trigger] events[i] is Shutdown)) ==> last_reaction(
            events.take(at + 1),
            context,
        ) == spec_react(events[at], context),
        (exists|i: int| 0 <= i < at && #[trigger] events[i] is Shutdown) ==> last_reaction(
            events.take(at + 1),
            context,
        ) == ReactionView::Stopped,
{
    let upto = events.take(at + 1);
    let earlier = upto.drop_last();
    assert(earlier =~= events.take(at));
    assert(upto.last() == events[at]);
    lemma_actor_runs_until_shutdown(earlier);
    if forall|i: int| 0 <= i < at ==> !(#[trigger] events[i] is Shutdown) {
        assert forall|i: int| 0 <= i < earlier.len() implies !(#[trigger] earlier[i]
            is Shutdown) by {
            assert(earlier[i] == events[i]);
        }
    }
    if exists|i: int| 0 <= i < at && #[trigger] events[i] is Shutdown {
        let i = choose|i: int| 0 <= i < at && #[trigger] events[i] is Shutdown;
        assert(earlier[i] is Shutdown);
    }
}

} // verus!
