//! The supervisor of all guild actors. It owns the table from guild identity
//! to actor handle and decides what becomes of every event the gateway hands
//! it. The decisions are made here, one event at a time; the program around
//! the library waits for events, delivers what is forwarded and closes the
//! actors that are handed back.

use std::collections::HashMap;
use vstd::multiset::Multiset;
use vstd::prelude::*;
use vstd::std_specs::hash::*;
use vstd::std_specs::iter::IteratorSpec;
use crate::discord_bot::guilds::GuildHandler;
use crate::discord_bot::model::{Interaction, Message};

verus! {

/// An event that travels between the gateway, the supervisor and the guild
/// actors.
#[derive(Debug, PartialEq, Eq)]
pub enum DiscordEvent<H> {
    /// The bot joined a guild; its actor is to be supervised.
    NewGuild(GuildHandler<H>),
    /// The bot left a guild; its actor is to be retired.
    DeletedGuild(u64),
    /// A user interaction, to be handled by the actor of its guild.
    Interaction(Box<Interaction>),
    /// A chat message, to be handled by the actor of its guild.
    Message(Box<Message>),
    /// All activity is to cease.
    Shutdown,
}

impl<H> DiscordEvent<H> {
    /// Whether the event carries something for a guild actor to handle.
    pub open spec fn is_payload(self) -> bool {
        self is Interaction || self is Message
    }

    /// The guild whose actor a payload is addressed to. Lifecycle events, a
    /// ping and payloads from outside any guild are addressed to none.
    pub open spec fn destination(self) -> Option<u64> {
        match self {
            DiscordEvent::Interaction(interaction) => interaction.guild(),
            DiscordEvent::Message(message) => message.guild_id,
            _ => None,
        }
    }
}

/// Why an event was dropped. Each drop is reported once, for the log.
#[derive(Debug, Clone, Copy, PartialEq, Eq, Structural)]
pub enum DropReason {
    /// A guild was to be retired that has no actor.
    DeleteOfUnknownGuild(u64),
    /// The platform's ping arrived as an interaction.
    PingInteraction,
    /// An interaction from outside any guild.
    InteractionWithoutGuild,
    /// A message from outside any guild.
    MessageWithoutGuild,
    /// A payload addressed to a guild that has no actor.
    UnknownGuild(u64),
}

/// What the supervisor decided about one event.
#[derive(Debug, PartialEq, Eq)]
pub enum Routing<H> {
    /// The actor was entered into the table under this identity.
    Registered(u64),
    /// The guild already has an actor. The table is as it was, the second
    /// handle is handed back, and the supervisor has halted: it routes no
    /// further event.
    Duplicate(GuildHandler<H>),
    /// The actor has left the table and is to be closed within the timeout.
    Close { actor: GuildHandler<H>, timeout_secs: u64 },
    /// The event is to be put, unchanged, into the mailbox of this guild's actor.
    Forward { guild_id: u64, event: DiscordEvent<H> },
    /// The event goes nowhere.
    Dropped(DropReason),
    /// Every actor has left the table; each is to be told to shut down and
    /// closed within the timeout.
    Shutdown { actors: Vec<GuildHandler<H>>, timeout_secs: u64 },
}

/// The routing state of a supervisor.
pub struct SupervisorState<H> {
    /// The actor table.
    pub actors: Map<u64, GuildHandler<H>>,
    /// The guilds whose actors are being closed, one entry per close under way.
    pub closing: Multiset<u64>,
    /// Whether a shutdown has been received.
    pub stopping: bool,
    /// Whether a guild was registered a second time. A supervisor that has
    /// halted stays as it is.
    pub halted: bool,
    /// The time every close is given.
    pub close_timeout_secs: u64,
}

impl<H> SupervisorState<H> {
    /// Every actor stands in the table under its own identity, and once a
    /// shutdown has been received the table stays empty.
    pub open spec fn wf(self) -> bool {
        &&& self.actors.dom().finite()
        &&& forall|id: u64| #[trigger]
            self.actors.contains_key(id) ==> self.actors[id].guild_id == id
        &&& self.stopping ==> self.actors =~= Map::empty()
    }

    /// The state before any event.
    pub open spec fn initial(close_timeout_secs: u64) -> Self {
        SupervisorState {
            actors: Map::empty(),
            closing: Multiset::empty(),
            stopping: false,
            halted: false,
            close_timeout_secs,
        }
    }

    /// The actor a payload is delivered to: the one of its destination, as
    /// long as that guild is in the table and the supervisor has not halted.
    pub open spec fn delivers_to(self, event: DiscordEvent<H>) -> Option<u64> {
        match event.destination() {
            Some(id) if !self.halted && self.actors.contains_key(id) => Some(id),
            _ => None,
        }
    }

    /// The state after one event. A second registration of a guild halts the
    /// supervisor and leaves the table alone; once halted, the state stays
    /// as it is.
    pub open spec fn next(self, event: DiscordEvent<H>) -> Self {
        if self.halted {
            self
        } else {
            self.routed(event)
        }
    }

    /// The state after one event that a supervisor takes that has not halted.
    pub open spec fn routed(self, event: DiscordEvent<H>) -> Self {
        match event {
            DiscordEvent::NewGuild(handler) => {
                if self.stopping {
                    SupervisorState { closing: self.closing.insert(handler.guild_id), ..self }
                } else if self.actors.contains_key(handler.guild_id) {
                    SupervisorState { halted: true, ..self }
                } else {
                    SupervisorState {
                        actors: self.actors.insert(handler.guild_id, handler),
                        ..self
                    }
                }
            },
            DiscordEvent::DeletedGuild(id) => {
                if self.actors.contains_key(id) {
                    SupervisorState {
                        actors: self.actors.remove(id),
                        closing: self.closing.insert(id),
                        ..self
                    }
                } else {
                    self
                }
            },
            DiscordEvent::Shutdown => SupervisorState {
                actors: Map::empty(),
                closing: self.closing.add(Multiset::from_set(self.actors.dom())),
                stopping: true,
                ..self
            },
            _ => self,
        }
    }

    /// Whether `routing` is the decision that a supervisor in this state,
    /// which has not halted, owes `event`.
    pub open spec fn decides(self, event: DiscordEvent<H>, routing: Routing<H>) -> bool {
        match event {
            DiscordEvent::NewGuild(handler) => {
                if self.stopping {
                    routing == (Routing::Close {
                        actor: handler,
                        timeout_secs: self.close_timeout_secs,
                    })
                } else if self.actors.contains_key(handler.guild_id) {
                    routing == Routing::Duplicate(handler)
                } else {
                    routing == Routing::<H>::Registered(handler.guild_id)
                }
            },
            DiscordEvent::DeletedGuild(id) => {
                if self.actors.contains_key(id) {
                    routing == (Routing::Close {
                        actor: self.actors[id],
                        timeout_secs: self.close_timeout_secs,
                    })
                } else {
                    routing == Routing::<H>::Dropped(DropReason::DeleteOfUnknownGuild(id))
                }
            },
            DiscordEvent::Interaction(interaction) => {
                if *interaction is Ping {
                    routing == Routing::<H>::Dropped(DropReason::PingInteraction)
                } else {
                    match interaction.guild() {
                        None => routing == Routing::<H>::Dropped(
                            DropReason::InteractionWithoutGuild,
                        ),
                        Some(id) => if self.actors.contains_key(id) {
                            routing == (Routing::Forward { guild_id: id, event })
                        } else {
                            routing == Routing::<H>::Dropped(DropReason::UnknownGuild(id))
                        },
                    }
                }
            },
            DiscordEvent::Message(message) => {
                match message.guild_id {
                    None => routing == Routing::<H>::Dropped(DropReason::MessageWithoutGuild),
                    Some(id) => if self.actors.contains_key(id) {
                        routing == (Routing::Forward { guild_id: id, event })
                    } else {
                        routing == Routing::<H>::Dropped(DropReason::UnknownGuild(id))
                    },
                }
            },
            DiscordEvent::Shutdown => {
                &&& routing matches Routing::Shutdown { actors, timeout_secs }
                &&& timeout_secs == self.close_timeout_secs
                &&& actors@.len() == self.actors.dom().len()
                &&& forall|i: int|
                    0 <= i < actors@.len() ==> self.actors.contains_key(
                        (#[trigger] actors@[i]).guild_id,
                    ) && self.actors[actors@[i].guild_id] == actors@[i]
                &&& forall|i: int, j: int|
                    0 <= i < j < actors@.len() ==> (#[trigger] actors@[i]).guild_id != (
                    #[trigger] actors@[j]).guild_id
            },
        }
    }
}

/// The supervisor: the actor table, the closes under way, and whether a
/// shutdown has been received.
pub struct Supervisor<H> {
    guild_handlers: HashMap<u64, GuildHandler<H>>,
    closing: Vec<u64>,
    stopping: bool,
    halted: bool,
    close_timeout_secs: u64,
}

impl<H> View for Supervisor<H> {
    type V = SupervisorState<H>;

    closed spec fn view(&self) -> SupervisorState<H> {
        SupervisorState {
            actors: self.guild_handlers@,
            closing: self.closing@.to_multiset(),
            stopping: self.stopping,
            halted: self.halted,
            close_timeout_secs: self.close_timeout_secs,
        }
    }
}

/// How a close that the supervisor asked for ended.
#[derive(Debug, Clone, Copy, PartialEq, Eq, Structural)]
pub enum CloseOutcome {
    /// The actor's loop ended within the timeout.
    Closed,
    /// The timeout ran out and the actor's task was cancelled.
    TimedOut,
}

/// What the supervisor makes of the end of a close.
#[derive(Debug, Clone, Copy, PartialEq, Eq, Structural)]
pub enum CloseReport {
    /// The close is no longer under way; nothing is to be logged.
    Settled,
    /// The close is no longer under way; its timeout is to be logged.
    TimedOut,
    /// No close was under way for that guild; nothing was changed.
    Unknown,
}

/// What the supervisor's loop waits for next.
#[derive(Debug, Clone, Copy, PartialEq, Eq, Structural)]
pub enum Wait {
    /// The next event, or the end of any close under way.
    EventOrClose,
    /// The next event; no close is under way.
    Event,
    /// The end of a close; no further event can arrive.
    Close,
    /// A shutdown was received and every close has ended: the loop is done.
    Finished,
    /// A guild was registered a second time: the supervisor has halted and
    /// must not go on.
    Halted,
    /// No event can arrive, no close is under way and no shutdown was
    /// received: the routing core is dead and the supervisor must not go on.
    Exhausted,
}

impl<H> SupervisorState<H> {
    /// The state after the close of `guild_id` has ended.
    pub open spec fn after_close(self, guild_id: u64) -> Self {
        if self.closing.count(guild_id) > 0 {
            SupervisorState { closing: self.closing.remove(guild_id), ..self }
        } else {
            self
        }
    }

    /// What is made of the end of a close of `guild_id`.
    pub open spec fn close_report(self, guild_id: u64, outcome: CloseOutcome) -> CloseReport {
        if self.closing.count(guild_id) == 0 {
            CloseReport::Unknown
        } else if outcome == CloseOutcome::Closed {
            CloseReport::Settled
        } else {
            CloseReport::TimedOut
        }
    }

    /// What the loop waits for, given whether the mailbox can still yield
    /// events.
    pub open spec fn wait(self, mailbox_open: bool) -> Wait {
        if self.halted {
            Wait::Halted
        } else if self.closing.len() > 0 {
            if mailbox_open {
                Wait::EventOrClose
            } else {
                Wait::Close
            }
        } else if self.stopping {
            Wait::Finished
        } else if mailbox_open {
            Wait::Event
        } else {
            Wait::Exhausted
        }
    }
}

impl<H> Supervisor<H> {
    /// The routing invariant of the state holds.
    pub open spec fn wf(&self) -> bool {
        self@.wf()
    }

    /// A supervisor of no guilds that gives every close `close_timeout_secs`.
    pub fn with_close_timeout(close_timeout_secs: u64) -> (supervisor: Self)
        ensures
            supervisor.wf(),
            supervisor@ == SupervisorState::<H>::initial(close_timeout_secs),
    {
        broadcast use group_hash_axioms;

        let supervisor = Supervisor {
            guild_handlers: HashMap::new(),
            closing: Vec::new(),
            stopping: false,
            halted: false,
            close_timeout_secs,
        };
        assert(supervisor.closing@.to_multiset() =~= Multiset::empty()) by {
            supervisor.closing@.to_multiset_ensures();
        }
        supervisor
    }

    /// A supervisor of no guilds that gives every close five seconds.
    pub fn new() -> (supervisor: Self)
        ensures
            supervisor.wf(),
            supervisor@ == SupervisorState::<H>::initial(5),
    {
        Self::with_close_timeout(5)
    }

    /// Whether the guild has an actor in the table.
    pub fn is_registered(&self, guild_id: u64) -> (registered: bool)
        ensures
            registered == self@.actors.contains_key(guild_id),
    {
        broadcast use group_hash_axioms;

        self.guild_handlers.contains_key(&guild_id)
    }

    /// The handle of the guild's actor, if the guild is in the table.
    pub fn handler(&self, guild_id: u64) -> (handler: Option<&GuildHandler<H>>)
        ensures
            handler.is_some() == self@.actors.contains_key(guild_id),
            handler matches Some(h) ==> *h == self@.actors[guild_id],
    {
        broadcast use group_hash_axioms;

        self.guild_handlers.get(&guild_id)
    }

    /// The number of actors in the table.
    pub fn num_registered(&self) -> (count: usize)
        ensures
            count == self@.actors.dom().len(),
    {
        broadcast use group_hash_axioms;

        self.guild_handlers.len()
    }

    /// Whether the supervisor has halted over a second registration.
    pub fn is_halted(&self) -> (halted: bool)
        ensures
            halted == self@.halted,
    {
        self.halted
    }

    /// Whether a shutdown has been received.
    pub fn is_stopping(&self) -> (stopping: bool)
        ensures
            stopping == self@.stopping,
    {
        self.stopping
    }

    /// The time every close is given, in seconds.
    pub fn close_timeout_secs(&self) -> (secs: u64)
        ensures
            secs == self@.close_timeout_secs,
    {
        self.close_timeout_secs
    }

    /// The number of closes under way.
    pub fn num_closing(&self) -> (count: usize)
        ensures
            count == self@.closing.len(),
    {
        proof {
            self.closing@.to_multiset_ensures();
        }
        self.closing.len()
    }

    /// The ids of all actors in the table, each once, in no particular order.
    fn registered_ids(&self) -> (ids: Vec<u64>)
        ensures
            ids@.no_duplicates(),
            ids@.to_set() == self@.actors.dom(),
    {
        broadcast use group_hash_axioms;

        let mut ids: Vec<u64> = Vec::new();
        for id in it: self.guild_handlers.keys()
            invariant
                ids@.len() == it.index(),
                forall|j: int| 0 <= j < ids@.len() ==> ids@[j] == *it.seq()[j],
        {
            ids.push(*id);
        }
        assert(ids@ =~= self.guild_handlers.keys().remaining().unref());
        ids
    }

    /// Takes every actor out of the table and enters a close for each.
    fn retire_all(&mut self) -> (actors: Vec<GuildHandler<H>>)
        requires
            old(self).wf(),
        ensures
            final(self)@ == old(self)@.routed(DiscordEvent::Shutdown),
            old(self)@.decides(
                DiscordEvent::Shutdown,
                Routing::Shutdown { actors, timeout_secs: old(self).close_timeout_secs },
            ),
    {
        broadcast use group_hash_axioms;

        let ids = self.registered_ids();
        let ghost before = self@;
        let ghost closing_before = self.closing@;
        let mut actors: Vec<GuildHandler<H>> = Vec::new();
        let mut k: usize = 0;
        proof {
            assert forall|j: int| 0 <= j < ids@.len() implies self.guild_handlers@.contains_key(
                #[trigger] ids@[j],
            ) by {
                assert(ids@.to_set().contains(ids@[j]));
            }
        }
        while k < ids.len()
            invariant
                0 <= k <= ids@.len(),
                ids@.no_duplicates(),
                self.stopping == before.stopping,
                self.halted == before.halted,
                self.close_timeout_secs == before.close_timeout_secs,
                self.closing@ == closing_before + ids@.subrange(0, k as int),
                actors@.len() == k,
                forall|j: int|
                    0 <= j < k ==> (#[trigger] actors@[j]) == before.actors[ids@[j]],
                forall|j: int|
                    0 <= j < k ==> !self.guild_handlers@.contains_key(#[trigger] ids@[j]),
                forall|j: int|
                    k <= j < ids@.len() ==> self.guild_handlers@.contains_key(
                        #[trigger] ids@[j],
                    ),
                forall|id: u64| #[trigger]
                    self.guild_handlers@.contains_key(id) ==> before.actors.contains_key(id)
                        && self.guild_handlers@[id] == before.actors[id],
            decreases ids@.len() - k,
        {
            let id = ids[k];
            let removed = self.guild_handlers.remove(&id);
            self.closing.push(id);
            proof {
                assert(ids@.subrange(0, k + 1) =~= ids@.subrange(0, k as int).push(id));
                assert(self.closing@ =~= closing_before + ids@.subrange(0, k + 1));
            }
            match removed {
                Some(actor) => {
                    actors.push(actor);
                },
                None => {
                    proof {
                        assert(false);
                    }
                },
            }
            k = k + 1;
        }
        self.stopping = true;
        proof {
            assert(ids@.subrange(0, ids@.len() as int) =~= ids@);
            assert(self.guild_handlers@ =~= Map::empty()) by {
                assert forall|id: u64| !self.guild_handlers@.contains_key(id) by {
                    if self.guild_handlers@.contains_key(id) {
                        assert(ids@.to_set().contains(id));
                        let j = choose|j: int| 0 <= j < ids@.len() && ids@[j] == id;
                        assert(!self.guild_handlers@.contains_key(ids@[j]));
                    }
                }
            }
            ids@.lemma_multiset_has_no_duplicates();
            ids@.to_multiset_ensures();
            vstd::seq_lib::lemma_multiset_commutative(closing_before, ids@);
            assert(ids@.to_multiset() =~= Multiset::from_set(before.actors.dom())) by {
                let dom = before.actors.dom();
                assert(Map::new(|k: u64| dom.contains(k), |v: u64| 1nat).dom() =~= dom);
                assert forall|id: u64|
                    ids@.to_multiset().count(id) == Multiset::from_set(dom).count(id) by {
                    if before.actors.dom().contains(id) {
                        assert(ids@.to_set().contains(id));
                        assert(ids@.contains(id));
                    } else {
                        assert(!ids@.to_set().contains(id));
                        assert(!ids@.contains(id));
                    }
                }
            }
            ids@.unique_seq_to_set();
            assert forall|i: int, j: int| 0 <= i < j < actors@.len() implies (
            #[trigger] actors@[i]).guild_id != (#[trigger] actors@[j]).guild_id by {
                assert(ids@.to_set().contains(ids@[i]));
                assert(ids@.to_set().contains(ids@[j]));
            }
            assert forall|i: int| 0 <= i < actors@.len() implies before.actors.contains_key(
                (#[trigger] actors@[i]).guild_id,
            ) && before.actors[actors@[i].guild_id] == actors@[i] by {
                assert(ids@.to_set().contains(ids@[i]));
            }
        }
        actors
    }

    /// Decides what becomes of one event, and brings the table and the set of
    /// closes under way up to date with the decision.
    ///
    /// A new guild is registered unless it is already in the table, in which
    /// case the table is left alone, the handle comes back as a duplicate and
    /// the supervisor halts: it takes no event after that.
    /// A deleted guild leaves the table before its actor is handed back to be
    /// closed. A payload is forwarded, unchanged, to the actor of its guild and
    /// dropped when that guild has no actor. A shutdown empties the table and
    /// hands every actor back.
    pub fn route(&mut self, event: DiscordEvent<H>) -> (routing: Routing<H>)
        requires
            old(self).wf(),
            !old(self)@.halted,
        ensures
            final(self).wf(),
            final(self)@ == old(self)@.next(event),
            old(self)@.decides(event, routing),
    {
        broadcast use group_hash_axioms;

        proof {
            self.closing@.to_multiset_ensures();
        }
        match event {
            DiscordEvent::NewGuild(handler) => {
                let key = handler.guild_id;
                if self.stopping {
                    self.closing.push(key);
                    Routing::Close { actor: handler, timeout_secs: self.close_timeout_secs }
                } else if self.guild_handlers.contains_key(&key) {
                    self.halted = true;
                    Routing::Duplicate(handler)
                } else {
                    self.guild_handlers.insert(key, handler);
                    Routing::Registered(key)
                }
            },
            DiscordEvent::DeletedGuild(guild) => {
                match self.guild_handlers.remove(&guild) {
                    Some(actor) => {
                        self.closing.push(guild);
                        Routing::Close { actor, timeout_secs: self.close_timeout_secs }
                    },
                    None => {
                        assert(self.guild_handlers@ =~= old(self).guild_handlers@);
                        Routing::Dropped(DropReason::DeleteOfUnknownGuild(guild))
                    },
                }
            },
            DiscordEvent::Interaction(interaction) => {
                if let Interaction::Ping = *interaction {
                    return Routing::Dropped(DropReason::PingInteraction);
                }
                match interaction.guild_id() {
                    None => Routing::Dropped(DropReason::InteractionWithoutGuild),
                    Some(guild_id) => {
                        if self.guild_handlers.contains_key(&guild_id) {
                            Routing::Forward {
                                guild_id,
                                event: DiscordEvent::Interaction(interaction),
                            }
                        } else {
                            Routing::Dropped(DropReason::UnknownGuild(guild_id))
                        }
                    },
                }
            },
            DiscordEvent::Message(message) => {
                match message.guild_id {
                    None => Routing::Dropped(DropReason::MessageWithoutGuild),
                    Some(guild_id) => {
                        if self.guild_handlers.contains_key(&guild_id) {
                            Routing::Forward { guild_id, event: DiscordEvent::Message(message) }
                        } else {
                            Routing::Dropped(DropReason::UnknownGuild(guild_id))
                        }
                    },
                }
            },
            DiscordEvent::Shutdown => {
                let timeout_secs = self.close_timeout_secs;
                let actors = self.retire_all();
                Routing::Shutdown { actors, timeout_secs }
            },
        }
    }

    /// Takes note that a close of `guild_id` has ended. One entry for the
    /// guild leaves the set of closes under way, whichever way the close
    /// ended; the actor table is not touched.
    pub fn close_finished(&mut self, guild_id: u64, outcome: CloseOutcome) -> (report:
        CloseReport)
        requires
            old(self).wf(),
        ensures
            final(self).wf(),
            final(self)@ == old(self)@.after_close(guild_id),
            report == old(self)@.close_report(guild_id, outcome),
    {
        proof {
            self.closing@.to_multiset_ensures();
        }
        let mut k: usize = 0;
        while k < self.closing.len()
            invariant
                0 <= k <= self.closing@.len(),
                *self == *old(self),
                self.wf(),
                forall|j: int| 0 <= j < k ==> self.closing@[j] != guild_id,
            decreases self.closing@.len() - k,
        {
            if self.closing[k] == guild_id {
                proof {
                    self.closing@.to_multiset_ensures();
                    assert(self.closing@.contains(guild_id));
                }
                self.closing.remove(k);
                return match outcome {
                    CloseOutcome::Closed => CloseReport::Settled,
                    CloseOutcome::TimedOut => CloseReport::TimedOut,
                };
            }
            k = k + 1;
        }
        proof {
            self.closing@.to_multiset_ensures();
            assert(!self.closing@.contains(guild_id));
        }
        CloseReport::Unknown
    }

    /// What the loop is to wait for next, given whether the mailbox can still
    /// yield events. A supervisor that has halted waits for nothing; short of
    /// that, the loop does not end while a close is under way.
    pub fn wait(&self, mailbox_open: bool) -> (wait: Wait)
        ensures
            wait == self@.wait(mailbox_open),
    {
        proof {
            self.closing@.to_multiset_ensures();
        }
        if self.halted {
            return Wait::Halted;
        }
        if self.closing.len() > 0 {
            if mailbox_open {
                Wait::EventOrClose
            } else {
                Wait::Close
            }
        } else if self.stopping {
            Wait::Finished
        } else if mailbox_open {
            Wait::Event
        } else {
            Wait::Exhausted
        }
    }
}

/// Collects what a bot needs before it can run.
pub struct DiscordBotBuilder<T> {
    /// The token that authenticates the bot with the platform.
    discord_token: Option<String>,
    /// The state the bot shares with the rest of the process.
    app_state: Option<T>,
}

impl<T> DiscordBotBuilder<T> {
    /// The token that has been given, if any.
    pub closed spec fn given_token(&self) -> Option<String> {
        self.discord_token
    }

    /// The state that has been given, if any.
    pub closed spec fn given_state(&self) -> Option<T> {
        self.app_state
    }

    /// Sets the token for the bot.
    pub fn discord_token(self, token: String) -> (builder: Self)
        ensures
            builder.given_token() == Some(token),
            builder.given_state() == self.given_state(),
    {
        DiscordBotBuilder { discord_token: Some(token), app_state: self.app_state }
    }

    /// Sets the state the bot shares with the rest of the process.
    pub fn state(self, app_state: T) -> (builder: Self)
        ensures
            builder.given_state() == Some(app_state),
            builder.given_token() == self.given_token(),
    {
        DiscordBotBuilder { discord_token: self.discord_token, app_state: Some(app_state) }
    }

    /// The bot, if both the token and the state have been given. A missing
    /// token is reported before a missing state.
    pub fn build(self) -> (built: Result<DiscordBot<T>, String>)
        ensures
            match built {
                Ok(bot) => Some(bot.token()) == self.given_token() && Some(bot.app_state())
                    == self.given_state(),
                Err(reason) => if self.given_token().is_none() {
                    reason@ == "No token provided"@
                } else {
                    self.given_state().is_none() && reason@ == "No app state provided"@
                },
            },
    {
        let discord_token = match self.discord_token {
            Some(token) => token,
            None => {
                return Err("No token provided".to_owned());
            },
        };
        let app_state = match self.app_state {
            Some(app_state) => app_state,
            None => {
                return Err("No app state provided".to_owned());
            },
        };
        Ok(DiscordBot { discord_token, app_state })
    }
}

impl<T> Default for DiscordBotBuilder<T> {
    fn default() -> (builder: Self)
        ensures
            builder.given_token().is_none(),
            builder.given_state().is_none(),
    {
        DiscordBotBuilder { discord_token: None, app_state: None }
    }
}

/// A bot that is ready to run: it has its token and its share of the
/// process state.
pub struct DiscordBot<T> {
    /// The token that authenticates the bot with the platform.
    discord_token: String,
    /// The state the bot shares with the rest of the process.
    app_state: T,
}

impl<T> DiscordBot<T> {
    /// The token of the bot.
    pub closed spec fn token(&self) -> String {
        self.discord_token
    }

    /// The state of the bot.
    pub closed spec fn app_state(&self) -> T {
        self.app_state
    }

    /// A builder to which nothing has been given yet.
    pub fn builder() -> (builder: DiscordBotBuilder<T>)
        ensures
            builder.given_token().is_none(),
            builder.given_state().is_none(),
    {
        DiscordBotBuilder { discord_token: None, app_state: None }
    }

    /// The token with which the bot connects.
    pub fn discord_token(&self) -> (token: &String)
        ensures
            *token == self.token(),
    {
        &self.discord_token
    }

    /// The state the bot shares with the rest of the process.
    pub fn state(&self) -> (state: &T)
        ensures
            *state == self.app_state(),
    {
        &self.app_state
    }

    /// A supervisor for the guilds of this bot, with an empty table.
    pub fn supervisor<H>(&self) -> (supervisor: Supervisor<H>)
        ensures
            supervisor.wf(),
            supervisor@ == SupervisorState::<H>::initial(5),
    {
        Supervisor::new()
    }
}

} // verus!
