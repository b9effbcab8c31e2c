//! What holds of the supervisor over a whole history of events: which guilds
//! are in the table, what each actor has been sent and in which order, and
//! what a second registration and a retirement come to.

use vstd::prelude::*;
use crate::discord_bot::guilds::GuildHandler;
use crate::discord_bot::manager::{
    CloseOutcome, CloseReport, DiscordEvent, DropReason, Routing, SupervisorState, Wait,
};

verus! {

/// The state that a history of events, oldest first, leaves behind.
pub open spec fn after<H>(start: SupervisorState<H>, events: Seq<DiscordEvent<H>>)
    -> SupervisorState<H>
    decreases events.len(),
{
    if events.len() == 0 {
        start
    } else {
        after(start, events.drop_last()).next(events.last())
    }
}

/// What the actor of `guild` has been sent over a history of events, in the
/// order in which it was sent.
pub open spec fn delivered<H>(
    start: SupervisorState<H>,
    events: Seq<DiscordEvent<H>>,
    guild: u64,
) -> Seq<DiscordEvent<H>>
    decreases events.len(),
{
    if events.len() == 0 {
        Seq::empty()
    } else {
        let earlier = delivered(start, events.drop_last(), guild);
        if after(start, events.drop_last()).delivers_to(events.last()) == Some(guild) {
            earlier.push(events.last())
        } else {
            earlier
        }
    }
}

/// The event reports that the bot joined `guild`.
pub open spec fn creates<H>(event: DiscordEvent<H>, guild: u64) -> bool {
    event matches DiscordEvent::NewGuild(handler) && handler.guild_id == guild
}

/// The event reports that the bot left `guild`.
pub open spec fn deletes<H>(event: DiscordEvent<H>, guild: u64) -> bool {
    event == DiscordEvent::<H>::DeletedGuild(guild)
}

/// The event is a guild joining or leaving.
pub open spec fn is_lifecycle<H>(event: DiscordEvent<H>) -> bool {
    event is NewGuild || event is DeletedGuild
}

/// The guild was created at some point of the history and not deleted since.
pub open spec fn live<H>(events: Seq<DiscordEvent<H>>, guild: u64) -> bool {
    exists|i: int|
        0 <= i < events.len() && #[trigger] creates(events[i], guild) && forall|j: int|
            i < j < events.len() ==> !#[trigger] deletes(events[j], guild)
}

/// One event keeps the routing invariant.
pub proof fn lemma_next_keeps_invariant<H>(state: SupervisorState<H>, event: DiscordEvent<H>)
    requires
        state.wf(),
    ensures
        state.next(event).wf(),
{
}

/// A whole history keeps the routing invariant.
pub proof fn lemma_history_keeps_invariant<H>(
    start: SupervisorState<H>,
    events: Seq<DiscordEvent<H>>,
)
    requires
        start.wf(),
    ensures
        after(start, events).wf(),
    decreases events.len(),
{
    if events.len() > 0 {
        lemma_history_keeps_invariant(start, events.drop_last());
        lemma_next_keeps_invariant(after(start, events.drop_last()), events.last());
    }
}

/// Once a supervisor has halted it stays as it is: no event changes its
/// state, nothing is delivered, and it waits for nothing.
pub proof fn lemma_halt_is_final<H>(
    state: SupervisorState<H>,
    events: Seq<DiscordEvent<H>>,
    guild: u64,
    mailbox_open: bool,
)
    requires
        state.halted,
    ensures
        after(state, events) == state,
        delivered(state, events, guild) == Seq::<DiscordEvent<H>>::empty(),
        state.wait(mailbox_open) == Wait::Halted,
    decreases events.len(),
{
    if events.len() > 0 {
        lemma_halt_is_final(state, events.drop_last(), guild, mailbox_open);
    }
}

/// A decision forwards an event exactly when the state delivers it, and then
/// to the guild the event is addressed to and with the event as it came.
pub proof fn lemma_forwarded_is_delivered<H>(
    state: SupervisorState<H>,
    event: DiscordEvent<H>,
    routing: Routing<H>,
)
    requires
        !state.halted,
        state.decides(event, routing),
    ensures
        routing is Forward <==> state.delivers_to(event) is Some,
        state.delivers_to(event) matches Some(guild) ==> routing == (Routing::Forward {
            guild_id: guild,
            event,
        }) && state.actors.contains_key(guild),
        routing is Forward ==> state.next(event) == state,
{
}

/// How one more lifecycle event changes which guilds are live.
proof fn lemma_live_after_one_more<H>(
    earlier: Seq<DiscordEvent<H>>,
    event: DiscordEvent<H>,
    guild: u64,
)
    ensures
        creates(event, guild) ==> live(earlier.push(event), guild),
        deletes(event, guild) ==> !live(earlier.push(event), guild),
        !creates(event, guild) && !deletes(event, guild) ==> (live(earlier.push(event), guild)
            <==> live(earlier, guild)),
{
    let events = earlier.push(event);
    let last = earlier.len() as int;
    assert(events[last] == event);
    if creates(event, guild) {
        assert(creates(events[last], guild));
    } else if deletes(event, guild) {
        if live(events, guild) {
            let i = choose|i: int|
                0 <= i < events.len() && #[trigger] creates(events[i], guild) && forall|j: int|
                    i < j < events.len() ==> !#[trigger] deletes(events[j], guild);
            assert(i < last);
            assert(deletes(events[last], guild));
        }
    } else {
        if live(events, guild) {
            let i = choose|i: int|
                0 <= i < events.len() && #[trigger] creates(events[i], guild) && forall|j: int|
                    i < j < events.len() ==> !#[trigger] deletes(events[j], guild);
            assert(i < last);
            assert(creates(earlier[i], guild));
            assert forall|j: int| i < j < earlier.len() implies !#[trigger] deletes(
                earlier[j],
                guild,
            ) by {
                assert(!deletes(events[j], guild));
            }
        }
        if live(earlier, guild) {
            let i = choose|i: int|
                0 <= i < earlier.len() && #[trigger] creates(earlier[i], guild) && forall|
                    j: int,
                | i < j < earlier.len() ==> !#[trigger] deletes(earlier[j], guild);
            assert(creates(events[i], guild));
            assert forall|j: int| i < j < events.len() implies !#[trigger] deletes(
                events[j],
                guild,
            ) by {
                if j < last {
                    assert(!deletes(earlier[j], guild));
                }
            }
        }
    }
}

/// No guild joins while it is live: every registration in the history is of
/// a guild that was not created before or has been deleted since.
pub open spec fn identities_are_unique<H>(events: Seq<DiscordEvent<H>>) -> bool {
    forall|i: int, guild: u64|
        0 <= i < events.len() && #[trigger] creates(events[i], guild) ==> !live(
            events.take(i),
            guild,
        )
}

/// After any history of guilds joining and leaving in which no guild joins
/// while it is live, told to a supervisor that started with an empty table,
/// the supervisor has not halted and the table holds exactly the guilds that
/// were created and have not been deleted since.
pub proof fn lemma_table_holds_the_live_guilds<H>(
    close_timeout_secs: u64,
    events: Seq<DiscordEvent<H>>,
    guild: u64,
)
    requires
        forall|i: int| 0 <= i < events.len() ==> is_lifecycle(#[trigger] events[i]),
        identities_are_unique(events),
    ensures
        !after(SupervisorState::initial(close_timeout_secs), events).stopping,
        !after(SupervisorState::initial(close_timeout_secs), events).halted,
        after(SupervisorState::initial(close_timeout_secs), events).actors.contains_key(guild)
            <==> live(events, guild),
    decreases events.len(),
{
    if events.len() > 0 {
        let earlier = events.drop_last();
        let last = events.last();
        assert(earlier.push(last) =~= events);
        assert(identities_are_unique(earlier)) by {
            assert forall|i: int, g: u64|
                0 <= i < earlier.len() && #[trigger] creates(earlier[i], g) implies !live(
                earlier.take(i),
                g,
            ) by {
                assert(earlier[i] == events[i]);
                assert(earlier.take(i) =~= events.take(i));
            }
        }
        lemma_table_holds_the_live_guilds(close_timeout_secs, earlier, guild);
        lemma_live_after_one_more(earlier, last, guild);
        if let DiscordEvent::NewGuild(handler) = last {
            let joining = handler.guild_id;
            assert(creates(events[events.len() - 1], joining));
            assert(events.take(events.len() - 1) =~= earlier);
            lemma_table_holds_the_live_guilds(close_timeout_secs, earlier, joining);
        }
    }
}

/// A guild in the table was created at some point of the history.
pub proof fn lemma_registered_was_created<H>(
    close_timeout_secs: u64,
    events: Seq<DiscordEvent<H>>,
    guild: u64,
)
    requires
        after(SupervisorState::initial(close_timeout_secs), events).actors.contains_key(guild),
    ensures
        exists|i: int| 0 <= i < events.len() && #[trigger] creates(events[i], guild),
    decreases events.len(),
{
    if events.len() > 0 {
        let earlier = events.drop_last();
        let before = after(SupervisorState::initial(close_timeout_secs), earlier);
        if before.actors.contains_key(guild) {
            lemma_registered_was_created(close_timeout_secs, earlier, guild);
            let i = choose|i: int| 0 <= i < earlier.len() && #[trigger] creates(earlier[i], guild);
            assert(creates(events[i], guild));
        } else {
            assert(creates(events[events.len() - 1], guild));
        }
    }
}

/// A payload for a guild that was never created is dropped: it is delivered
/// to nobody, the one decision owed to it is a drop that names the guild, and
/// the state is as it was.
pub proof fn lemma_payload_for_unknown_guild_is_dropped<H>(
    close_timeout_secs: u64,
    events: Seq<DiscordEvent<H>>,
    payload: DiscordEvent<H>,
    guild: u64,
)
    requires
        forall|i: int| 0 <= i < events.len() ==> !creates(#[trigger] events[i], guild),
        payload.is_payload(),
        payload.destination() == Some(guild),
    ensures
        ({
            let state = after(SupervisorState::initial(close_timeout_secs), events);
            &&& state.delivers_to(payload) is None
            &&& state.next(payload) == state
            &&& forall|routing: Routing<H>| #[trigger]
                state.decides(payload, routing) ==> routing == Routing::<H>::Dropped(
                    DropReason::UnknownGuild(guild),
                )
        }),
{
    let state = after(SupervisorState::initial(close_timeout_secs), events);
    if state.actors.contains_key(guild) {
        lemma_registered_was_created(close_timeout_secs, events, guild);
    }
}

/// The event neither deletes `guild` nor shuts the supervisor down.
pub open spec fn spares<H>(event: DiscordEvent<H>, guild: u64) -> bool {
    !deletes(event, guild) && !(event is Shutdown)
}

/// A guild stays in the table, under the handle it was registered with, for
/// as long as no event deletes it or shuts the supervisor down.
pub proof fn lemma_registration_lasts<H>(
    start: SupervisorState<H>,
    events: Seq<DiscordEvent<H>>,
    guild: u64,
)
    requires
        start.actors.contains_key(guild),
        !start.stopping,
        forall|i: int| 0 <= i < events.len() ==> spares(#[trigger] events[i], guild),
    ensures
        after(start, events).actors.contains_key(guild),
        after(start, events).actors[guild] == start.actors[guild],
        !after(start, events).stopping,
    decreases events.len(),
{
    if events.len() > 0 {
        lemma_registration_lasts(start, events.drop_last(), guild);
        assert(spares(events[events.len() - 1], guild));
    }
}

/// A second registration of a guild, with no delete of it and no shutdown
/// since the first, is fatal: the one decision owed to it is the duplicate,
/// with the second handle handed back; the table keeps the first handle; and
/// the supervisor has halted, so that it waits for nothing and no later event
/// changes its state.
pub proof fn lemma_second_registration_is_refused<H>(
    start: SupervisorState<H>,
    first: GuildHandler<H>,
    between: Seq<DiscordEvent<H>>,
    second: GuildHandler<H>,
)
    requires
        start.wf(),
        !start.stopping,
        !start.halted,
        !start.actors.contains_key(first.guild_id),
        second.guild_id == first.guild_id,
        forall|i: int| 0 <= i < between.len() ==> spares(#[trigger] between[i], first.guild_id),
    ensures
        ({
            let state = after(start.next(DiscordEvent::NewGuild(first)), between);
            let halted = state.next(DiscordEvent::NewGuild(second));
            &&& state.actors.contains_key(first.guild_id)
            &&& state.actors[first.guild_id] == first
            &&& forall|routing: Routing<H>| #[trigger]
                state.decides(DiscordEvent::NewGuild(second), routing) ==> routing
                    == Routing::Duplicate(second)
            &&& halted.halted
            &&& halted.actors == state.actors
            &&& forall|mailbox_open: bool| #[trigger] halted.wait(mailbox_open) == Wait::Halted
            &&& forall|event: DiscordEvent<H>| #[trigger] halted.next(event) == halted
        }),
{
    lemma_registration_lasts(start.next(DiscordEvent::NewGuild(first)), between, first.guild_id);
}

/// What an actor has been sent only grows: what it was sent over the first
/// `n` events is the beginning of what it is sent over all of them.
pub proof fn lemma_delivered_grows<H>(
    start: SupervisorState<H>,
    events: Seq<DiscordEvent<H>>,
    guild: u64,
    n: int,
)
    requires
        0 <= n <= events.len(),
    ensures
        delivered(start, events.take(n), guild).is_prefix_of(delivered(start, events, guild)),
    decreases events.len() - n,
{
    if n == events.len() {
        assert(events.take(n) =~= events);
    } else {
        assert(events.drop_last().take(n) =~= events.take(n));
        lemma_delivered_grows(start, events.drop_last(), guild, n);
    }
}

/// Within one guild the order of arrival is the order of delivery: of two
/// events that are both delivered to the guild's actor, the one that arrived
/// first stands first in what the actor is sent, whatever arrives for other
/// guilds in between.
pub proof fn lemma_delivery_keeps_order<H>(
    start: SupervisorState<H>,
    events: Seq<DiscordEvent<H>>,
    guild: u64,
    i: int,
    j: int,
)
    requires
        0 <= i < j < events.len(),
        after(start, events.take(i)).delivers_to(events[i]) == Some(guild),
        after(start, events.take(j)).delivers_to(events[j]) == Some(guild),
    ensures
        ({
            let sent = delivered(start, events, guild);
            let a = delivered(start, events.take(i), guild).len() as int;
            let b = delivered(start, events.take(j), guild).len() as int;
            &&& 0 <= a < b < sent.len()
            &&& sent[a] == events[i]
            &&& sent[b] == events[j]
        }),
{
    let upto_i = events.take(i + 1);
    let upto_j = events.take(j + 1);
    assert(upto_i.drop_last() =~= events.take(i));
    assert(upto_j.drop_last() =~= events.take(j));
    assert(upto_i.last() == events[i]);
    assert(upto_j.last() == events[j]);
    assert(upto_j.take(i + 1) =~= upto_i);
    assert(events.take(j).take(i + 1) =~= upto_i);
    lemma_delivered_grows(start, events.take(j), guild, i + 1);
    lemma_delivered_grows(start, events, guild, j + 1);
    let sent = delivered(start, events, guild);
    let before_i = delivered(start, events.take(i), guild);
    let before_j = delivered(start, events.take(j), guild);
    let a = before_i.len() as int;
    let b = before_j.len() as int;
    assert(delivered(start, upto_i, guild) == before_i.push(events[i]));
    assert(delivered(start, upto_j, guild) == before_j.push(events[j]));
    assert(before_i.push(events[i])[a] == events[i]);
    assert(before_j.push(events[j])[b] == events[j]);
    assert(before_j[a] == events[i]);
    assert(before_j.push(events[j])[a] == events[i]);
}

/// A payload leaves the supervisor's state as it was.
pub proof fn lemma_payload_changes_nothing<H>(state: SupervisorState<H>, event: DiscordEvent<H>)
    requires
        event.is_payload(),
    ensures
        state.next(event) == state,
{
}

/// Load from other guilds does not show in what an actor is sent: a payload
/// that is not delivered to `guild` may arrive at any point of the history
/// without changing what the actor of `guild` is sent, or its order.
pub proof fn lemma_other_traffic_does_not_show<H>(
    start: SupervisorState<H>,
    events: Seq<DiscordEvent<H>>,
    guild: u64,
    at: int,
    other: DiscordEvent<H>,
)
    requires
        0 <= at <= events.len(),
        other.is_payload(),
        other.destination() != Some(guild),
    ensures
        after(start, events.insert(at, other)) == after(start, events),
        delivered(start, events.insert(at, other), guild) == delivered(start, events, guild),
    decreases events.len() - at,
{
    let longer = events.insert(at, other);
    if at == events.len() {
        assert(longer.drop_last() =~= events);
        assert(longer.last() == other);
    } else {
        assert(longer.drop_last() =~= events.drop_last().insert(at, other));
        assert(longer.last() == events.last());
        lemma_other_traffic_does_not_show(start, events.drop_last(), guild, at, other);
    }
}

/// A deleted guild has left the table by the time its close is handed out,
/// and the end of that close, however it ends, does not bring it back: one
/// entry leaves the closes under way and the table is not touched.
pub proof fn lemma_removal_comes_before_close<H>(
    state: SupervisorState<H>,
    guild: u64,
    outcome: CloseOutcome,
)
    requires
        state.wf(),
        !state.halted,
        state.actors.contains_key(guild),
    ensures
        ({
            let retired = state.next(DiscordEvent::DeletedGuild(guild));
            &&& !retired.actors.contains_key(guild)
            &&& retired.closing.count(guild) == state.closing.count(guild) + 1
            &&& forall|routing: Routing<H>| #[trigger]
                state.decides(DiscordEvent::DeletedGuild(guild), routing) ==> routing == (
                Routing::Close {
                    actor: state.actors[guild],
                    timeout_secs: state.close_timeout_secs,
                })
            &&& retired.after_close(guild).actors == retired.actors
            &&& retired.after_close(guild).closing == state.closing
            &&& retired.close_report(guild, outcome) != CloseReport::Unknown
        }),
{
    let retired = state.next(DiscordEvent::<H>::DeletedGuild(guild));
    assert(retired.closing.remove(guild) =~= state.closing);
}

/// While a close is under way the loop of a supervisor that has not halted
/// neither finishes nor gives up.
pub proof fn lemma_loop_outlasts_closes<H>(state: SupervisorState<H>, mailbox_open: bool)
    requires
        !state.halted,
        state.closing.len() > 0,
    ensures
        state.wait(mailbox_open) == Wait::EventOrClose || state.wait(mailbox_open) == Wait::Close,
{
}

} // verus!
