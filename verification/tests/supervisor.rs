use timebot::discord_bot::guilds::GuildHandler;
use timebot::discord_bot::manager::{
    CloseOutcome, CloseReport, DiscordEvent, DropReason, Routing, Supervisor, Wait,
};
use timebot::discord_bot::model::{
    CommandData, CommandInteraction, ComponentInteraction, Interaction, Message,
};

fn handle(guild_id: u64, mailbox: &str) -> GuildHandler<String> {
    GuildHandler::new(guild_id, mailbox.to_string())
}

fn request(guild_id: Option<u64>, name: &str) -> DiscordEvent<String> {
    DiscordEvent::Interaction(Box::new(Interaction::Command(CommandInteraction {
        id: 1,
        token: String::from("token"),
        guild_id,
        channel_id: 9,
        data: CommandData { name: name.to_string(), options: vec![] },
    })))
}

fn chat(guild_id: Option<u64>, content: &str) -> DiscordEvent<String> {
    DiscordEvent::Message(Box::new(Message {
        id: 2,
        guild_id,
        channel_id: 9,
        author_id: 3,
        content: content.to_string(),
    }))
}

#[test]
fn a_new_supervisor_has_no_guilds_and_waits_for_events() {
    let supervisor: Supervisor<String> = Supervisor::new();
    assert_eq!(supervisor.num_registered(), 0);
    assert_eq!(supervisor.num_closing(), 0);
    assert!(!supervisor.is_registered(42));
    assert!(supervisor.handler(42).is_none());
    assert_eq!(supervisor.wait(true), Wait::Event);
    assert!(!supervisor.is_stopping());
    assert!(!supervisor.is_halted());
    assert_eq!(supervisor.close_timeout_secs(), 5);
    assert_eq!(Supervisor::<String>::with_close_timeout(0).close_timeout_secs(), 0);
}

#[test]
fn a_new_guild_is_registered_under_its_identity() {
    let mut supervisor = Supervisor::new();
    let routing = supervisor.route(DiscordEvent::NewGuild(handle(42, "a")));
    assert_eq!(routing, Routing::Registered(42));
    assert!(supervisor.is_registered(42));
    assert_eq!(supervisor.num_registered(), 1);
    assert_eq!(supervisor.handler(42), Some(&handle(42, "a")));
}

#[test]
fn the_table_holds_the_guilds_created_and_not_deleted() {
    let mut supervisor = Supervisor::new();
    for id in [1u64, 2, 3, 4] {
        assert_eq!(
            supervisor.route(DiscordEvent::NewGuild(handle(id, "m"))),
            Routing::Registered(id)
        );
    }
    supervisor.route(DiscordEvent::DeletedGuild(2));
    supervisor.route(DiscordEvent::DeletedGuild(4));
    supervisor.route(DiscordEvent::NewGuild(handle(5, "m")));
    supervisor.route(DiscordEvent::NewGuild(handle(2, "again")));
    for (id, live) in [(1u64, true), (2, true), (3, true), (4, false), (5, true), (6, false)] {
        assert_eq!(supervisor.is_registered(id), live);
    }
    assert_eq!(supervisor.num_registered(), 4);
    assert_eq!(supervisor.handler(2), Some(&handle(2, "again")));
}

#[test]
fn a_payload_for_a_guild_never_seen_is_dropped_once() {
    let mut supervisor: Supervisor<String> = Supervisor::new();
    supervisor.route(DiscordEvent::NewGuild(handle(1, "a")));
    assert_eq!(
        supervisor.route(request(Some(99), "ping")),
        Routing::Dropped(DropReason::UnknownGuild(99))
    );
    assert_eq!(
        supervisor.route(chat(Some(99), "hi")),
        Routing::Dropped(DropReason::UnknownGuild(99))
    );
    assert_eq!(supervisor.num_registered(), 1);
    assert_eq!(supervisor.num_closing(), 0);
    assert_eq!(supervisor.wait(true), Wait::Event);
}

#[test]
fn a_second_registration_is_a_duplicate_and_keeps_the_first_handle() {
    let mut supervisor = Supervisor::new();
    assert_eq!(supervisor.route(DiscordEvent::NewGuild(handle(7, "first"))), Routing::Registered(7));
    supervisor.route(request(Some(7), "ping"));
    supervisor.route(DiscordEvent::DeletedGuild(8));
    assert!(!supervisor.is_halted());
    let routing = supervisor.route(DiscordEvent::NewGuild(handle(7, "second")));
    assert_eq!(routing, Routing::Duplicate(handle(7, "second")));
    assert_eq!(supervisor.handler(7), Some(&handle(7, "first")));
    assert_eq!(supervisor.num_registered(), 1);
    assert!(supervisor.is_halted());
    assert_eq!(supervisor.wait(true), Wait::Halted);
    assert_eq!(supervisor.wait(false), Wait::Halted);
}

#[test]
fn a_supervisor_that_has_halted_waits_for_nothing_whatever_is_under_way() {
    let mut supervisor = Supervisor::new();
    supervisor.route(DiscordEvent::NewGuild(handle(1, "a")));
    supervisor.route(DiscordEvent::NewGuild(handle(2, "b")));
    supervisor.route(DiscordEvent::DeletedGuild(1));
    assert_eq!(supervisor.wait(true), Wait::EventOrClose);
    assert_eq!(
        supervisor.route(DiscordEvent::NewGuild(handle(2, "again"))),
        Routing::Duplicate(handle(2, "again"))
    );
    assert!(supervisor.is_halted());
    assert_eq!(supervisor.wait(true), Wait::Halted);
    assert_eq!(supervisor.num_closing(), 1);
    assert_eq!(supervisor.close_finished(1, CloseOutcome::Closed), CloseReport::Settled);
    assert_eq!(supervisor.wait(true), Wait::Halted);
    assert_eq!(supervisor.handler(2), Some(&handle(2, "b")));
}

#[test]
fn registrations_that_are_not_duplicates_do_not_halt() {
    let mut supervisor = Supervisor::new();
    supervisor.route(DiscordEvent::NewGuild(handle(1, "a")));
    supervisor.route(DiscordEvent::NewGuild(handle(2, "b")));
    supervisor.route(DiscordEvent::DeletedGuild(1));
    supervisor.route(DiscordEvent::NewGuild(handle(1, "c")));
    supervisor.route(DiscordEvent::DeletedGuild(9));
    assert!(!supervisor.is_halted());
    supervisor.route(DiscordEvent::Shutdown);
    supervisor.route(DiscordEvent::NewGuild(handle(2, "late")));
    assert!(!supervisor.is_halted());
}

#[test]
fn a_guild_may_register_again_after_it_was_deleted() {
    let mut supervisor = Supervisor::new();
    supervisor.route(DiscordEvent::NewGuild(handle(7, "first")));
    supervisor.route(DiscordEvent::DeletedGuild(7));
    assert_eq!(
        supervisor.route(DiscordEvent::NewGuild(handle(7, "second"))),
        Routing::Registered(7)
    );
    assert_eq!(supervisor.handler(7), Some(&handle(7, "second")));
}

#[test]
fn events_of_one_guild_are_forwarded_in_the_order_of_arrival() {
    let mut supervisor = Supervisor::new();
    supervisor.route(DiscordEvent::NewGuild(handle(1, "one")));
    supervisor.route(DiscordEvent::NewGuild(handle(2, "two")));
    let events = vec![
        chat(Some(1), "A"),
        chat(Some(2), "x"),
        request(Some(2), "ping"),
        chat(Some(1), "B"),
        chat(Some(2), "y"),
        request(Some(1), "say"),
    ];
    let mut to_one = Vec::new();
    let mut to_two = Vec::new();
    for event in events {
        match supervisor.route(event) {
            Routing::Forward { guild_id: 1, event } => to_one.push(event),
            Routing::Forward { guild_id: 2, event } => to_two.push(event),
            other => panic!("not forwarded: {:?}", other),
        }
    }
    assert_eq!(to_one, vec![chat(Some(1), "A"), chat(Some(1), "B"), request(Some(1), "say")]);
    assert_eq!(to_two, vec![chat(Some(2), "x"), request(Some(2), "ping"), chat(Some(2), "y")]);
}

#[test]
fn a_forwarded_payload_is_the_payload_that_came() {
    let mut supervisor = Supervisor::new();
    supervisor.route(DiscordEvent::NewGuild(handle(42, "a")));
    assert_eq!(
        supervisor.route(request(Some(42), "ping")),
        Routing::Forward { guild_id: 42, event: request(Some(42), "ping") }
    );
    assert_eq!(
        supervisor.route(chat(Some(42), "hello")),
        Routing::Forward { guild_id: 42, event: chat(Some(42), "hello") }
    );
    let click = DiscordEvent::Interaction(Box::new(Interaction::Component(ComponentInteraction {
        id: 5,
        token: String::from("t"),
        guild_id: Some(42),
        channel_id: 1,
        custom_id: String::from("button"),
    })));
    match supervisor.route(click) {
        Routing::Forward { guild_id, event: DiscordEvent::Interaction(i) } => {
            assert_eq!(guild_id, 42);
            assert!(matches!(*i, Interaction::Component(ref c) if c.custom_id == "button"));
        },
        other => panic!("not forwarded: {:?}", other),
    }
}

#[test]
fn a_deleted_guild_has_left_the_table_when_its_close_is_handed_out() {
    let mut supervisor = Supervisor::new();
    supervisor.route(DiscordEvent::NewGuild(handle(42, "a")));
    let routing = supervisor.route(DiscordEvent::DeletedGuild(42));
    assert_eq!(routing, Routing::Close { actor: handle(42, "a"), timeout_secs: 5 });
    assert!(!supervisor.is_registered(42));
    assert_eq!(supervisor.num_closing(), 1);
    assert_eq!(supervisor.wait(true), Wait::EventOrClose);
    assert_eq!(supervisor.close_finished(42, CloseOutcome::Closed), CloseReport::Settled);
    assert!(!supervisor.is_registered(42));
    assert_eq!(supervisor.num_closing(), 0);
    assert_eq!(supervisor.wait(true), Wait::Event);
}

#[test]
fn a_close_that_times_out_is_reported_and_settles_all_the_same() {
    let mut supervisor = Supervisor::new();
    supervisor.route(DiscordEvent::NewGuild(handle(1, "a")));
    supervisor.route(DiscordEvent::NewGuild(handle(2, "b")));
    supervisor.route(DiscordEvent::DeletedGuild(1));
    supervisor.route(DiscordEvent::DeletedGuild(2));
    assert_eq!(supervisor.num_closing(), 2);
    assert_eq!(supervisor.close_finished(2, CloseOutcome::TimedOut), CloseReport::TimedOut);
    assert_eq!(supervisor.num_closing(), 1);
    assert!(!supervisor.is_registered(2));
    assert_eq!(supervisor.close_finished(2, CloseOutcome::Closed), CloseReport::Unknown);
    assert_eq!(supervisor.num_closing(), 1);
    assert_eq!(supervisor.close_finished(1, CloseOutcome::Closed), CloseReport::Settled);
    assert_eq!(supervisor.num_closing(), 0);
}

#[test]
fn two_closes_of_one_guild_settle_one_at_a_time() {
    let mut supervisor = Supervisor::new();
    supervisor.route(DiscordEvent::NewGuild(handle(1, "a")));
    supervisor.route(DiscordEvent::DeletedGuild(1));
    supervisor.route(DiscordEvent::NewGuild(handle(1, "b")));
    supervisor.route(DiscordEvent::DeletedGuild(1));
    assert_eq!(supervisor.num_closing(), 2);
    assert_eq!(supervisor.close_finished(1, CloseOutcome::Closed), CloseReport::Settled);
    assert_eq!(supervisor.num_closing(), 1);
    assert_eq!(supervisor.close_finished(1, CloseOutcome::Closed), CloseReport::Settled);
    assert_eq!(supervisor.close_finished(1, CloseOutcome::Closed), CloseReport::Unknown);
}

#[test]
fn deleting_a_guild_that_was_never_created_changes_nothing() {
    let mut supervisor: Supervisor<String> = Supervisor::new();
    let routing = supervisor.route(DiscordEvent::DeletedGuild(42));
    assert_eq!(routing, Routing::Dropped(DropReason::DeleteOfUnknownGuild(42)));
    assert_eq!(supervisor.num_registered(), 0);
    assert_eq!(supervisor.num_closing(), 0);
    assert_eq!(supervisor.wait(true), Wait::Event);
    assert_eq!(supervisor.route(DiscordEvent::NewGuild(handle(42, "a"))), Routing::Registered(42));
}

#[test]
fn an_interaction_for_a_guild_created_and_deleted_is_dropped() {
    let mut supervisor = Supervisor::new();
    supervisor.route(DiscordEvent::NewGuild(handle(7, "a")));
    supervisor.route(DiscordEvent::DeletedGuild(7));
    assert_eq!(
        supervisor.route(request(Some(7), "ping")),
        Routing::Dropped(DropReason::UnknownGuild(7))
    );
}

#[test]
fn payloads_from_outside_any_guild_are_dropped() {
    let mut supervisor: Supervisor<String> = Supervisor::new();
    supervisor.route(DiscordEvent::NewGuild(handle(1, "a")));
    assert_eq!(
        supervisor.route(request(None, "ping")),
        Routing::Dropped(DropReason::InteractionWithoutGuild)
    );
    assert_eq!(supervisor.route(chat(None, "dm")), Routing::Dropped(DropReason::MessageWithoutGuild));
    assert_eq!(
        supervisor.route(DiscordEvent::Interaction(Box::new(Interaction::Ping))),
        Routing::Dropped(DropReason::PingInteraction)
    );
}

#[test]
fn a_shutdown_hands_every_actor_back_and_empties_the_table() {
    let mut supervisor = Supervisor::with_close_timeout(9);
    for id in [3u64, 1, 2] {
        supervisor.route(DiscordEvent::NewGuild(handle(id, "m")));
    }
    supervisor.route(DiscordEvent::DeletedGuild(1));
    match supervisor.route(DiscordEvent::Shutdown) {
        Routing::Shutdown { mut actors, timeout_secs } => {
            assert_eq!(timeout_secs, 9);
            actors.sort_by_key(|a| a.guild_id);
            assert_eq!(actors, vec![handle(2, "m"), handle(3, "m")]);
        },
        other => panic!("not a shutdown: {:?}", other),
    }
    assert!(supervisor.is_stopping());
    assert_eq!(supervisor.num_registered(), 0);
    assert_eq!(supervisor.num_closing(), 3);
    assert_eq!(supervisor.wait(true), Wait::EventOrClose);
    assert_eq!(supervisor.wait(false), Wait::Close);
    for id in [1u64, 2, 3] {
        assert_eq!(supervisor.close_finished(id, CloseOutcome::Closed), CloseReport::Settled);
    }
    assert_eq!(supervisor.wait(true), Wait::Finished);
    assert_eq!(supervisor.wait(false), Wait::Finished);
}

#[test]
fn after_a_shutdown_a_new_guild_is_closed_and_payloads_are_dropped() {
    let mut supervisor = Supervisor::new();
    supervisor.route(DiscordEvent::NewGuild(handle(1, "a")));
    supervisor.route(DiscordEvent::Shutdown);
    assert_eq!(
        supervisor.route(DiscordEvent::NewGuild(handle(2, "b"))),
        Routing::Close { actor: handle(2, "b"), timeout_secs: 5 }
    );
    assert!(!supervisor.is_registered(2));
    assert_eq!(supervisor.num_closing(), 2);
    assert_eq!(
        supervisor.route(request(Some(1), "ping")),
        Routing::Dropped(DropReason::UnknownGuild(1))
    );
}

#[test]
fn a_loop_with_nothing_left_to_wait_for_is_exhausted() {
    let mut supervisor = Supervisor::new();
    assert_eq!(supervisor.wait(false), Wait::Exhausted);
    supervisor.route(DiscordEvent::NewGuild(handle(1, "a")));
    supervisor.route(DiscordEvent::DeletedGuild(1));
    assert_eq!(supervisor.wait(false), Wait::Close);
    supervisor.close_finished(1, CloseOutcome::TimedOut);
    assert_eq!(supervisor.wait(false), Wait::Exhausted);
}
