use std::sync::atomic::Ordering;
use timebot::discord_bot::guilds::GuildHandler;
use timebot::discord_bot::handler::{GuildCreation, Handler, Provision, Provisions, Report};
use timebot::discord_bot::manager::{DiscordBot, DiscordBotBuilder, DiscordEvent, Supervisor, Wait};
use timebot::discord_bot::model::{
    CommandData, CommandDataOptionValue, CommandInteraction, Interaction, Message,
};
use timebot::discord_bot::utils::BotDiscordId;
use timebot::healthcheck::{health_status, HealthStatus, Healthcheck, GRACE_SECS};
use timebot::state::AppState;

#[test]
fn the_bot_id_is_kept_as_given() {
    assert_eq!(BotDiscordId::new(0).get(), 0);
    assert_eq!(BotDiscordId::new(1234567890123456789).get(), 1234567890123456789);
    assert_eq!(BotDiscordId::new(u64::MAX).get(), u64::MAX);
}

#[test]
fn a_bot_needs_its_token_and_its_state() {
    let nothing: DiscordBotBuilder<u8> = DiscordBot::builder();
    assert_eq!(nothing.build().err(), Some(String::from("No token provided")));
    let only_state = DiscordBot::builder().state(5u8);
    assert_eq!(only_state.build().err(), Some(String::from("No token provided")));
    let only_token = DiscordBot::<u8>::builder().discord_token(String::from("secret"));
    assert_eq!(only_token.build().err(), Some(String::from("No app state provided")));
    let unset: DiscordBotBuilder<u8> = DiscordBotBuilder::default();
    assert_eq!(unset.build().err(), Some(String::from("No token provided")));
}

#[test]
fn a_bot_is_built_from_its_token_and_its_state() {
    let bot = DiscordBot::builder()
        .state(5u8)
        .discord_token(String::from("first"))
        .discord_token(String::from("secret"))
        .build();
    match bot {
        Ok(bot) => {
            assert_eq!(bot.discord_token(), "secret");
            assert_eq!(*bot.state(), 5);
            let supervisor: Supervisor<u8> = bot.supervisor();
            assert_eq!(supervisor.num_registered(), 0);
            assert_eq!(supervisor.wait(true), Wait::Event);
        },
        Err(reason) => panic!("not built: {}", reason),
    }
}

#[test]
fn a_process_is_healthy_after_the_grace_window_or_with_a_connection() {
    assert_eq!(GRACE_SECS, 60);
    assert_eq!(health_status(0, 0), HealthStatus::NotEnoughServers);
    assert_eq!(health_status(59, 0), HealthStatus::NotEnoughServers);
    assert_eq!(health_status(60, 0), HealthStatus::Healthy);
    assert_eq!(health_status(61, 0), HealthStatus::Healthy);
    assert_eq!(health_status(u64::MAX, 0), HealthStatus::Healthy);
    assert_eq!(health_status(0, 1), HealthStatus::Healthy);
    assert_eq!(health_status(59, u64::MAX), HealthStatus::Healthy);
    assert_eq!(health_status(3600, 12), HealthStatus::Healthy);
}

#[test]
fn the_liveness_endpoint_answers_in_words_and_numbers() {
    assert_eq!(HealthStatus::Healthy.status_code(), 200);
    assert_eq!(HealthStatus::Healthy.reply(), "OK");
    assert_eq!(HealthStatus::NotEnoughServers.status_code(), 500);
    assert_eq!(HealthStatus::NotEnoughServers.reply(), "NOT OK - NOT ENOUGH SERVERS");
}

#[test]
fn a_liveness_check_reads_the_counter_of_the_state_it_was_given() {
    let state = AppState::new();
    let built = Healthcheck::builder().state(state.clone()).build();
    let healthcheck = match built {
        Ok(healthcheck) => healthcheck,
        Err(never) => match never {},
    };
    assert_eq!(healthcheck.check(), HealthStatus::NotEnoughServers);
    state.num_connected.store(1, Ordering::Relaxed);
    assert_eq!(healthcheck.check(), HealthStatus::Healthy);
    state.num_connected.store(0, Ordering::Relaxed);
    assert_eq!(healthcheck.check(), HealthStatus::NotEnoughServers);
}

#[test]
fn a_new_state_counts_no_connections() {
    let state = AppState::new();
    assert_eq!(state.num_connected.load(Ordering::Relaxed), 0);
    assert!(state.start_time.elapsed().as_secs() < 5);
    let copy = state.clone();
    copy.num_connected.store(3, Ordering::Relaxed);
    assert_eq!(state.num_connected.load(Ordering::Relaxed), 3);
    assert_eq!(copy.start_time, state.start_time);
}

#[test]
fn a_joined_guild_waits_for_the_identity_of_the_bot() {
    let handler = Handler;
    let unset = Provisions { bot_id: None, has_sender: false, has_state: false };
    assert_eq!(handler.guild_create(&unset, 42), GuildCreation::AwaitIdentity);
    let waiting = Provisions { bot_id: None, has_sender: true, has_state: true };
    assert_eq!(handler.guild_create(&waiting, 42), GuildCreation::AwaitIdentity);
    let (known, id) = handler.ready(waiting, 1001);
    assert_eq!(known, Provisions { bot_id: Some(1001), has_sender: true, has_state: true });
    assert_eq!(id.get(), 1001);
    assert_eq!(handler.guild_create(&known, 42), GuildCreation::Start { guild_id: 42, bot_id: 1001 });
    let (again, id) = handler.ready(known, 2002);
    assert_eq!(again, known);
    assert_eq!(id.get(), 1001);
}

#[test]
fn a_joined_guild_needs_the_mailbox_and_the_state() {
    let handler = Handler;
    let bare = Provisions { bot_id: Some(1), has_sender: false, has_state: false };
    assert_eq!(handler.guild_create(&bare, 42), GuildCreation::Missing(Provision::InternalSender));
    let no_state = Provisions { bot_id: Some(1), has_sender: true, has_state: false };
    assert_eq!(handler.guild_create(&no_state, 42), GuildCreation::Missing(Provision::AppState));
    let no_sender = Provisions { bot_id: Some(1), has_sender: false, has_state: true };
    assert_eq!(
        handler.guild_create(&no_sender, 42),
        GuildCreation::Missing(Provision::InternalSender)
    );
}

#[test]
fn reports_of_the_gateway_become_events_for_the_supervisor() {
    let handler = Handler;
    let ready = Provisions { bot_id: Some(1), has_sender: true, has_state: true };
    let blind = Provisions { bot_id: Some(1), has_sender: false, has_state: true };
    let ping = CommandInteraction {
        id: 1,
        token: String::from("t"),
        guild_id: Some(42),
        channel_id: 2,
        data: CommandData { name: String::from("ping"), options: vec![] },
    };
    assert_eq!(
        handler.interaction_create::<u8>(&ready, Interaction::Command(ping.clone())),
        Report::Send(DiscordEvent::Interaction(Box::new(Interaction::Command(ping.clone()))))
    );
    assert_eq!(
        handler.interaction_create::<u8>(&blind, Interaction::Command(ping)),
        Report::Missing(Provision::InternalSender)
    );
    let note = Message {
        id: 1,
        guild_id: None,
        channel_id: 2,
        author_id: 3,
        content: String::from("hi"),
    };
    assert_eq!(
        handler.message::<u8>(&ready, note.clone()),
        Report::Send(DiscordEvent::Message(Box::new(note.clone())))
    );
    assert_eq!(handler.message::<u8>(&blind, note), Report::Missing(Provision::InternalSender));
    assert_eq!(handler.guild_delete::<u8>(&ready, 42), Report::Send(DiscordEvent::DeletedGuild(42)));
    assert_eq!(handler.guild_delete::<u8>(&blind, 42), Report::Missing(Provision::InternalSender));
    assert_eq!(
        handler.guild_started(GuildHandler::new(42, 7u8)),
        DiscordEvent::NewGuild(GuildHandler { guild_id: 42, internal_tx: 7u8 })
    );
}

#[test]
fn only_a_text_value_reads_as_text() {
    assert_eq!(CommandDataOptionValue::String(String::from("x")).as_str(), Some("x"));
    assert_eq!(CommandDataOptionValue::String(String::new()).as_str(), Some(""));
    assert_eq!(CommandDataOptionValue::Integer(1).as_str(), None);
    assert_eq!(CommandDataOptionValue::Boolean(true).as_str(), None);
    assert_eq!(CommandDataOptionValue::Other.as_str(), None);
    assert_eq!(Interaction::Ping.guild_id(), None);
}
