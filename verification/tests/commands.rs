use timebot::discord_bot::commands::command::{
    application_command, autocomplete, command, conclude, disposition, handle_modal, interaction,
    Command, Continuation, Disposition, Handling,
};
use timebot::discord_bot::commands::hiding::{HideCommand, HIDE_CONTENT};
use timebot::discord_bot::commands::ping::PingCommand;
use timebot::discord_bot::commands::say::SayCommand;
use timebot::discord_bot::commands::schema::{
    CommandOptionType, CommandType, CreateCommand, CreateCommandOption, Permissions, StringChoice,
};
use timebot::discord_bot::commands::time::TimeCommand;
use timebot::discord_bot::commands::util::{
    render, CommandResponse, Context, FailureMessageKind, InteractionReply,
};
use timebot::discord_bot::guilds::{GuildActor, GuildHandler, Reaction};
use timebot::discord_bot::manager::{DiscordEvent, Routing, Supervisor};
use timebot::discord_bot::model::{
    CommandData, CommandDataOption, CommandDataOptionValue, CommandInteraction,
    ComponentInteraction, Interaction, Message, ModalInteraction,
};
use timebot::state::AppState;

fn request(name: &str, options: Vec<CommandDataOption>) -> CommandInteraction {
    CommandInteraction {
        id: 11,
        token: String::from("token"),
        guild_id: Some(42),
        channel_id: 77,
        data: CommandData { name: name.to_string(), options },
    }
}

fn text(name: &str, value: &str) -> CommandDataOption {
    CommandDataOption {
        name: name.to_string(),
        value: CommandDataOptionValue::String(value.to_string()),
    }
}

fn unsupported(what: &str) -> CommandResponse {
    CommandResponse::InternalFailure(what.to_string())
}

#[test]
fn ping_in_a_guild_is_answered_with_pong_once() {
    let mut supervisor = Supervisor::new();
    supervisor.route(DiscordEvent::NewGuild(GuildHandler::new(42, 0u8)));
    let event = DiscordEvent::Interaction(Box::new(Interaction::Command(request("ping", vec![]))));
    let forwarded = match supervisor.route(event) {
        Routing::Forward { guild_id: 42, event } => event,
        other => panic!("not forwarded: {:?}", other),
    };
    let mut actor = GuildActor::new(42);
    let reaction = actor.react(&forwarded, &AppState::new(), &Context::at(0));
    assert_eq!(
        reaction,
        Reaction::Respond(Handling::Done(Ok(CommandResponse::ComplexSuccess(InteractionReply {
            content: String::from("Pong!"),
            ephemeral: true,
        }))))
    );
    assert!(actor.running());
}

#[test]
fn say_sends_the_text_and_confirms_it_to_the_requester() {
    let state = AppState::new();
    let handling = command(&request("say", vec![text("text", "hello")]), &state, &Context::at(0));
    let then = match handling {
        Handling::Send { channel_id, content, then } => {
            assert_eq!(channel_id, 77);
            assert_eq!(content, "hello");
            then
        },
        other => panic!("nothing to send: {:?}", other),
    };
    assert_eq!(then, Continuation::Say { message: String::from("hello") });
    assert_eq!(
        conclude(then, Ok(())),
        Ok(CommandResponse::ComplexSuccess(InteractionReply {
            content: String::from("I will send: hello"),
            ephemeral: true,
        }))
    );
}

#[test]
fn say_reports_a_failed_sending_and_keeps_the_cause_for_the_log() {
    let then = Continuation::Say { message: String::from("hello") };
    assert_eq!(
        conclude(then, Err(String::from("missing access"))),
        Err(CommandResponse::ComplexFailure {
            response: String::from("Failed to use /say due to error"),
            kind: FailureMessageKind::Error,
            log_message: String::from("missing access"),
        })
    );
    assert_eq!(
        SayCommand::confirm("", Ok(())),
        Ok(CommandResponse::ComplexSuccess(InteractionReply {
            content: String::from("I will send: "),
            ephemeral: true,
        }))
    );
}

#[test]
fn say_without_a_text_is_a_parse_failure_answered_as_unsupported() {
    let state = AppState::new();
    let empty = request("say", vec![]);
    assert_eq!(<SayCommand as Command>::try_from(&empty), Err(String::from("No message provided")));
    assert_eq!(disposition(&empty), Disposition::ParseFailure);
    assert_eq!(
        command(&empty, &state, &Context::at(0)),
        Handling::Done(Err(unsupported("Unsupported Command")))
    );
    let number = request(
        "say",
        vec![CommandDataOption {
            name: String::from("text"),
            value: CommandDataOptionValue::Integer(5),
        }],
    );
    assert_eq!(<SayCommand as Command>::try_from(&number), Err(String::from("No message provided")));
    assert_eq!(disposition(&number), Disposition::ParseFailure);
}

#[test]
fn say_reads_its_first_option() {
    let parsed = <SayCommand as Command>::try_from(&request("say", vec![text("text", "a"), text("more", "b")]));
    assert_eq!(parsed.as_ref().map(|c| c.message()), Ok("a"));
}

#[test]
fn a_request_no_command_has_the_name_of_is_unsupported() {
    let state = AppState::new();
    for name in ["", "pong", "Ping", "ping ", "says", "hid"] {
        let unknown = request(name, vec![text("text", "hello")]);
        assert_eq!(disposition(&unknown), Disposition::Unsupported);
        assert_eq!(
            command(&unknown, &state, &Context::at(0)),
            Handling::Done(Err(unsupported("Unsupported Command")))
        );
    }
}

#[test]
fn every_command_of_the_registry_is_found_by_its_name() {
    for (name, options) in [
        ("hide", vec![]),
        ("ping", vec![]),
        ("say", vec![text("text", "x")]),
        ("time", vec![text("location", "Europe/London")]),
    ] {
        assert_eq!(disposition(&request(name, options)), Disposition::Handled);
    }
    assert_eq!(HideCommand::name(), "hide");
    assert_eq!(PingCommand::name(), "ping");
    assert_eq!(SayCommand::name(), "say");
    assert_eq!(TimeCommand::name(), "time");
}

#[test]
fn hide_answers_with_lines_that_show_nothing() {
    let state = AppState::new();
    let handling = command(&request("hide", vec![]), &state, &Context::at(0));
    assert_eq!(
        handling,
        Handling::Done(Ok(CommandResponse::ComplexSuccess(InteractionReply {
            content: HIDE_CONTENT.to_string(),
            ephemeral: false,
        })))
    );
    assert_eq!(HIDE_CONTENT.chars().filter(|c| *c == '\u{200b}').count(), 131);
    assert_eq!(HIDE_CONTENT.chars().filter(|c| *c == '\n').count(), 126);
    assert_eq!(HIDE_CONTENT.chars().count(), 257);
    assert!(HIDE_CONTENT.starts_with("\u{200b}\n\u{200b}\n"));
    assert!(HIDE_CONTENT.ends_with("\u{200b}\n"));
}

#[test]
fn time_tells_the_time_of_day_and_the_day_of_the_week() {
    let state = AppState::new();
    let london = request("time", vec![text("location", "Europe/London")]);
    assert_eq!(
        command(&london, &state, &Context::at(1_700_000_000)),
        Handling::Done(Ok(CommandResponse::BasicSuccess(String::from(
            "The time in Europe/London is10:13pm on a Tuesday"
        ))))
    );
    assert_eq!(
        command(&london, &state, &Context::at(1_700_010_800)),
        Handling::Done(Ok(CommandResponse::BasicSuccess(String::from(
            "The time in Europe/London is 1:13am on a Wednesday"
        ))))
    );
    let auckland = request("time", vec![text("location", "Pacific/Auckland")]);
    assert_eq!(
        command(&auckland, &state, &Context::at(1_700_000_000)),
        Handling::Done(Ok(CommandResponse::BasicSuccess(String::from(
            "The time in Pacific/Auckland is11:13am on a Wednesday"
        ))))
    );
}

#[test]
fn time_in_summer_follows_the_rules_of_the_zone() {
    let state = AppState::new();
    let london = request("time", vec![text("location", "Europe/London")]);
    assert_eq!(
        command(&london, &state, &Context::at(1_688_212_800)),
        Handling::Done(Ok(CommandResponse::BasicSuccess(String::from(
            "The time in Europe/London is 1:00pm on a Saturday"
        ))))
    );
}

#[test]
fn time_in_an_unknown_place_is_a_parse_failure() {
    let state = AppState::new();
    let nowhere = request("time", vec![text("location", "Mars/Olympus")]);
    assert_eq!(<TimeCommand as Command>::try_from(&nowhere), Err(String::from("Unknown location")));
    assert_eq!(disposition(&nowhere), Disposition::ParseFailure);
    assert_eq!(
        command(&nowhere, &state, &Context::at(0)),
        Handling::Done(Err(unsupported("Unsupported Command")))
    );
    let missing = request("time", vec![]);
    assert_eq!(<TimeCommand as Command>::try_from(&missing), Err(String::from("No location provided")));
    assert_eq!(disposition(&missing), Disposition::ParseFailure);
    let parsed = <TimeCommand as Command>::try_from(&request("time", vec![text("location", "Europe/London")]));
    assert_eq!(parsed.as_ref().map(|c| c.location()), Ok("Europe/London"));
}

#[test]
fn time_beyond_the_calendar_is_a_failure_and_no_crash() {
    let state = AppState::new();
    let london = request("time", vec![text("location", "Europe/London")]);
    assert_eq!(
        command(&london, &state, &Context::at(i64::MAX)),
        Handling::Done(Err(unsupported("Unable to tell the time")))
    );
    assert_eq!(
        TimeCommand::respond("Europe/London", Some(String::from(" 1:00pm")), None),
        Err(unsupported("Unable to tell the time"))
    );
    assert_eq!(
        TimeCommand::respond("X", Some(String::from(" 1:00pm")), Some(String::from("Monday"))),
        Ok(CommandResponse::BasicSuccess(String::from("The time in X is 1:00pm on a Monday")))
    );
}

#[test]
fn a_reply_a_command_laid_out_goes_out_as_it_is() {
    let open = InteractionReply { content: String::from("for all"), ephemeral: false };
    let quiet = InteractionReply { content: String::from("for one"), ephemeral: true };
    assert_eq!(CommandResponse::ComplexSuccess(open.clone()).rendered(), (open, None));
    assert_eq!(CommandResponse::ComplexSuccess(quiet.clone()).rendered(), (quiet.clone(), None));
    assert_eq!(render(Ok(CommandResponse::ComplexSuccess(quiet.clone()))), (quiet.clone(), None));
    assert_eq!(render(Err(CommandResponse::ComplexSuccess(quiet.clone()))), (quiet, None));
}

#[test]
fn a_plain_text_is_shown_to_the_channel_and_not_logged() {
    assert_eq!(
        CommandResponse::BasicSuccess(String::from("it is noon")).rendered(),
        (InteractionReply { content: String::from("it is noon"), ephemeral: false }, None)
    );
}

#[test]
fn a_failure_is_shown_to_the_requester_alone_and_logged() {
    assert_eq!(
        render(Err(unsupported("Unsupported Command"))),
        (
            InteractionReply { content: String::from("Unsupported Command"), ephemeral: true },
            Some(String::from("Unsupported Command"))
        )
    );
    assert_eq!(
        CommandResponse::ComplexFailure {
            response: String::from("Failed to use /say due to error"),
            kind: FailureMessageKind::Error,
            log_message: String::from("missing access"),
        }
        .rendered(),
        (
            InteractionReply {
                content: String::from("Failed to use /say due to error"),
                ephemeral: true
            },
            Some(String::from("missing access"))
        )
    );
}

#[test]
fn the_clock_of_the_context_is_read_when_asked() {
    let now = Context::now();
    assert!(now.now_unix_secs > 1_600_000_000);
    assert_eq!(Context::at(5).now_unix_secs, 5);
}

#[test]
fn components_modals_and_suggestions_are_unsupported() {
    let state = AppState::new();
    let context = Context::at(0);
    let click = ComponentInteraction {
        id: 1,
        token: String::from("t"),
        guild_id: Some(1),
        channel_id: 2,
        custom_id: String::from("button"),
    };
    assert_eq!(
        interaction(&click, &state, &context),
        Err(unsupported("Unsupported Interaction Command"))
    );
    let modal = ModalInteraction {
        id: 1,
        token: String::from("t"),
        guild_id: Some(1),
        channel_id: 2,
        custom_id: String::from("form"),
    };
    assert_eq!(
        handle_modal(&modal, &state, &context),
        Err(unsupported("Unsupported Modal Submit Command"))
    );
    assert_eq!(
        autocomplete(&request("time", vec![]), &state, &context),
        Err(unsupported("Unsupported Autocomplete Command"))
    );
}

#[test]
fn the_registry_is_registered_in_its_order_for_administrators() {
    let commands = application_command();
    let names: Vec<&str> = commands.iter().map(|c| c.name.as_str()).collect();
    assert_eq!(names, vec!["hide", "ping", "say", "time"]);
    for described in &commands {
        assert_eq!(described.default_member_permissions, Some(Permissions::Administrator));
        assert_eq!(described.dm_permission, Some(false));
        assert_eq!(described.kind, Some(CommandType::ChatInput));
    }
    assert_eq!(
        commands[0].description,
        "Creates a large message to hide previous messages in the chat"
    );
    assert_eq!(commands[1].description, "Pings the bot, expect a pong response.");
    assert_eq!(commands[2].description, "Says whatever you want!");
    assert!(commands[0].options.is_empty());
    assert!(commands[1].options.is_empty());
    assert_eq!(
        commands[2].options,
        vec![CreateCommandOption {
            kind: CommandOptionType::String,
            name: String::from("text"),
            description: String::from("What you want the bot to say"),
            required: true,
            max_length: Some(1900),
            choices: vec![],
        }]
    );
    assert_eq!(
        commands[3].options,
        vec![CreateCommandOption {
            kind: CommandOptionType::String,
            name: String::from("location"),
            description: String::from("The location to get the time for"),
            required: true,
            max_length: None,
            choices: vec![
                StringChoice { name: String::from("London"), value: String::from("Europe/London") },
                StringChoice {
                    name: String::from("Auckland"),
                    value: String::from("Pacific/Auckland")
                },
            ],
        }]
    );
}

#[test]
fn a_description_is_built_step_by_step() {
    let described = CreateCommand::new("unnamed command");
    assert_eq!(described.name, "unnamed command");
    assert_eq!(described.description, "");
    assert_eq!(described.default_member_permissions, None);
    assert_eq!(described.dm_permission, None);
    assert_eq!(described.kind, None);
    let described = described
        .name("n")
        .description("d")
        .dm_permission(true)
        .kind(CommandType::User)
        .default_member_permissions(Permissions::Everyone)
        .add_option(CreateCommandOption::new(CommandOptionType::Integer, "o", "p"));
    assert_eq!(
        described,
        CreateCommand {
            name: String::from("n"),
            description: String::from("d"),
            options: vec![CreateCommandOption {
                kind: CommandOptionType::Integer,
                name: String::from("o"),
                description: String::from("p"),
                required: false,
                max_length: None,
                choices: vec![],
            }],
            default_member_permissions: Some(Permissions::Everyone),
            dm_permission: Some(true),
            kind: Some(CommandType::User),
        }
    );
}

#[test]
fn an_actor_stops_at_a_shutdown_and_looks_at_nothing_after_it() {
    let state = AppState::new();
    let context = Context::at(0);
    let mut actor = GuildActor::new(42);
    assert_eq!(actor.guild_id(), 42);
    let note: DiscordEvent<u8> = DiscordEvent::Message(Box::new(Message {
        id: 1,
        guild_id: Some(42),
        channel_id: 2,
        author_id: 3,
        content: String::from("hi"),
    }));
    assert_eq!(actor.react(&note, &state, &context), Reaction::Nothing);
    assert_eq!(
        actor.react(&DiscordEvent::<u8>::DeletedGuild(42), &state, &context),
        Reaction::Unexpected
    );
    assert_eq!(
        actor.react(&DiscordEvent::NewGuild(GuildHandler::new(1, 0u8)), &state, &context),
        Reaction::Unexpected
    );
    assert_eq!(
        actor.react(&DiscordEvent::<u8>::Interaction(Box::new(Interaction::Ping)), &state, &context),
        Reaction::Unexpected
    );
    assert!(actor.running());
    assert_eq!(actor.react(&DiscordEvent::<u8>::Shutdown, &state, &context), Reaction::Stop);
    assert!(!actor.running());
    assert_eq!(actor.react(&note, &state, &context), Reaction::Stopped);
    assert_eq!(actor.react(&DiscordEvent::<u8>::Shutdown, &state, &context), Reaction::Stopped);
}

#[test]
fn an_actor_hands_each_kind_of_request_to_its_path() {
    let state = AppState::new();
    let context = Context::at(0);
    let mut actor = GuildActor::new(1);
    let click: DiscordEvent<u8> =
        DiscordEvent::Interaction(Box::new(Interaction::Component(ComponentInteraction {
            id: 1,
            token: String::from("t"),
            guild_id: Some(1),
            channel_id: 2,
            custom_id: String::from("button"),
        })));
    assert_eq!(
        actor.react(&click, &state, &context),
        Reaction::Respond(Handling::Done(Err(unsupported("Unsupported Interaction Command"))))
    );
    let form: DiscordEvent<u8> =
        DiscordEvent::Interaction(Box::new(Interaction::Modal(ModalInteraction {
            id: 1,
            token: String::from("t"),
            guild_id: Some(1),
            channel_id: 2,
            custom_id: String::from("form"),
        })));
    assert_eq!(
        actor.react(&form, &state, &context),
        Reaction::Respond(Handling::Done(Err(unsupported("Unsupported Modal Submit Command"))))
    );
    let typing: DiscordEvent<u8> =
        DiscordEvent::Interaction(Box::new(Interaction::Autocomplete(request("time", vec![]))));
    assert_eq!(
        actor.react(&typing, &state, &context),
        Reaction::Suggest(Err(unsupported("Unsupported Autocomplete Command")))
    );
    let say: DiscordEvent<u8> = DiscordEvent::Interaction(Box::new(Interaction::Command(
        request("say", vec![text("text", "hello")]),
    )));
    assert_eq!(
        actor.react(&say, &state, &context),
        Reaction::Respond(Handling::Send {
            channel_id: 77,
            content: String::from("hello"),
            then: Continuation::Say { message: String::from("hello") },
        })
    );
}
