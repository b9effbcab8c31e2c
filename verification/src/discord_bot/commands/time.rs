//! The command that tells the time in another part of the world.

use std::fmt::Write;
use std::str::FromStr;
use chrono::TimeZone;
use vstd::prelude::*;
use vstd::string::StringExecFns;
use crate::discord_bot::commands::command::{Command, Handling, HandlingView};
use crate::discord_bot::commands::schema::{
    CommandOptionType, CreateCommand, CreateCommandOption, CreateCommandOptionView,
    CreateCommandView, StringChoiceView,
};
use crate::discord_bot::commands::util::{
    outcome_view, CommandResponse, CommandResponseView, Context,
};
use crate::discord_bot::model::CommandInteraction;
use crate::state::AppState;

verus! {

/// The pattern of the time of day: the hour of a twelve-hour clock, padded
/// with a space, the minute, and `am` or `pm`.
pub const CLOCK_PATTERN: &'static str = "%l:%M%P";

/// The pattern of the day of the week, written out.
pub const WEEKDAY_PATTERN: &'static str = "%A";

/// Whether the time zone database knows a zone of this name.
pub uninterp spec fn zone_known(name: Seq<char>) -> bool;

/// The text that the instant `unix_secs` seconds after the start of 1970,
/// UTC, comes to in the zone named `zone` under the pattern `pattern`; none
/// where the zone is unknown, the instant is out of the calendar's range or
/// the pattern cannot be followed.
pub uninterp spec fn zoned_text(zone: Seq<char>, unix_secs: i64, pattern: Seq<char>) -> Option<
    Seq<char>,
>;

/// Asks `chrono_tz::Tz::from_str` whether it knows a zone of this name. The
/// answer is a lookup in a table that is part of the crate, so the same name
/// always gets the same answer.
#[verifier::external_body]
fn zone_is_known(name: &str) -> (known: bool)
    ensures
        known == zone_known(name@),
{
    chrono_tz::Tz::from_str(name).is_ok()
}

/// Has `chrono::DateTime::format` write out an instant as it reads in a zone
/// of `chrono_tz`. The instant is placed in the zone by
/// `TimeZone::timestamp_opt`. The text depends on the three arguments alone:
/// on the zone's rules, which are part of the crate, and not on the clock or
/// the settings of the machine.
#[verifier::external_body]
fn format_in_zone(zone: &str, unix_secs: i64, pattern: &str) -> (text: Option<String>)
    ensures
        match text {
            Some(t) => zoned_text(zone@, unix_secs, pattern@) == Some(t@),
            None => zoned_text(zone@, unix_secs, pattern@).is_none(),
        },
{
    let tz = chrono_tz::Tz::from_str(zone).ok()?;
    let at = tz.timestamp_opt(unix_secs, 0).single()?;
    let mut text = String::new();
    write!(text, "{}", at.format(pattern)).ok()?;
    Some(text)
}

/// The command `time`, with the name of the zone it was asked about.
#[derive(Debug, Clone, PartialEq, Eq)]
pub struct TimeCommand {
    location: String,
}

impl View for TimeCommand {
    type V = Seq<char>;

    closed spec fn view(&self) -> Seq<char> {
        self.location@
    }
}

/// The response to a request for the time in `location`, given what the time
/// of day and the day of the week read there.
pub open spec fn time_outcome(
    location: Seq<char>,
    clock: Option<Seq<char>>,
    weekday: Option<Seq<char>>,
) -> Result<CommandResponseView, CommandResponseView> {
    match (clock, weekday) {
        (Some(clock), Some(weekday)) => Ok(
            CommandResponseView::BasicSuccess(
                "The time in "@ + location + " is"@ + clock + " on a "@ + weekday,
            ),
        ),
        _ => Err(CommandResponseView::InternalFailure("Unable to tell the time"@)),
    }
}

impl TimeCommand {
    /// The name of the zone the command was asked about.
    pub fn location(&self) -> (location: &str)
        ensures
            location@ == self@,
    {
        self.location.as_str()
    }

    /// The response to a request for the time in `location`, given what the
    /// time of day and the day of the week read there: a sentence that names
    /// the place, the time and the day, or a failure where either is missing.
    pub fn respond(location: &str, clock: Option<String>, weekday: Option<String>) -> (outcome:
        Result<CommandResponse, CommandResponse>)
        ensures
            outcome_view(outcome) == time_outcome(
                location@,
                match clock {
                    Some(c) => Some(c@),
                    None => None,
                },
                match weekday {
                    Some(w) => Some(w@),
                    None => None,
                },
            ),
    {
        match (clock, weekday) {
            (Some(clock), Some(weekday)) => {
                let text = "The time in ".to_owned().concat(location).concat(" is").concat(
                    clock.as_str(),
                ).concat(" on a ").concat(weekday.as_str());
                Ok(CommandResponse::BasicSuccess(text))
            },
            _ => Err(CommandResponse::InternalFailure("Unable to tell the time".to_owned())),
        }
    }
}

impl Command for TimeCommand {
    open spec fn spec_name() -> Seq<char> {
        "time"@
    }

    open spec fn spec_description() -> Seq<char> {
        "Creates a large message to hide previous messages in the chat"@
    }

    open spec fn spec_options(command: CreateCommandView) -> CreateCommandView {
        CreateCommandView {
            options: command.options.push(
                CreateCommandOptionView {
                    kind: CommandOptionType::String,
                    name: "location"@,
                    description: "The location to get the time for"@,
                    required: true,
                    max_length: None,
                    choices: seq![
                        StringChoiceView { name: "London"@, value: "Europe/London"@ },
                        StringChoiceView { name: "Auckland"@, value: "Pacific/Auckland"@ },
                    ],
                },
            ),
            ..command
        }
    }

    open spec fn spec_parse(interaction: CommandInteraction) -> Result<Seq<char>, Seq<char>> {
        if interaction.data.options@.len() == 0 {
            Err("No location provided"@)
        } else {
            match interaction.data.options@[0].value.text() {
                Some(location) => if zone_known(location) {
                    Ok(location)
                } else {
                    Err("Unknown location"@)
                },
                None => Err("No location provided"@),
            }
        }
    }

    open spec fn spec_handle(
        arguments: Seq<char>,
        interaction: CommandInteraction,
        context: Context,
    ) -> HandlingView {
        HandlingView::Done(
            time_outcome(
                arguments,
                zoned_text(arguments, context.now_unix_secs, CLOCK_PATTERN@),
                zoned_text(arguments, context.now_unix_secs, WEEKDAY_PATTERN@),
            ),
        )
    }

    fn name() -> (name: &'static str) {
        "time"
    }

    fn description() -> (description: &'static str) {
        "Creates a large message to hide previous messages in the chat"
    }

    fn get_application_command_options(command: CreateCommand) -> (described: CreateCommand) {
        let described = command.add_option(
            CreateCommandOption::new(
                CommandOptionType::String,
                "location",
                "The location to get the time for",
            ).required(true).add_string_choice("London", "Europe/London").add_string_choice(
                "Auckland",
                "Pacific/Auckland",
            ),
        );
        assert(described@.options.last().choices =~= seq![
            StringChoiceView { name: "London"@, value: "Europe/London"@ },
            StringChoiceView { name: "Auckland"@, value: "Pacific/Auckland"@ },
        ]);
        described
    }

    fn try_from(interaction: &CommandInteraction) -> (parsed: Result<Self, String>) {
        if interaction.data.options.len() == 0 {
            return Err("No location provided".to_owned());
        }
        match interaction.data.options[0].value.as_str() {
            Some(location) => {
                if zone_is_known(location) {
                    Ok(TimeCommand { location: location.to_owned() })
                } else {
                    Err("Unknown location".to_owned())
                }
            },
            None => Err("No location provided".to_owned()),
        }
    }

    fn handle_application_command(
        self,
        interaction: &CommandInteraction,
        app_state: &AppState,
        context: &Context,
    ) -> (handling: Handling) {
        let location = self.location.as_str();
        let clock = format_in_zone(location, context.now_unix_secs, CLOCK_PATTERN);
        let weekday = format_in_zone(location, context.now_unix_secs, WEEKDAY_PATTERN);
        Handling::Done(TimeCommand::respond(location, clock, weekday))
    }
}

} // verus!
