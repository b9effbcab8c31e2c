//! What a command hands back: the response for the requester, and the
//! message that is to go out first where a command sends one.

use vstd::prelude::*;

verus! {

/// How a failure is presented to the requester.
#[derive(Debug, Clone, Copy, PartialEq, Eq, Structural)]
pub enum FailureMessageKind {
    /// Something went wrong that the requester could not have avoided.
    Error,
}

/// A message in reply to an interaction.
#[derive(Debug, Clone, PartialEq, Eq)]
pub struct InteractionReply {
    /// The text of the reply.
    pub content: String,
    /// Whether only the requester sees the reply.
    pub ephemeral: bool,
}

/// An [`InteractionReply`] with its text as a sequence of characters.
pub struct InteractionReplyView {
    pub content: Seq<char>,
    pub ephemeral: bool,
}

impl View for InteractionReply {
    type V = InteractionReplyView;

    open spec fn view(&self) -> InteractionReplyView {
        InteractionReplyView { content: self.content@, ephemeral: self.ephemeral }
    }
}

/// The response of a command, as a success or as a failure.
#[derive(Debug, Clone, PartialEq, Eq)]
pub enum CommandResponse {
    /// A reply that the command laid out itself.
    ComplexSuccess(InteractionReply),
    /// A plain text, shown to the requester as it is.
    BasicSuccess(String),
    /// A failure inside the bot; the text is what the requester is told.
    InternalFailure(String),
    /// A failure with one text for the requester and another for the log.
    ComplexFailure { response: String, kind: FailureMessageKind, log_message: String },
}

/// A [`CommandResponse`] with its texts as sequences of characters.
pub enum CommandResponseView {
    ComplexSuccess(InteractionReplyView),
    BasicSuccess(Seq<char>),
    InternalFailure(Seq<char>),
    ComplexFailure { response: Seq<char>, kind: FailureMessageKind, log_message: Seq<char> },
}

impl View for CommandResponse {
    type V = CommandResponseView;

    open spec fn view(&self) -> CommandResponseView {
        match *self {
            CommandResponse::ComplexSuccess(reply) => CommandResponseView::ComplexSuccess(reply@),
            CommandResponse::BasicSuccess(text) => CommandResponseView::BasicSuccess(text@),
            CommandResponse::InternalFailure(text) => CommandResponseView::InternalFailure(text@),
            CommandResponse::ComplexFailure { response, kind, log_message } => {
                CommandResponseView::ComplexFailure {
                    response: response@,
                    kind,
                    log_message: log_message@,
                }
            },
        }
    }
}

/// How a response is put to the requester, and what goes to the log beside
/// it. A reply that the command laid out goes out as it is. A plain text is
/// shown to everyone in the channel. A failure is shown to the requester
/// alone: an internal failure with its own text, which is logged as well, and
/// a failure with two texts with the one for the requester, while the other
/// is logged.
pub open spec fn spec_rendered(response: CommandResponseView) -> (
    InteractionReplyView,
    Option<Seq<char>>,
) {
    match response {
        CommandResponseView::ComplexSuccess(reply) => (reply, None),
        CommandResponseView::BasicSuccess(text) => (
            InteractionReplyView { content: text, ephemeral: false },
            None,
        ),
        CommandResponseView::InternalFailure(text) => (
            InteractionReplyView { content: text, ephemeral: true },
            Some(text),
        ),
        CommandResponseView::ComplexFailure { response, kind, log_message } => (
            InteractionReplyView { content: response, ephemeral: true },
            Some(log_message),
        ),
    }
}

/// The text of a log entry, if there is one, as a sequence of characters.
pub open spec fn log_view(log_message: Option<String>) -> Option<Seq<char>> {
    match log_message {
        Some(text) => Some(text@),
        None => None,
    }
}

impl CommandResponse {
    /// The reply that puts this response to the requester, and the text that
    /// goes to the log beside it, if any.
    pub fn rendered(self) -> (rendered: (InteractionReply, Option<String>))
        ensures
            (rendered.0@, log_view(rendered.1)) == spec_rendered(self@),
    {
        match self {
            CommandResponse::ComplexSuccess(reply) => (reply, None),
            CommandResponse::BasicSuccess(text) => (
                InteractionReply { content: text, ephemeral: false },
                None,
            ),
            CommandResponse::InternalFailure(text) => {
                let shown = text.clone();
                (InteractionReply { content: shown, ephemeral: true }, Some(text))
            },
            CommandResponse::ComplexFailure { response, kind, log_message } => (
                InteractionReply { content: response, ephemeral: true },
                Some(log_message),
            ),
        }
    }
}

/// The response that an outcome carries, whether it counts as a success or
/// as a failure.
pub open spec fn spec_response(outcome: Result<CommandResponseView, CommandResponseView>)
    -> CommandResponseView {
    match outcome {
        Ok(response) => response,
        Err(response) => response,
    }
}

/// The reply that puts the outcome of a request to the requester, and the
/// text that goes to the log beside it, if any.
pub fn render(outcome: Result<CommandResponse, CommandResponse>) -> (rendered: (
    InteractionReply,
    Option<String>,
))
    ensures
        (rendered.0@, log_view(rendered.1)) == spec_rendered(spec_response(outcome_view(outcome))),
{
    match outcome {
        Ok(response) => response.rendered(),
        Err(response) => response.rendered(),
    }
}

/// What a command comes to: a response that counts as a success or one that
/// counts as a failure, with its texts as sequences of characters.
pub open spec fn outcome_view(outcome: Result<CommandResponse, CommandResponse>) -> Result<
    CommandResponseView,
    CommandResponseView,
> {
    match outcome {
        Ok(response) => Ok(response@),
        Err(response) => Err(response@),
    }
}

/// The failure that tells the requester, in `text`, that the bot cannot
/// serve the request.
pub open spec fn internal_failure(text: Seq<char>) -> Result<
    CommandResponseView,
    CommandResponseView,
> {
    Err(CommandResponseView::InternalFailure(text))
}

/// What the bot is aware of when it handles a request, besides the request.
#[derive(Debug, Clone, Copy, PartialEq, Eq, Structural)]
pub struct Context {
    /// The time at which the request is handled, in seconds since the start
    /// of 1970, UTC.
    pub now_unix_secs: i64,
}

/// Reads the wall clock with `std::time::SystemTime::now`, has `chrono` turn
/// the reading into a `DateTime<Utc>` (its `From<SystemTime>`, which also
/// takes a clock set before 1970), and hands back the seconds since the start
/// of 1970, UTC, that `DateTime::timestamp` gives. The clock moves, so nothing
/// is claimed of the number.
#[verifier::external_body]
fn wall_clock_unix_secs() -> (now_unix_secs: i64) {
    chrono::DateTime::<chrono::Utc>::from(std::time::SystemTime::now()).timestamp()
}

impl Context {
    /// What the bot is aware of at the moment of the call.
    pub fn now() -> (context: Context) {
        Context { now_unix_secs: wall_clock_unix_secs() }
    }

    /// What the bot is aware of at the given time.
    pub fn at(now_unix_secs: i64) -> (context: Context)
        ensures
            context.now_unix_secs == now_unix_secs,
    {
        Context { now_unix_secs }
    }
}

} // verus!
