//! Which gateway events the triage module handles, and how a failure is
//! reported back.
use vstd::prelude::*;
use crate::buttons::{
    is_triage_id, is_triage_custom_id, TriageDecision, button_id, lemma_button_round_trip,
};
use crate::embeds::{Reply, notice_embed, ALERT_COLOR};

verus! {

/// The part of a gateway event that decides who handles it.
#[derive(Debug, Clone, PartialEq, Eq)]
pub enum EventKind {
    /// The bot joined, or rejoined, a guild.
    GuildCreate,
    /// A member joined a guild.
    GuildMemberAddition,
    /// An interaction came in; the custom id of its message component, if it
    /// is one.
    InteractionCreate { component_custom_id: Option<String> },
    /// Any other event.
    Other,
}

/// The custom id of the message component of an interaction event, if any.
pub open spec fn component_id(e: EventKind) -> Option<Seq<char>> {
    match e {
        EventKind::InteractionCreate { component_custom_id: Some(id) } => Some(id@),
        _ => None,
    }
}

/// Who handles an event.
#[derive(Debug, Clone, Copy, PartialEq, Eq, Structural)]
pub enum Route {
    /// Make sure the guild has a row.
    GuildJoin,
    /// Ask the moderators about the new member.
    MemberJoin,
    /// Carry out a moderator's decision.
    TriageInteraction,
    /// Nothing to do.
    Ignore,
}

/// Who handles the event `e`: guild joins and member joins go to triage,
/// and interactions do when they come from a triage button.
pub open spec fn route_of(e: EventKind) -> Route {
    match e {
        EventKind::GuildCreate => Route::GuildJoin,
        EventKind::GuildMemberAddition => Route::MemberJoin,
        EventKind::InteractionCreate { .. } => match component_id(e) {
            Some(id) => if is_triage_id(id) {
                Route::TriageInteraction
            } else {
                Route::Ignore
            },
            None => Route::Ignore,
        },
        EventKind::Other => Route::Ignore,
    }
}

/// Who handles the event `e`.
pub fn route_event(e: &EventKind) -> (r: Route)
    ensures
        r == route_of(*e),
{
    match e {
        EventKind::GuildCreate => Route::GuildJoin,
        EventKind::GuildMemberAddition => Route::MemberJoin,
        EventKind::InteractionCreate { component_custom_id } => match component_custom_id {
            Some(id) => if is_triage_custom_id(id.as_str()) {
                Route::TriageInteraction
            } else {
                Route::Ignore
            },
            None => Route::Ignore,
        },
        EventKind::Other => Route::Ignore,
    }
}

/// Where a failure came from.
#[derive(Debug, Clone, PartialEq, Eq)]
pub enum Failure {
    /// The command `command_name` failed.
    Command { command_name: String },
    /// The event handler failed on an event.
    EventHandler { event: EventKind },
    /// Anything else the framework reports.
    Other,
}

/// How a failure is reported.
#[derive(Debug, Clone, PartialEq, Eq)]
pub enum ErrorReaction {
    /// Answer the command with this reply.
    ReplyToCommand(Reply),
    /// Answer the interaction with this reply, sent as a new message (the
    /// message that holds the pressed button is left as it is).
    RespondToInteraction(Reply),
    /// Log the error as one of an interaction event.
    LogInteractionError,
    /// Log the error as one of the event handler.
    LogEventError,
    /// Nothing to report: the interaction is none of the bot's buttons.
    Ignore,
    /// Leave it to the framework's default handler.
    DefaultHandler,
}

/// The title of the embed that reports a failed command.
pub open spec fn command_error_title(command_name: Seq<char>) -> Seq<char> {
    "⁉️ Error running command `"@ + command_name + "`"@
}

/// How the failure `failure` with the error text `error_text` is reported: a
/// failed command is answered with the error; a failed triage button press is
/// answered with the error; a failed handling of another interaction is
/// logged, unless it came from some other message component; other event
/// failures are logged; the rest goes to the framework's handler.
pub fn error_reaction(failure: &Failure, error_text: &str) -> (r: ErrorReaction)
    ensures
        match failure {
            Failure::Command { command_name } => r matches ErrorReaction::ReplyToCommand(reply)
                && reply.ephemeral && reply.embed@.title == command_error_title(command_name@) && reply.embed@.description == Some(
                error_text@,
            ) && reply.embed@.color == ALERT_COLOR && reply.embed@.footer is None,
            Failure::EventHandler { event } => match event {
                EventKind::InteractionCreate { .. } => match component_id(*event) {
                    Some(id) => if is_triage_id(id) {
                        r matches ErrorReaction::RespondToInteraction(reply) && reply.ephemeral
                            && reply.embed@.title == "⁉️ Error in event handler"@
                            && reply.embed@.description == Some(error_text@)
                            && reply.embed@.color == ALERT_COLOR && reply.embed@.footer is None
                    } else {
                        r is Ignore
                    },
                    None => r is LogInteractionError,
                },
                _ => r is LogEventError,
            },
            Failure::Other => r is DefaultHandler,
        },
{
    match failure {
        Failure::Command { command_name } => {
            let title = String::from_str("⁉️ Error running command `").concat(
                command_name.as_str(),
            ).concat("`");
            ErrorReaction::ReplyToCommand(
                Reply {
                    embed: notice_embed(title, Some(String::from_str(error_text)), ALERT_COLOR),
                    ephemeral: true,
                },
            )
        },
        Failure::EventHandler { event } => match event {
            EventKind::InteractionCreate { component_custom_id } => match component_custom_id {
                Some(id) => if is_triage_custom_id(id.as_str()) {
                    ErrorReaction::RespondToInteraction(
                        Reply {
                            embed: notice_embed(
                                String::from_str("⁉️ Error in event handler"),
                                Some(String::from_str(error_text)),
                                ALERT_COLOR,
                            ),
                            ephemeral: true,
                        },
                    )
                } else {
                    ErrorReaction::Ignore
                },
                None => ErrorReaction::LogInteractionError,
            },
            _ => ErrorReaction::LogEventError,
        },
        Failure::Other => ErrorReaction::DefaultHandler,
    }
}


/// Every button of a triage request reaches the triage handler when pressed,
/// and a failure while handling the press is answered to the moderator.
pub proof fn lemma_request_buttons_are_handled(d: TriageDecision, user_id: u64, custom_id: String)
    requires
        custom_id@ == button_id(d, user_id),
    ensures
        route_of(EventKind::InteractionCreate { component_custom_id: Some(custom_id) })
            == Route::TriageInteraction,
        is_triage_id(custom_id@),
{
    lemma_button_round_trip(d, user_id);
}


/// Guild joins go to the guild bookkeeping, member joins to the triage
/// request, interactions that are no message component and events of other
/// kinds to nobody.
pub proof fn lemma_route_by_kind()
    ensures
        route_of(EventKind::GuildCreate) == Route::GuildJoin,
        route_of(EventKind::GuildMemberAddition) == Route::MemberJoin,
        route_of(EventKind::InteractionCreate { component_custom_id: None }) == Route::Ignore,
        route_of(EventKind::Other) == Route::Ignore,
{
}

/// A component interaction reaches the triage handler exactly when its
/// custom id starts with `approve_`, `kick_` or `ban_`.
pub proof fn lemma_route_components(custom_id: String)
    ensures
        (route_of(EventKind::InteractionCreate { component_custom_id: Some(custom_id) })
            == Route::TriageInteraction) <==> ("approve_"@.is_prefix_of(custom_id@)
            || "kick_"@.is_prefix_of(custom_id@) || "ban_"@.is_prefix_of(custom_id@)),
{
}

} // verus!
