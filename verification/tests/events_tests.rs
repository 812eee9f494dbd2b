use barista::embeds::ALERT_COLOR;
use barista::events::{error_reaction, route_event, ErrorReaction, EventKind, Failure, Route};

fn interaction(id: Option<&str>) -> EventKind {
    EventKind::InteractionCreate { component_custom_id: id.map(|s| s.to_string()) }
}

#[test]
fn routes_guild_and_member_events() {
    assert_eq!(route_event(&EventKind::GuildCreate), Route::GuildJoin);
    assert_eq!(route_event(&EventKind::GuildMemberAddition), Route::MemberJoin);
    assert_eq!(route_event(&EventKind::Other), Route::Ignore);
}

#[test]
fn routes_only_triage_buttons() {
    assert_eq!(route_event(&interaction(Some("approve_1"))), Route::TriageInteraction);
    assert_eq!(route_event(&interaction(Some("kick_1"))), Route::TriageInteraction);
    assert_eq!(route_event(&interaction(Some("ban_1"))), Route::TriageInteraction);
    assert_eq!(route_event(&interaction(Some("ban"))), Route::Ignore);
    assert_eq!(route_event(&interaction(None)), Route::Ignore);
}

#[test]
fn command_failure_is_answered() {
    let r = error_reaction(&Failure::Command { command_name: "enable".to_string() }, "boom");
    match r {
        ErrorReaction::ReplyToCommand(reply) => {
            assert!(reply.ephemeral);
            let e = reply.embed;
            assert_eq!(e.title, "⁉️ Error running command `enable`");
            assert_eq!(e.description.as_deref(), Some("boom"));
            assert_eq!(e.color, ALERT_COLOR);
        },
        other => panic!("unexpected {:?}", other),
    }
}

#[test]
fn triage_button_failure_is_answered() {
    let r = error_reaction(&Failure::EventHandler { event: interaction(Some("kick_5")) }, "nope");
    match r {
        ErrorReaction::RespondToInteraction(reply) => {
            assert!(reply.ephemeral);
            let e = reply.embed;
            assert_eq!(e.title, "⁉️ Error in event handler");
            assert_eq!(e.description.as_deref(), Some("nope"));
            assert_eq!(e.color, ALERT_COLOR);
        },
        other => panic!("unexpected {:?}", other),
    }
}

#[test]
fn other_failures_are_logged_or_passed_on() {
    assert_eq!(
        error_reaction(&Failure::EventHandler { event: interaction(Some("menu")) }, "x"),
        ErrorReaction::Ignore
    );
    assert_eq!(
        error_reaction(&Failure::EventHandler { event: interaction(None) }, "x"),
        ErrorReaction::LogInteractionError
    );
    assert_eq!(
        error_reaction(&Failure::EventHandler { event: EventKind::GuildCreate }, "x"),
        ErrorReaction::LogEventError
    );
    assert_eq!(error_reaction(&Failure::Other, "x"), ErrorReaction::DefaultHandler);
}
