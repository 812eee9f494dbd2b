use barista::buttons::TriageDecision;
use barista::embeds::{decision_embed, Footer, ALERT_COLOR, APPROVED_COLOR, REQUEST_COLOR};
use barista::models::{TriageConfig, TriageError};
use barista::triage::{begin_member_join, decision_response, triage_request, ButtonStyle, JoinStep};

fn config(enabled: bool, channel: Option<i64>) -> TriageConfig {
    TriageConfig {
        guild_id: 7,
        enabled,
        mod_channel_id: channel,
        access_role_id: Some(11),
        remove_role_id: None,
    }
}

#[test]
fn disabled_triage_sends_no_request() {
    assert_eq!(begin_member_join(&config(false, Some(5))), JoinStep::LetIn);
    assert_eq!(begin_member_join(&config(false, None)), JoinStep::LetIn);
}

#[test]
fn enabled_triage_without_channel_fails() {
    assert_eq!(begin_member_join(&config(true, None)), JoinStep::Fail(TriageError::ChannelNotFound));
}

#[test]
fn enabled_triage_targets_moderator_channel() {
    assert_eq!(begin_member_join(&config(true, Some(555))), JoinStep::FetchChannel { channel_id: 555 });
    assert_eq!(begin_member_join(&config(true, Some(-1))), JoinStep::FetchChannel { channel_id: u64::MAX });
}

#[test]
fn request_message_for_joining_member() {
    let r = triage_request(555, 175928847299117063, "mochi", 1700000000, "https://cdn/a.png");
    assert_eq!(r.channel_id, 555);
    assert_eq!(r.content, "@here");
    assert_eq!(r.embed.title, "🔔 User awaiting approval!");
    assert_eq!(
        r.embed.description.as_deref(),
        Some(
            "**User:** <@175928847299117063> `mochi`\n**ID:** `175928847299117063`\n**Joined at:** <t:1700000000:f>"
        )
    );
    assert_eq!(r.embed.color, REQUEST_COLOR);
    assert_eq!(
        r.embed.footer,
        Some(Footer {
            text: "User created at: Apr, 30 2016 11:18:25 AM".to_string(),
            icon_url: "https://cdn/a.png".to_string(),
        })
    );
    let buttons: Vec<(String, String, ButtonStyle)> =
        r.buttons.into_iter().map(|b| (b.custom_id, b.label, b.style)).collect();
    assert_eq!(
        buttons,
        vec![
            ("approve_175928847299117063".to_string(), "Approve".to_string(), ButtonStyle::Success),
            ("kick_175928847299117063".to_string(), "Kick".to_string(), ButtonStyle::Danger),
            ("ban_175928847299117063".to_string(), "Ban".to_string(), ButtonStyle::Danger),
        ]
    );
}

#[test]
fn request_message_with_joined_before_epoch() {
    let r = triage_request(1, 2, "x", -5, "");
    assert!(r.embed.description.unwrap().ends_with("<t:-5:f>"));
}

#[test]
fn decision_embeds_name_the_user() {
    let at = 1462015105796;
    let approved = decision_embed(TriageDecision::Approve, 42, "mochi", "icon", at);
    assert_eq!(approved.title, "✅ User approved!");
    assert_eq!(approved.color, APPROVED_COLOR);
    assert_eq!(approved.description.as_deref(), Some("**User:** <@42> `mochi`\n**ID:** `42`"));
    assert_eq!(
        approved.footer,
        Some(Footer {
            text: "User approved at: Apr, 30 2016 11:18:25 AM".to_string(),
            icon_url: "icon".to_string(),
        })
    );
    let kicked = decision_embed(TriageDecision::Kick, 42, "mochi", "icon", at);
    assert_eq!(kicked.title, "❌ User kicked!");
    assert_eq!(kicked.color, ALERT_COLOR);
    assert_eq!(kicked.footer.unwrap().text, "User kicked at: Apr, 30 2016 11:18:25 AM");
    let banned = decision_embed(TriageDecision::Ban, 42, "mochi", "icon", at);
    assert_eq!(banned.title, "❌ User banned!");
    assert_eq!(banned.color, ALERT_COLOR);
    assert_eq!(banned.footer.unwrap().text, "User banned at: Apr, 30 2016 11:18:25 AM");
}

#[test]
fn triage_error_texts() {
    assert_eq!(TriageError::ChannelNotFound.message(), "Channel not found");
    assert_eq!(TriageError::RoleNotFound.message(), "Role not found");
    assert_eq!(
        TriageError::UserIdParse(barista::decimal::ParseIdError::Empty).message(),
        "Failed to parse user ID: cannot parse integer from empty string"
    );
    assert_eq!(
        TriageError::UserRoleNotFound("Newbie (id: 9)".to_string()).message(),
        "User does not have role: Newbie (id: 9)"
    );
}

#[test]
fn decision_response_clears_request() {
    let at = 1462015105796;
    let r = decision_response(TriageDecision::Ban, 42, "mochi", "icon", at);
    assert_eq!(r.content, "");
    assert!(r.buttons.is_empty());
    assert_eq!(r.embed, decision_embed(TriageDecision::Ban, 42, "mochi", "icon", at));
}
