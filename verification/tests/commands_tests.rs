use barista::commands::{
    disable_triage, enable_triage, guild_join_update, legacy_change_reply, legacy_triage_change,
    legacy_update, LegacyChange, LegacyUpdate, TriageUpdate,
};
use barista::embeds::{ACCEPTED_COLOR, REFUSED_COLOR};

#[test]
fn joining_new_guild_inserts_row() {
    assert_eq!(guild_join_update(77, Some(false)), Some(TriageUpdate::InsertDefault { guild_id: 77 }));
    assert_eq!(guild_join_update(77, None), Some(TriageUpdate::InsertDefault { guild_id: 77 }));
}

#[test]
fn rejoining_guild_keeps_row() {
    assert_eq!(guild_join_update(77, Some(true)), None);
}

#[test]
fn enable_writes_chosen_settings() {
    let (u, reply) = enable_triage(1, 2, 3, Some(4));
    assert_eq!(
        u,
        TriageUpdate::Enable { guild_id: 1, mod_channel_id: 2, access_role_id: 3, remove_role_id: Some(4) }
    );
    assert_eq!(reply, "☑️ Enabled triage module!");
    let (u, _) = enable_triage(1, 2, 3, None);
    assert_eq!(
        u,
        TriageUpdate::Enable { guild_id: 1, mod_channel_id: 2, access_role_id: 3, remove_role_id: None }
    );
}

#[test]
fn enable_casts_large_ids_like_serenity() {
    let big = u64::MAX - 3;
    let (u, _) = enable_triage(big, big, big, None);
    assert_eq!(
        u,
        TriageUpdate::Enable {
            guild_id: big as i64,
            mod_channel_id: big as i64,
            access_role_id: big as i64,
            remove_role_id: None
        }
    );
}

#[test]
fn disable_writes_flag_only() {
    let (u, reply) = disable_triage(9);
    assert_eq!(u, TriageUpdate::Disable { guild_id: 9 });
    assert_eq!(reply, "☑️ Disabled triage module!");
}

#[test]
fn legacy_refuses_missing_choices() {
    let refusal = legacy_triage_change(true, None, None).unwrap_err();
    assert!(refusal.ephemeral);
    let both = refusal.embed;
    assert_eq!(both.title, "Failed to enable config: `triage`");
    assert_eq!(both.description.as_deref(), Some("`moderator_channel` and `member_role` must be selected"));
    assert_eq!(both.color, REFUSED_COLOR);
    let channel = legacy_triage_change(true, None, Some(3)).unwrap_err().embed;
    assert_eq!(channel.description.as_deref(), Some("`moderator_channel` must be selected"));
    let role = legacy_triage_change(true, Some(2), None).unwrap_err().embed;
    assert_eq!(role.description.as_deref(), Some("`member_role` must be selected"));
}

#[test]
fn legacy_accepts_complete_choices() {
    assert_eq!(
        legacy_triage_change(true, Some(2), Some(3)),
        Ok(LegacyChange::Enable { moderator_channel_id: 2, member_role_id: 3 })
    );
    assert_eq!(legacy_triage_change(false, None, None), Ok(LegacyChange::Disable));
    assert_eq!(
        legacy_update(LegacyChange::Enable { moderator_channel_id: 2, member_role_id: 3 }, 1),
        LegacyUpdate::Enable { guild_id: 1, moderator_channel_id: 2, member_role_id: 3 }
    );
    assert_eq!(legacy_update(LegacyChange::Disable, 1), LegacyUpdate::Disable { guild_id: 1 });
}

#[test]
fn legacy_replies() {
    let reply = legacy_change_reply(LegacyChange::Disable, None);
    assert!(reply.ephemeral);
    let ok = reply.embed;
    assert_eq!(ok.title, "Successfully disabled config: `triage`");
    assert_eq!(ok.description, None);
    assert_eq!(ok.color, ACCEPTED_COLOR);
    let ok = legacy_change_reply(LegacyChange::Enable { moderator_channel_id: 1, member_role_id: 2 }, None).embed;
    assert_eq!(ok.title, "Successfully enabled config: `triage`");
    let failed = legacy_change_reply(LegacyChange::Disable, Some("db down".to_string())).embed;
    assert_eq!(failed.title, "Failed to disable config: `triage`");
    assert_eq!(failed.description.as_deref(), Some("db down"));
    assert_eq!(failed.color, REFUSED_COLOR);
}

fn stored_row(before: barista::models::TriageConfig, u: TriageUpdate) -> barista::models::TriageConfig {
    match u {
        TriageUpdate::Enable { mod_channel_id, access_role_id, remove_role_id, .. } => {
            barista::models::TriageConfig {
                enabled: true,
                mod_channel_id: Some(mod_channel_id),
                access_role_id: Some(access_role_id),
                remove_role_id,
                ..before
            }
        },
        TriageUpdate::Disable { .. } => barista::models::TriageConfig { enabled: false, ..before },
        TriageUpdate::InsertDefault { guild_id } => barista::models::TriageConfig {
            guild_id,
            enabled: false,
            mod_channel_id: None,
            access_role_id: None,
            remove_role_id: None,
        },
    }
}

#[test]
fn enabled_guild_sends_requests_and_disabled_does_not() {
    let fresh = stored_row(
        barista::models::TriageConfig {
            guild_id: 0,
            enabled: false,
            mod_channel_id: None,
            access_role_id: None,
            remove_role_id: None,
        },
        guild_join_update(5, Some(false)).unwrap(),
    );
    assert_eq!(barista::triage::begin_member_join(&fresh), barista::triage::JoinStep::LetIn);
    let enabled = stored_row(fresh, enable_triage(5, 600, 700, None).0);
    assert_eq!(
        barista::triage::begin_member_join(&enabled),
        barista::triage::JoinStep::FetchChannel { channel_id: 600 }
    );
    let disabled = stored_row(enabled, disable_triage(5).0);
    assert_eq!(barista::triage::begin_member_join(&disabled), barista::triage::JoinStep::LetIn);
    assert_eq!(disabled.mod_channel_id, Some(600));
    assert_eq!(disabled.access_role_id, Some(700));
}
