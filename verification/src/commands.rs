//! The configuration commands and the guild bookkeeping: what they write to
//! the `triage` table and what they answer.
use vstd::prelude::*;
use crate::models::{TriageConfig, TriageDb};
use crate::embeds::{
    Embed, EmbedView, Reply, ReplyView, notice_embed, REFUSED_COLOR, ACCEPTED_COLOR,
};
use crate::triage::{join_start, JoinStepView};

verus! {

/// A change to the `triage` table, keyed by guild id.
#[derive(Debug, Clone, Copy, PartialEq, Eq, Structural)]
pub enum TriageUpdate {
    /// `INSERT INTO triage (guild_id, enabled) VALUES (guild_id, false)`.
    InsertDefault { guild_id: i64 },
    /// `UPDATE triage SET enabled = true, mod_channel_id = .., access_role_id = ..,
    /// remove_role_id = .. WHERE guild_id = ..`.
    Enable { guild_id: i64, mod_channel_id: i64, access_role_id: i64, remove_role_id: Option<i64> },
    /// `UPDATE triage SET enabled = false WHERE guild_id = ..`.
    Disable { guild_id: i64 },
}

/// The `triage` table after `u`, the table holding one row per guild id: an
/// update of a guild without a row changes nothing, and a guild that has a
/// row is not inserted again.
pub open spec fn apply_update(table: Map<i64, TriageConfig>, u: TriageUpdate) -> Map<i64, TriageConfig> {
    match u {
        TriageUpdate::InsertDefault { guild_id } => if table.contains_key(guild_id) {
            table
        } else {
            table.insert(guild_id, TriageConfig::fresh(guild_id))
        },
        TriageUpdate::Enable { guild_id, mod_channel_id, access_role_id, remove_role_id } => {
            if table.contains_key(guild_id) {
                table.insert(
                    guild_id,
                    TriageConfig {
                        enabled: true,
                        mod_channel_id: Some(mod_channel_id),
                        access_role_id: Some(access_role_id),
                        remove_role_id,
                        ..table[guild_id]
                    },
                )
            } else {
                table
            }
        },
        TriageUpdate::Disable { guild_id } => if table.contains_key(guild_id) {
            table.insert(guild_id, TriageConfig { enabled: false, ..table[guild_id] })
        } else {
            table
        },
    }
}

/// The table after the optional update `u`.
pub open spec fn apply_optional(table: Map<i64, TriageConfig>, u: Option<TriageUpdate>) -> Map<i64, TriageConfig> {
    match u {
        Some(u) => apply_update(table, u),
        None => table,
    }
}

/// What joining (or rejoining) the guild `guild_id` writes, given whether
/// the guild already has a row (`None` when the database could not say).
pub open spec fn guild_join_update_of(guild_id: u64, row_exists: Option<bool>) -> Option<TriageUpdate> {
    if row_exists == Some(true) {
        None
    } else {
        Some(TriageUpdate::InsertDefault { guild_id: guild_id as i64 })
    }
}

/// What joining (or rejoining) the guild `guild_id` writes, given whether the
/// guild already has a row (`None` when the database could not say): a fresh
/// row unless one is known to exist.
pub fn guild_join_update(guild_id: u64, row_exists: Option<bool>) -> (u: Option<TriageUpdate>)
    ensures
        u == guild_join_update_of(guild_id, row_exists),
{
    let exists = match row_exists {
        Some(b) => b,
        None => false,
    };
    if exists {
        None
    } else {
        Some(TriageUpdate::InsertDefault { guild_id: guild_id as i64 })
    }
}

/// What `/config triage enable` writes for the guild `guild_id`.
pub open spec fn enable_update_of(
    guild_id: u64,
    mod_channel_id: u64,
    access_role_id: u64,
    remove_role_id: Option<u64>,
) -> TriageUpdate {
    TriageUpdate::Enable {
        guild_id: guild_id as i64,
        mod_channel_id: mod_channel_id as i64,
        access_role_id: access_role_id as i64,
        remove_role_id: match remove_role_id {
            Some(x) => Some(x as i64),
            None => None,
        },
    }
}

/// What `/config triage disable` writes for the guild `guild_id`.
pub open spec fn disable_update_of(guild_id: u64) -> TriageUpdate {
    TriageUpdate::Disable { guild_id: guild_id as i64 }
}

/// What `/config triage enable` writes for the guild `guild_id`: triage on,
/// requests to `mod_channel_id`, `access_role_id` for approved members and
/// `remove_role_id`, if any, taken from them; and the reply.
pub fn enable_triage(
    guild_id: u64,
    mod_channel_id: u64,
    access_role_id: u64,
    remove_role_id: Option<u64>,
) -> (r: (TriageUpdate, String))
    ensures
        r.0 == enable_update_of(guild_id, mod_channel_id, access_role_id, remove_role_id),
        r.1@ == "☑️ Enabled triage module!"@,
{
    let remove: Option<i64> = match remove_role_id {
        Some(x) => Some(x as i64),
        None => None,
    };
    (
        TriageUpdate::Enable {
            guild_id: guild_id as i64,
            mod_channel_id: mod_channel_id as i64,
            access_role_id: access_role_id as i64,
            remove_role_id: remove,
        },
        String::from_str("☑️ Enabled triage module!"),
    )
}

/// What `/config triage disable` writes for the guild `guild_id`, and the reply.
pub fn disable_triage(guild_id: u64) -> (r: (TriageUpdate, String))
    ensures
        r.0 == disable_update_of(guild_id),
        r.1@ == "☑️ Disabled triage module!"@,
{
    (
        TriageUpdate::Disable { guild_id: guild_id as i64 },
        String::from_str("☑️ Disabled triage module!"),
    )
}

proof fn lemma_id_round_trip(x: u64)
    ensures
        (x as i64) as u64 == x,
{
    assert((x as i64) as u64 == x) by (bit_vector);
}

/// Joining a guild leaves it with a row: a row it had is kept as it was, and
/// a guild without one (or whose row the database could not confirm) gets a
/// fresh row for that guild with triage off. Joining again changes nothing
/// more.
pub proof fn lemma_join_keeps_or_creates_row(table: Map<i64, TriageConfig>, guild_id: u64)
    ensures
        ({
            let g = guild_id as i64;
            let after = apply_optional(table, guild_join_update_of(guild_id, Some(table.contains_key(g))));
            &&& after.contains_key(g)
            &&& table.contains_key(g) ==> after == table
            &&& !table.contains_key(g) ==> after == table.insert(g, TriageConfig::fresh(g))
            &&& !table.contains_key(g) ==> after[g].guild_id == g && !after[g].enabled
            &&& apply_optional(after, guild_join_update_of(guild_id, Some(after.contains_key(g))))
                == after
            &&& guild_join_update_of(guild_id, None) == Some(
                TriageUpdate::InsertDefault { guild_id: g },
            )
            &&& guild_join_update_of(guild_id, Some(false)) == Some(
                TriageUpdate::InsertDefault { guild_id: g },
            )
            &&& guild_join_update_of(guild_id, Some(true)) is None
        }),
{
}

/// The commands store the ids they are given: every id in the change that
/// `enable`, `disable` or joining a guild writes reads back as the id chosen.
pub proof fn lemma_commands_store_chosen_ids(
    guild_id: u64,
    mod_channel_id: u64,
    access_role_id: u64,
    remove_role_id: Option<u64>,
)
    ensures
        enable_update_of(guild_id, mod_channel_id, access_role_id, remove_role_id) matches TriageUpdate::Enable {
            guild_id: g,
            mod_channel_id: c,
            access_role_id: a,
            remove_role_id: r,
        } && g as u64 == guild_id && c as u64 == mod_channel_id && a as u64 == access_role_id
            && (match remove_role_id {
            Some(x) => r matches Some(y) && y as u64 == x,
            None => r is None,
        }),
        disable_update_of(guild_id) matches TriageUpdate::Disable { guild_id: g } && g as u64
            == guild_id,
        guild_join_update_of(guild_id, None) matches Some(TriageUpdate::InsertDefault { guild_id: g })
            && g as u64 == guild_id,
{
    lemma_id_round_trip(guild_id);
    lemma_id_round_trip(mod_channel_id);
    lemma_id_round_trip(access_role_id);
    if let Some(x) = remove_role_id {
        lemma_id_round_trip(x);
    }
}

/// A guild that has only just been joined sends no triage requests.
pub proof fn lemma_fresh_guild_sends_no_requests(guild_id: i64)
    ensures
        join_start(TriageConfig::fresh(guild_id)) == JoinStepView::LetIn,
{
}

/// After `/config triage enable` on a guild with a row, a joining member's
/// request goes to the chosen moderator channel, approvals give the chosen
/// access role and take the chosen remove role.
pub proof fn lemma_enable_then_join(
    table: Map<i64, TriageConfig>,
    guild_id: u64,
    mod_channel_id: u64,
    access_role_id: u64,
    remove_role_id: Option<u64>,
)
    requires
        table.contains_key(guild_id as i64),
    ensures
        ({
            let u = enable_update_of(guild_id, mod_channel_id, access_role_id, remove_role_id);
            let row = apply_update(table, u)[guild_id as i64];
            &&& join_start(row) == JoinStepView::FetchChannel { channel_id: mod_channel_id }
            &&& row.access_role_id matches Some(a) && a as u64 == access_role_id
            &&& match remove_role_id {
                Some(x) => row.remove_role_id matches Some(r) && r as u64 == x,
                None => row.remove_role_id is None,
            }
        }),
{
    lemma_id_round_trip(mod_channel_id);
    lemma_id_round_trip(access_role_id);
    if let Some(x) = remove_role_id {
        lemma_id_round_trip(x);
    }
}

/// After `/config triage disable`, joining members are let through without a
/// request; the channel and roles stay as they were, and no other guild's
/// row changes.
pub proof fn lemma_disable_then_join(table: Map<i64, TriageConfig>, guild_id: u64)
    requires
        table.contains_key(guild_id as i64),
    ensures
        ({
            let g = guild_id as i64;
            let after = apply_update(table, disable_update_of(guild_id));
            &&& join_start(after[g]) == JoinStepView::LetIn
            &&& after[g].mod_channel_id == table[g].mod_channel_id
            &&& after[g].access_role_id == table[g].access_role_id
            &&& after[g].remove_role_id == table[g].remove_role_id
            &&& forall|h: i64| h != g ==> after.contains_key(h) == table.contains_key(h) && (
            table.contains_key(h) ==> #[trigger] after[h] == table[h])
        }),
{
}


/// What the first command set's `/config triage` asks for once its choices
/// are checked.
#[derive(Debug, Clone, Copy, PartialEq, Eq, Structural)]
pub enum LegacyChange {
    /// Turn triage on with this moderator channel and member role.
    Enable { moderator_channel_id: u64, member_role_id: u64 },
    /// Turn triage off.
    Disable,
}

/// A change to the `triage` table in its first layout.
#[derive(Debug, Clone, Copy, PartialEq, Eq, Structural)]
pub enum LegacyUpdate {
    /// `UPDATE triage SET enabled = true, moderator_channel_id = .., member_role_id = ..
    /// WHERE guild_id = ..`.
    Enable { guild_id: i64, moderator_channel_id: i64, member_role_id: i64 },
    /// `UPDATE triage SET enabled = false WHERE guild_id = ..`.
    Disable { guild_id: i64 },
}

/// The title of a refused or failed change.
pub open spec fn legacy_failure_title(enabling: bool) -> Seq<char> {
    if enabling {
        "Failed to enable config: `triage`"@
    } else {
        "Failed to disable config: `triage`"@
    }
}

/// The title of a change that went through.
pub open spec fn legacy_success_title(enabling: bool) -> Seq<char> {
    if enabling {
        "Successfully enabled config: `triage`"@
    } else {
        "Successfully disabled config: `triage`"@
    }
}

/// The choices that are missing for turning triage on, if any.
pub open spec fn legacy_missing(moderator_channel: Option<u64>, member_role: Option<u64>) -> Option<Seq<char>> {
    if moderator_channel is None && member_role is None {
        Some("`moderator_channel` and `member_role` must be selected"@)
    } else if moderator_channel is None {
        Some("`moderator_channel` must be selected"@)
    } else if member_role is None {
        Some("`member_role` must be selected"@)
    } else {
        None
    }
}

/// The embed that refuses turning triage on because of `missing`.
pub open spec fn legacy_refusal(missing: Seq<char>) -> EmbedView {
    EmbedView {
        title: legacy_failure_title(true),
        description: Some(missing),
        color: REFUSED_COLOR,
        footer: None,
    }
}

/// The embed that answers a change once the database has run it: success,
/// or failure with the database's error text.
pub open spec fn legacy_outcome(enabling: bool, db_error: Option<Seq<char>>) -> EmbedView {
    match db_error {
        None => EmbedView {
            title: legacy_success_title(enabling),
            description: None,
            color: ACCEPTED_COLOR,
            footer: None,
        },
        Some(err) => EmbedView {
            title: legacy_failure_title(enabling),
            description: Some(err),
            color: REFUSED_COLOR,
            footer: None,
        },
    }
}

/// The change the first command set's `/config triage` asks for when its
/// choices are complete.
pub open spec fn legacy_change_of(
    is_enabled: bool,
    moderator_channel: Option<u64>,
    member_role: Option<u64>,
) -> LegacyChange {
    if is_enabled {
        LegacyChange::Enable {
            moderator_channel_id: moderator_channel->0,
            member_role_id: member_role->0,
        }
    } else {
        LegacyChange::Disable
    }
}

/// Whether the first command set's `/config triage` refuses its choices.
pub open spec fn legacy_refused(
    is_enabled: bool,
    moderator_channel: Option<u64>,
    member_role: Option<u64>,
) -> bool {
    is_enabled && legacy_missing(moderator_channel, member_role) is Some
}

/// The table change a checked change makes for the guild `guild_id`.
pub open spec fn legacy_update_of(change: LegacyChange, guild_id: u64) -> LegacyUpdate {
    match change {
        LegacyChange::Enable { moderator_channel_id, member_role_id } => LegacyUpdate::Enable {
            guild_id: guild_id as i64,
            moderator_channel_id: moderator_channel_id as i64,
            member_role_id: member_role_id as i64,
        },
        LegacyChange::Disable => LegacyUpdate::Disable { guild_id: guild_id as i64 },
    }
}

/// Checks the choices of the first command set's `/config triage`: turning
/// triage off always goes ahead; turning it on needs both a moderator channel
/// and a member role, and without them is refused with a reply, seen only by
/// the caller, saying which are missing.
pub fn legacy_triage_change(
    is_enabled: bool,
    moderator_channel: Option<u64>,
    member_role: Option<u64>,
) -> (r: Result<LegacyChange, Reply>)
    ensures
        r is Err <==> legacy_refused(is_enabled, moderator_channel, member_role),
        r matches Ok(change) ==> change == legacy_change_of(
            is_enabled,
            moderator_channel,
            member_role,
        ),
        r matches Err(reply) ==> reply@ == (ReplyView {
            embed: legacy_refusal(legacy_missing(moderator_channel, member_role)->0),
            ephemeral: true,
        }),
{
    if !is_enabled {
        return Ok(LegacyChange::Disable);
    }
    let title = String::from_str("Failed to enable config: `triage`");
    let missing = match (moderator_channel, member_role) {
        (None, None) => String::from_str("`moderator_channel` and `member_role` must be selected"),
        (None, Some(_)) => String::from_str("`moderator_channel` must be selected"),
        (Some(_), None) => String::from_str("`member_role` must be selected"),
        (Some(c), Some(m)) => {
            return Ok(LegacyChange::Enable { moderator_channel_id: c, member_role_id: m });
        },
    };
    Err(Reply { embed: notice_embed(title, Some(missing), REFUSED_COLOR), ephemeral: true })
}

/// What a checked change writes for the guild `guild_id`.
pub fn legacy_update(change: LegacyChange, guild_id: u64) -> (u: LegacyUpdate)
    ensures
        u == legacy_update_of(change, guild_id),
{
    match change {
        LegacyChange::Enable { moderator_channel_id, member_role_id } => LegacyUpdate::Enable {
            guild_id: guild_id as i64,
            moderator_channel_id: moderator_channel_id as i64,
            member_role_id: member_role_id as i64,
        },
        LegacyChange::Disable => LegacyUpdate::Disable { guild_id: guild_id as i64 },
    }
}

/// The reply, seen only by the caller, once the database has run a change:
/// success, or the database's error text `db_error`.
pub fn legacy_change_reply(change: LegacyChange, db_error: Option<String>) -> (r: Reply)
    ensures
        r@ == (ReplyView {
            embed: legacy_outcome(
                change is Enable,
                match db_error {
                    Some(e) => Some(e@),
                    None => None,
                },
            ),
            ephemeral: true,
        }),
{
    let enabling = match change {
        LegacyChange::Enable { .. } => true,
        LegacyChange::Disable => false,
    };
    let embed = match db_error {
        None => {
            let title = if enabling {
                String::from_str("Successfully enabled config: `triage`")
            } else {
                String::from_str("Successfully disabled config: `triage`")
            };
            notice_embed(title, None, ACCEPTED_COLOR)
        },
        Some(err) => {
            let title = if enabling {
                String::from_str("Failed to enable config: `triage`")
            } else {
                String::from_str("Failed to disable config: `triage`")
            };
            notice_embed(title, Some(err), REFUSED_COLOR)
        },
    };
    Reply { embed, ephemeral: true }
}

/// Everything the first command set's `/config triage` does for the guild
/// `guild_id`, given what the database answers (`db_error`, when it fails):
/// the table change it runs, if any, and its one reply.
pub open spec fn legacy_answer(
    is_enabled: bool,
    moderator_channel: Option<u64>,
    member_role: Option<u64>,
    guild_id: u64,
    db_error: Option<Seq<char>>,
) -> (Option<LegacyUpdate>, ReplyView) {
    if legacy_refused(is_enabled, moderator_channel, member_role) {
        (
            None,
            ReplyView {
                embed: legacy_refusal(legacy_missing(moderator_channel, member_role)->0),
                ephemeral: true,
            },
        )
    } else {
        let change = legacy_change_of(is_enabled, moderator_channel, member_role);
        (
            Some(legacy_update_of(change, guild_id)),
            ReplyView { embed: legacy_outcome(is_enabled, db_error), ephemeral: true },
        )
    }
}

/// The first command set's `/config triage` stores the ids it is given: the
/// guild, moderator channel and member role of the change it writes read
/// back as the ones chosen, and turning triage off writes for the caller's
/// guild.
pub proof fn lemma_legacy_update_stores_choices(
    moderator_channel_id: u64,
    member_role_id: u64,
    guild_id: u64,
)
    ensures
        legacy_update_of(
            LegacyChange::Enable { moderator_channel_id, member_role_id },
            guild_id,
        ) matches LegacyUpdate::Enable { guild_id: g, moderator_channel_id: c, member_role_id: m }
            && g as u64 == guild_id && c as u64 == moderator_channel_id && m as u64
            == member_role_id,
        legacy_update_of(LegacyChange::Disable, guild_id) matches LegacyUpdate::Disable {
            guild_id: g,
        } && g as u64 == guild_id,
        legacy_change_of(true, Some(moderator_channel_id), Some(member_role_id))
            == (LegacyChange::Enable { moderator_channel_id, member_role_id }),
        legacy_change_of(false, None, None) == LegacyChange::Disable,
{
    lemma_id_round_trip(guild_id);
    lemma_id_round_trip(moderator_channel_id);
    lemma_id_round_trip(member_role_id);
}

/// The first command set's `/config triage` answers every call with exactly
/// one reply, seen only by the caller: a refusal that names the missing
/// choices, with the table untouched; otherwise the table change for the
/// caller's guild, then success when the database ran it and its error when
/// it did not. Turning triage off is never refused.
pub proof fn lemma_legacy_command_answers_once(
    is_enabled: bool,
    moderator_channel: Option<u64>,
    member_role: Option<u64>,
    guild_id: u64,
    db_error: Option<Seq<char>>,
)
    ensures
        ({
            let (update, reply) = legacy_answer(
                is_enabled,
                moderator_channel,
                member_role,
                guild_id,
                db_error,
            );
            &&& reply.ephemeral
            &&& reply.embed.footer is None
            &&& !is_enabled ==> !legacy_refused(is_enabled, moderator_channel, member_role)
            &&& update is None <==> legacy_refused(is_enabled, moderator_channel, member_role)
            &&& legacy_refused(is_enabled, moderator_channel, member_role) ==> reply.embed.title
                == legacy_failure_title(true) && reply.embed.color == REFUSED_COLOR
            &&& !legacy_refused(is_enabled, moderator_channel, member_role) ==> {
                &&& update == Some(
                    legacy_update_of(
                        legacy_change_of(is_enabled, moderator_channel, member_role),
                        guild_id,
                    ),
                )
                &&& (update matches Some(LegacyUpdate::Enable { .. })) == is_enabled
                &&& db_error is None ==> reply.embed.title == legacy_success_title(is_enabled)
                    && reply.embed.color == ACCEPTED_COLOR
                &&& db_error matches Some(err) ==> reply.embed.title == legacy_failure_title(
                    is_enabled,
                ) && reply.embed.description == Some(err) && reply.embed.color == REFUSED_COLOR
            }
        }),
{
}

/// The first-layout table after `u`: an update of a guild without a row
/// changes nothing.
pub open spec fn apply_legacy_update(table: Map<i64, TriageDb>, u: LegacyUpdate) -> Map<i64, TriageDb> {
    match u {
        LegacyUpdate::Enable { guild_id, moderator_channel_id, member_role_id } => if table.contains_key(guild_id) {
            table.insert(
                guild_id,
                TriageDb {
                    enabled: true,
                    moderator_channel_id: Some(moderator_channel_id),
                    member_role_id: Some(member_role_id),
                    ..table[guild_id]
                },
            )
        } else {
            table
        },
        LegacyUpdate::Disable { guild_id } => if table.contains_key(guild_id) {
            table.insert(guild_id, TriageDb { enabled: false, ..table[guild_id] })
        } else {
            table
        },
    }
}

/// Once the first command set's `/config triage` is accepted for a guild with
/// a row, the row holds what was chosen: on with the chosen channel and role,
/// or off with its channel and role kept.
pub proof fn lemma_legacy_change_is_stored(
    table: Map<i64, TriageDb>,
    guild_id: u64,
    change: LegacyChange,
)
    requires
        table.contains_key(guild_id as i64),
    ensures
        ({
            let g = guild_id as i64;
            let u = match change {
                LegacyChange::Enable { moderator_channel_id, member_role_id } => LegacyUpdate::Enable {
                    guild_id: g,
                    moderator_channel_id: moderator_channel_id as i64,
                    member_role_id: member_role_id as i64,
                },
                LegacyChange::Disable => LegacyUpdate::Disable { guild_id: g },
            };
            let row = apply_legacy_update(table, u)[g];
            match change {
                LegacyChange::Enable { moderator_channel_id, member_role_id } => {
                    &&& row.enabled
                    &&& row.moderator_channel_id matches Some(c) && c as u64 == moderator_channel_id
                    &&& row.member_role_id matches Some(m) && m as u64 == member_role_id
                },
                LegacyChange::Disable => {
                    &&& !row.enabled
                    &&& row.moderator_channel_id == table[g].moderator_channel_id
                    &&& row.member_role_id == table[g].member_role_id
                },
            }
        }),
{
    if let LegacyChange::Enable { moderator_channel_id, member_role_id } = change {
        lemma_id_round_trip(moderator_channel_id);
        lemma_id_round_trip(member_role_id);
    }
}


/// The texts of the first command set's `/config triage`: what it says when
/// it refuses, fails or succeeds, and which choices it names as missing.
pub proof fn lemma_legacy_texts(moderator_channel: Option<u64>, member_role: Option<u64>)
    ensures
        legacy_failure_title(true) == "Failed to enable config: `triage`"@,
        legacy_failure_title(false) == "Failed to disable config: `triage`"@,
        legacy_success_title(true) == "Successfully enabled config: `triage`"@,
        legacy_success_title(false) == "Successfully disabled config: `triage`"@,
        moderator_channel is None && member_role is None ==> legacy_missing(
            moderator_channel,
            member_role,
        ) == Some("`moderator_channel` and `member_role` must be selected"@),
        moderator_channel is None && member_role is Some ==> legacy_missing(
            moderator_channel,
            member_role,
        ) == Some("`moderator_channel` must be selected"@),
        moderator_channel is Some && member_role is None ==> legacy_missing(
            moderator_channel,
            member_role,
        ) == Some("`member_role` must be selected"@),
        moderator_channel is Some && member_role is Some ==> legacy_missing(
            moderator_channel,
            member_role,
        ) is None,
        legacy_refusal(legacy_missing(moderator_channel, member_role)->0).color == 0xc92020u32,
        legacy_outcome(true, None).color == 0x34eb46u32,
        legacy_outcome(false, None).color == 0x34eb46u32,
{
}

} // verus!
