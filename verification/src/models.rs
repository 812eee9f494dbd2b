//! The rows the bot keeps per guild and the errors of the triage module.
use vstd::prelude::*;
use crate::decimal::{ParseIdError, parse_error_text};

verus! {

/// A guild's row of the `triage` table in its first layout, which the
/// `/config triage` command of the first command set writes.
#[derive(Debug, Clone, Copy, PartialEq, Eq, Structural)]
pub struct TriageDb {
    pub guild_id: i64,
    pub enabled: bool,
    pub moderator_channel_id: Option<i64>,
    pub member_role_id: Option<i64>,
}

/// A guild's row of the `triage` table: whether triage is on, where requests
/// go, the role an approved member gets and the role an approved member loses.
#[derive(Debug, Clone, Copy, PartialEq, Eq, Structural)]
pub struct TriageConfig {
    pub guild_id: i64,
    pub enabled: bool,
    pub mod_channel_id: Option<i64>,
    pub access_role_id: Option<i64>,
    pub remove_role_id: Option<i64>,
}

impl TriageConfig {
    /// The row a guild gets when the bot first joins it: triage off, nothing set.
    pub open spec fn fresh(guild_id: i64) -> TriageConfig {
        TriageConfig {
            guild_id,
            enabled: false,
            mod_channel_id: None,
            access_role_id: None,
            remove_role_id: None,
        }
    }
}

/// What can go wrong in the triage module itself.
#[derive(Debug, Clone, PartialEq, Eq)]
pub enum TriageError {
    /// Triage is on but no moderator channel is set.
    ChannelNotFound,
    /// The role to take from an approved member is known neither to the
    /// member nor to the cache.
    RoleNotFound,
    /// A pressed button's custom id names no user id.
    UserIdParse(ParseIdError),
    /// The approved member lacks the role to take; it reads `name (id: id)`.
    UserRoleNotFound(String),
}

/// A `TriageError` with its text as a sequence of characters.
pub enum TriageErrorView {
    ChannelNotFound,
    RoleNotFound,
    UserIdParse(ParseIdError),
    UserRoleNotFound(Seq<char>),
}

impl View for TriageError {
    type V = TriageErrorView;

    open spec fn view(&self) -> TriageErrorView {
        match self {
            TriageError::ChannelNotFound => TriageErrorView::ChannelNotFound,
            TriageError::RoleNotFound => TriageErrorView::RoleNotFound,
            TriageError::UserIdParse(e) => TriageErrorView::UserIdParse(*e),
            TriageError::UserRoleNotFound(s) => TriageErrorView::UserRoleNotFound(s@),
        }
    }
}

/// The text a triage error displays.
pub open spec fn triage_error_text(e: TriageErrorView) -> Seq<char> {
    match e {
        TriageErrorView::ChannelNotFound => "Channel not found"@,
        TriageErrorView::RoleNotFound => "Role not found"@,
        TriageErrorView::UserIdParse(p) => "Failed to parse user ID: "@ + parse_error_text(p),
        TriageErrorView::UserRoleNotFound(r) => "User does not have role: "@ + r,
    }
}

impl TriageError {
    /// The text this error displays.
    pub fn message(&self) -> (text: String)
        ensures
            text@ == triage_error_text(self@),
    {
        match self {
            TriageError::ChannelNotFound => String::from_str("Channel not found"),
            TriageError::RoleNotFound => String::from_str("Role not found"),
            TriageError::UserIdParse(e) => {
                let detail = e.message();
                String::from_str("Failed to parse user ID: ").concat(detail.as_str())
            },
            TriageError::UserRoleNotFound(r) => {
                String::from_str("User does not have role: ").concat(r.as_str())
            },
        }
    }
}


/// The texts the triage errors display: the two the module names, and the
/// parse error and missing role each following their lead.
pub proof fn lemma_triage_error_texts(p: ParseIdError, role: Seq<char>)
    ensures
        triage_error_text(TriageErrorView::ChannelNotFound) == "Channel not found"@,
        triage_error_text(TriageErrorView::RoleNotFound) == "Role not found"@,
        triage_error_text(TriageErrorView::UserIdParse(p)) == "Failed to parse user ID: "@
            + parse_error_text(p),
        triage_error_text(TriageErrorView::UserRoleNotFound(role)) == "User does not have role: "@
            + role,
{
}

} // verus!
