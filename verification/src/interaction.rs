//! What pressing a triage button sets in motion, as a machine that the
//! program drives: each step names the Discord or database work to do next,
//! and the program answers with what that work gave.
use vstd::prelude::*;
use crate::decimal::{decimal, ParseIdError, push_decimal};
use crate::buttons::{
    TriageDecision, button_id, decision_of, user_id_of, decision_of_custom_id,
    user_id_of_custom_id, lemma_button_round_trip,
};
use crate::models::{TriageError, TriageErrorView};

verus! {

/// Where a button press stands.
#[derive(Debug, Clone, Copy, PartialEq, Eq, Structural)]
pub enum Stage {
    /// The pressed button's user is being fetched.
    AwaitUser,
    /// The guild's access role is being read.
    AwaitAccessRole,
    /// The access role is being given.
    AwaitRoleAdded,
    /// The guild's remove role is being read.
    AwaitRemoveRole,
    /// Whether the member holds the remove role `role_id` is being checked.
    AwaitRoleCheck { role_id: u64 },
    /// The remove role is being taken.
    AwaitRoleRemoved,
    /// The remove role `role_id` is being looked up in the cache.
    AwaitRoleLookup { role_id: u64 },
    /// The member is being kicked.
    AwaitKick,
    /// The user is being banned.
    AwaitBan,
    /// Nothing is left to do.
    Finished,
}

/// A button press in progress: the user it is about, the decision it asks
/// for, and where it stands.
#[derive(Debug, Clone, Copy, PartialEq, Eq, Structural)]
pub struct InteractionState {
    pub user_id: u64,
    pub decision: Option<TriageDecision>,
    pub stage: Stage,
}

/// What the work that a step asked for gave.
#[derive(Debug, Clone, PartialEq, Eq)]
pub enum InteractionEvent {
    /// The user was fetched.
    UserFetched,
    /// The guild's access role column was read.
    AccessRoleFetched(Option<i64>),
    /// The access role was given.
    RoleAdded,
    /// The guild's remove role column was read.
    RemoveRoleFetched(Option<i64>),
    /// Whether the member holds the remove role.
    RoleChecked(bool),
    /// The remove role was taken.
    RoleRemoved,
    /// The name of the remove role, if the cache knows the role.
    RoleLookedUp(Option<String>),
    /// The member was kicked.
    MemberKicked,
    /// The user was banned.
    UserBanned,
}

/// An event with its texts as sequences of characters.
pub enum InteractionEventView {
    UserFetched,
    AccessRoleFetched(Option<i64>),
    RoleAdded,
    RemoveRoleFetched(Option<i64>),
    RoleChecked(bool),
    RoleRemoved,
    RoleLookedUp(Option<Seq<char>>),
    MemberKicked,
    UserBanned,
}

impl View for InteractionEvent {
    type V = InteractionEventView;

    open spec fn view(&self) -> InteractionEventView {
        match self {
            InteractionEvent::UserFetched => InteractionEventView::UserFetched,
            InteractionEvent::AccessRoleFetched(r) => InteractionEventView::AccessRoleFetched(*r),
            InteractionEvent::RoleAdded => InteractionEventView::RoleAdded,
            InteractionEvent::RemoveRoleFetched(r) => InteractionEventView::RemoveRoleFetched(*r),
            InteractionEvent::RoleChecked(b) => InteractionEventView::RoleChecked(*b),
            InteractionEvent::RoleRemoved => InteractionEventView::RoleRemoved,
            InteractionEvent::RoleLookedUp(n) => InteractionEventView::RoleLookedUp(
                match n {
                    Some(s) => Some(s@),
                    None => None,
                },
            ),
            InteractionEvent::MemberKicked => InteractionEventView::MemberKicked,
            InteractionEvent::UserBanned => InteractionEventView::UserBanned,
        }
    }
}

/// The work that a button press asks for next.
#[derive(Debug, Clone, PartialEq, Eq)]
pub enum InteractionStep {
    /// Fetch the user `user_id`.
    FetchUser { user_id: u64 },
    /// Read the guild's access role.
    FetchAccessRole,
    /// Give the member `user_id` the role `role_id`.
    AddRole { user_id: u64, role_id: u64 },
    /// Read the guild's remove role.
    FetchRemoveRole,
    /// Check whether the member `user_id` holds the role `role_id`.
    CheckRole { user_id: u64, role_id: u64 },
    /// Take the role `role_id` from the member `user_id`.
    RemoveRole { user_id: u64, role_id: u64 },
    /// Look the role `role_id` up in the cache.
    LookupRole { role_id: u64 },
    /// Kick the member `user_id`.
    Kick { user_id: u64 },
    /// Ban the user `user_id`, deleting `delete_message_days` days of messages.
    Ban { user_id: u64, delete_message_days: u8 },
    /// Replace the request with the response to `decision` on `user_id`.
    Respond { decision: TriageDecision, user_id: u64 },
    /// Stop with the error.
    Fail(TriageError),
    /// Stop; nothing is left to do.
    Finish,
}

/// A step with its texts as sequences of characters.
pub enum InteractionStepView {
    FetchUser { user_id: u64 },
    FetchAccessRole,
    AddRole { user_id: u64, role_id: u64 },
    FetchRemoveRole,
    CheckRole { user_id: u64, role_id: u64 },
    RemoveRole { user_id: u64, role_id: u64 },
    LookupRole { role_id: u64 },
    Kick { user_id: u64 },
    Ban { user_id: u64, delete_message_days: u8 },
    Respond { decision: TriageDecision, user_id: u64 },
    Fail(TriageErrorView),
    Finish,
}

impl View for InteractionStep {
    type V = InteractionStepView;

    open spec fn view(&self) -> InteractionStepView {
        match *self {
            InteractionStep::FetchUser { user_id } => InteractionStepView::FetchUser { user_id },
            InteractionStep::FetchAccessRole => InteractionStepView::FetchAccessRole,
            InteractionStep::AddRole { user_id, role_id } => InteractionStepView::AddRole {
                user_id,
                role_id,
            },
            InteractionStep::FetchRemoveRole => InteractionStepView::FetchRemoveRole,
            InteractionStep::CheckRole { user_id, role_id } => InteractionStepView::CheckRole {
                user_id,
                role_id,
            },
            InteractionStep::RemoveRole { user_id, role_id } => InteractionStepView::RemoveRole {
                user_id,
                role_id,
            },
            InteractionStep::LookupRole { role_id } => InteractionStepView::LookupRole { role_id },
            InteractionStep::Kick { user_id } => InteractionStepView::Kick { user_id },
            InteractionStep::Ban { user_id, delete_message_days } => InteractionStepView::Ban {
                user_id,
                delete_message_days,
            },
            InteractionStep::Respond { decision, user_id } => InteractionStepView::Respond {
                decision,
                user_id,
            },
            InteractionStep::Fail(e) => InteractionStepView::Fail(e@),
            InteractionStep::Finish => InteractionStepView::Finish,
        }
    }
}

/// The text that names a role the member lacks: `name (id: id)`.
pub open spec fn missing_role_text(name: Seq<char>, role_id: u64) -> Seq<char> {
    name + " (id: "@ + decimal(role_id as nat) + ")"@
}

/// How a press of the button with custom id `id` starts: with the user it
/// names fetched, or with the error that it names none.
pub open spec fn start(id: Seq<char>) -> Result<(InteractionState, InteractionStepView), TriageErrorView> {
    match user_id_of(id) {
        Err(e) => Err(TriageErrorView::UserIdParse(e)),
        Ok(u) => Ok(
            (
                InteractionState { user_id: u, decision: decision_of(id), stage: Stage::AwaitUser },
                InteractionStepView::FetchUser { user_id: u },
            ),
        ),
    }
}

/// Whether `e` reports the outcome of the work that stage `stage` waits on
/// (a guild's access role is always set when a member is approved).
pub open spec fn answers(stage: Stage, e: InteractionEventView) -> bool {
    match (stage, e) {
        (Stage::AwaitUser, InteractionEventView::UserFetched) => true,
        (Stage::AwaitAccessRole, InteractionEventView::AccessRoleFetched(r)) => r is Some,
        (Stage::AwaitRoleAdded, InteractionEventView::RoleAdded) => true,
        (Stage::AwaitRemoveRole, InteractionEventView::RemoveRoleFetched(_)) => true,
        (Stage::AwaitRoleCheck { .. }, InteractionEventView::RoleChecked(_)) => true,
        (Stage::AwaitRoleRemoved, InteractionEventView::RoleRemoved) => true,
        (Stage::AwaitRoleLookup { .. }, InteractionEventView::RoleLookedUp(_)) => true,
        (Stage::AwaitKick, InteractionEventView::MemberKicked) => true,
        (Stage::AwaitBan, InteractionEventView::UserBanned) => true,
        _ => false,
    }
}

/// The state `s` moved to `stage`.
pub open spec fn at(s: InteractionState, stage: Stage) -> InteractionState {
    InteractionState { stage, ..s }
}

/// The state and step that follow state `s` once `e` reports what its work gave.
pub open spec fn next(s: InteractionState, e: InteractionEventView) -> (InteractionState, InteractionStepView) {
    let u = s.user_id;
    match (s.stage, e) {
        (Stage::AwaitUser, _) => match s.decision {
            Some(TriageDecision::Approve) => (
                at(s, Stage::AwaitAccessRole),
                InteractionStepView::FetchAccessRole,
            ),
            Some(TriageDecision::Kick) => (at(s, Stage::AwaitKick), InteractionStepView::Kick { user_id: u }),
            Some(TriageDecision::Ban) => (
                at(s, Stage::AwaitBan),
                InteractionStepView::Ban { user_id: u, delete_message_days: 0 },
            ),
            None => (at(s, Stage::Finished), InteractionStepView::Finish),
        },
        (Stage::AwaitAccessRole, InteractionEventView::AccessRoleFetched(r)) => (
            at(s, Stage::AwaitRoleAdded),
            InteractionStepView::AddRole { user_id: u, role_id: r->0 as u64 },
        ),
        (Stage::AwaitRoleAdded, _) => (
            at(s, Stage::AwaitRemoveRole),
            InteractionStepView::FetchRemoveRole,
        ),
        (Stage::AwaitRemoveRole, InteractionEventView::RemoveRoleFetched(r)) => match r {
            None => (
                at(s, Stage::Finished),
                InteractionStepView::Respond { decision: TriageDecision::Approve, user_id: u },
            ),
            Some(x) => (
                at(s, Stage::AwaitRoleCheck { role_id: x as u64 }),
                InteractionStepView::CheckRole { user_id: u, role_id: x as u64 },
            ),
        },
        (Stage::AwaitRoleCheck { role_id }, InteractionEventView::RoleChecked(held)) => if held {
            (
                at(s, Stage::AwaitRoleRemoved),
                InteractionStepView::RemoveRole { user_id: u, role_id },
            )
        } else {
            (at(s, Stage::AwaitRoleLookup { role_id }), InteractionStepView::LookupRole { role_id })
        },
        (Stage::AwaitRoleRemoved, _) => (
            at(s, Stage::Finished),
            InteractionStepView::Respond { decision: TriageDecision::Approve, user_id: u },
        ),
        (Stage::AwaitRoleLookup { role_id }, InteractionEventView::RoleLookedUp(name)) => match name {
            Some(n) => (
                at(s, Stage::Finished),
                InteractionStepView::Fail(
                    TriageErrorView::UserRoleNotFound(missing_role_text(n, role_id)),
                ),
            ),
            None => (at(s, Stage::Finished), InteractionStepView::Fail(TriageErrorView::RoleNotFound)),
        },
        (Stage::AwaitKick, _) => (
            at(s, Stage::Finished),
            InteractionStepView::Respond { decision: TriageDecision::Kick, user_id: u },
        ),
        (Stage::AwaitBan, _) => (
            at(s, Stage::Finished),
            InteractionStepView::Respond { decision: TriageDecision::Ban, user_id: u },
        ),
        _ => (s, InteractionStepView::Finish),
    }
}

/// How many steps a press can still take from `stage` at most.
pub open spec fn remaining(stage: Stage) -> nat {
    match stage {
        Stage::AwaitUser => 6,
        Stage::AwaitAccessRole => 5,
        Stage::AwaitRoleAdded => 4,
        Stage::AwaitRemoveRole => 3,
        Stage::AwaitRoleCheck { .. } => 2,
        Stage::AwaitRoleRemoved => 1,
        Stage::AwaitRoleLookup { .. } => 1,
        Stage::AwaitKick => 1,
        Stage::AwaitBan => 1,
        Stage::Finished => 0,
    }
}

/// The audit log reason recorded with the role changes, kick or ban that a
/// decision carries out.
pub open spec fn audit_reason_text(d: TriageDecision) -> Seq<char> {
    match d {
        TriageDecision::Approve => "Approved user from triage."@,
        TriageDecision::Kick => "User failed triage (kicked)"@,
        TriageDecision::Ban => "User failed triage (banned)"@,
    }
}

/// The audit log reason for the work a decision carries out.
pub fn audit_reason(d: TriageDecision) -> (text: String)
    ensures
        text@ == audit_reason_text(d),
{
    match d {
        TriageDecision::Approve => String::from_str("Approved user from triage."),
        TriageDecision::Kick => String::from_str("User failed triage (kicked)"),
        TriageDecision::Ban => String::from_str("User failed triage (banned)"),
    }
}

/// Starts a press of the button with custom id `custom_id`: reads the user id
/// and the decision out of it and asks for the user.
pub fn begin_interaction(custom_id: &str) -> (r: Result<(InteractionState, InteractionStep), TriageError>)
    requires
        user_id_of(custom_id@) != Ok::<u64, ParseIdError>(0),
    ensures
        match r {
            Ok((s, step)) => start(custom_id@) == Ok::<
                (InteractionState, InteractionStepView),
                TriageErrorView,
            >((s, step@)),
            Err(e) => start(custom_id@) == Err::<
                (InteractionState, InteractionStepView),
                TriageErrorView,
            >(e@),
        },
{
    match user_id_of_custom_id(custom_id) {
        Err(e) => Err(TriageError::UserIdParse(e)),
        Ok(u) => {
            let decision = decision_of_custom_id(custom_id);
            Ok(
                (
                    InteractionState { user_id: u, decision, stage: Stage::AwaitUser },
                    InteractionStep::FetchUser { user_id: u },
                ),
            )
        },
    }
}

/// Moves a press on once `event` reports what the work of its current step gave.
pub fn advance(s: InteractionState, event: InteractionEvent) -> (r: (InteractionState, InteractionStep))
    requires
        answers(s.stage, event@),
    ensures
        (r.0, r.1@) == next(s, event@),
        remaining(r.0.stage) < remaining(s.stage),
{
    let u = s.user_id;
    match (s.stage, event) {
        (Stage::AwaitUser, _) => match s.decision {
            Some(TriageDecision::Approve) => (
                InteractionState { stage: Stage::AwaitAccessRole, ..s },
                InteractionStep::FetchAccessRole,
            ),
            Some(TriageDecision::Kick) => (
                InteractionState { stage: Stage::AwaitKick, ..s },
                InteractionStep::Kick { user_id: u },
            ),
            Some(TriageDecision::Ban) => (
                InteractionState { stage: Stage::AwaitBan, ..s },
                InteractionStep::Ban { user_id: u, delete_message_days: 0 },
            ),
            None => (InteractionState { stage: Stage::Finished, ..s }, InteractionStep::Finish),
        },
        (Stage::AwaitAccessRole, InteractionEvent::AccessRoleFetched(r)) => {
            let role = match r {
                Some(x) => x,
                None => 0,
            };
            (
                InteractionState { stage: Stage::AwaitRoleAdded, ..s },
                InteractionStep::AddRole { user_id: u, role_id: role as u64 },
            )
        },
        (Stage::AwaitRoleAdded, _) => (
            InteractionState { stage: Stage::AwaitRemoveRole, ..s },
            InteractionStep::FetchRemoveRole,
        ),
        (Stage::AwaitRemoveRole, InteractionEvent::RemoveRoleFetched(r)) => match r {
            None => (
                InteractionState { stage: Stage::Finished, ..s },
                InteractionStep::Respond { decision: TriageDecision::Approve, user_id: u },
            ),
            Some(x) => (
                InteractionState { stage: Stage::AwaitRoleCheck { role_id: x as u64 }, ..s },
                InteractionStep::CheckRole { user_id: u, role_id: x as u64 },
            ),
        },
        (Stage::AwaitRoleCheck { role_id }, InteractionEvent::RoleChecked(held)) => if held {
            (
                InteractionState { stage: Stage::AwaitRoleRemoved, ..s },
                InteractionStep::RemoveRole { user_id: u, role_id },
            )
        } else {
            (
                InteractionState { stage: Stage::AwaitRoleLookup { role_id }, ..s },
                InteractionStep::LookupRole { role_id },
            )
        },
        (Stage::AwaitRoleRemoved, _) => (
            InteractionState { stage: Stage::Finished, ..s },
            InteractionStep::Respond { decision: TriageDecision::Approve, user_id: u },
        ),
        (Stage::AwaitRoleLookup { role_id }, InteractionEvent::RoleLookedUp(name)) => match name {
            Some(n) => {
                let mut text = n;
                text.append(" (id: ");
                push_decimal(&mut text, role_id);
                text.append(")");
                (
                    InteractionState { stage: Stage::Finished, ..s },
                    InteractionStep::Fail(TriageError::UserRoleNotFound(text)),
                )
            },
            None => (
                InteractionState { stage: Stage::Finished, ..s },
                InteractionStep::Fail(TriageError::RoleNotFound),
            ),
        },
        (Stage::AwaitKick, _) => (
            InteractionState { stage: Stage::Finished, ..s },
            InteractionStep::Respond { decision: TriageDecision::Kick, user_id: u },
        ),
        (Stage::AwaitBan, _) => (
            InteractionState { stage: Stage::Finished, ..s },
            InteractionStep::Respond { decision: TriageDecision::Ban, user_id: u },
        ),
        _ => (s, InteractionStep::Finish),
    }
}


/// Whether the stage of `s` belongs to the branch of its decision: the role
/// stages to an approval, the kick stage to a kick, the ban stage to a ban.
pub open spec fn consistent(s: InteractionState) -> bool {
    match s.stage {
        Stage::AwaitUser | Stage::Finished => true,
        Stage::AwaitKick => s.decision == Some(TriageDecision::Kick),
        Stage::AwaitBan => s.decision == Some(TriageDecision::Ban),
        _ => s.decision == Some(TriageDecision::Approve),
    }
}

/// Whether `step` leaves nothing to wait for: a response, an error or the end.
pub open spec fn is_final_step(step: InteractionStepView) -> bool {
    step is Respond || step is Fail || step is Finish
}

/// Pressing a triage button acts on the user and with the decision the
/// button was made for: the press starts by fetching that user, and once the
/// user is fetched an approval reads the access role, a kick kicks that user
/// and a ban bans that user without deleting messages.
pub proof fn lemma_press_acts_on_its_user(d: TriageDecision, user_id: u64)
    requires
        user_id != 0,
    ensures
        start(button_id(d, user_id)) == Ok::<(InteractionState, InteractionStepView), TriageErrorView>(
            (
                InteractionState { user_id, decision: Some(d), stage: Stage::AwaitUser },
                InteractionStepView::FetchUser { user_id },
            ),
        ),
        next(
            InteractionState { user_id, decision: Some(d), stage: Stage::AwaitUser },
            InteractionEventView::UserFetched,
        ).1 == (match d {
            TriageDecision::Approve => InteractionStepView::FetchAccessRole,
            TriageDecision::Kick => InteractionStepView::Kick { user_id },
            TriageDecision::Ban => InteractionStepView::Ban { user_id, delete_message_days: 0 },
        }),
{
    lemma_button_round_trip(d, user_id);
}

/// A decision that was carried out is always answered, for every user:
/// once a kick went through the press responds with the kick, once a ban went
/// through it responds with the ban, and once an approval gave the access
/// role and either had no remove role to take or took it, it responds with
/// the approval; each response names the press's own user and ends the press.
pub proof fn lemma_carried_out_decision_is_answered(s: InteractionState, remove_role: Option<i64>)
    ensures
        s.stage == Stage::AwaitKick ==> next(s, InteractionEventView::MemberKicked).1
            == (InteractionStepView::Respond {
            decision: TriageDecision::Kick,
            user_id: s.user_id,
        }) && next(s, InteractionEventView::MemberKicked).0.stage == Stage::Finished,
        s.stage == Stage::AwaitBan ==> next(s, InteractionEventView::UserBanned).1
            == (InteractionStepView::Respond {
            decision: TriageDecision::Ban,
            user_id: s.user_id,
        }) && next(s, InteractionEventView::UserBanned).0.stage == Stage::Finished,
        s.stage == Stage::AwaitRoleRemoved ==> next(s, InteractionEventView::RoleRemoved).1
            == (InteractionStepView::Respond {
            decision: TriageDecision::Approve,
            user_id: s.user_id,
        }) && next(s, InteractionEventView::RoleRemoved).0.stage == Stage::Finished,
        s.stage == Stage::AwaitRemoveRole ==> next(
            s,
            InteractionEventView::RemoveRoleFetched(None),
        ).1 == (InteractionStepView::Respond {
            decision: TriageDecision::Approve,
            user_id: s.user_id,
        }) && next(s, InteractionEventView::RemoveRoleFetched(None)).0.stage == Stage::Finished,
        s.stage == Stage::AwaitRemoveRole ==> (remove_role matches Some(x) ==> next(
            s,
            InteractionEventView::RemoveRoleFetched(remove_role),
        ).1 == (InteractionStepView::CheckRole { user_id: s.user_id, role_id: x as u64 })),
{
}

/// Every press starts in a consistent state, and each step keeps the user,
/// the decision and the consistency, never waits longer than before, ends
/// exactly when it asks for nothing more, and only acts as the decision
/// says: roles are given, checked and taken only on an approval, a member is
/// kicked only on a kick and banned only on a ban, always the press's own
/// user, and the response answers the press's own decision and user.
pub proof fn lemma_steps_follow_decision(s: InteractionState, e: InteractionEventView)
    requires
        consistent(s),
        answers(s.stage, e),
    ensures
        ({
            let (t, step) = next(s, e);
            &&& t.user_id == s.user_id
            &&& t.decision == s.decision
            &&& consistent(t)
            &&& remaining(t.stage) < remaining(s.stage)
            &&& (t.stage == Stage::Finished <==> is_final_step(step))
            &&& (step matches InteractionStepView::AddRole { user_id, .. } ==> s.decision == Some(
                TriageDecision::Approve,
            ) && user_id == s.user_id)
            &&& (step matches InteractionStepView::CheckRole { user_id, .. } ==> s.decision
                == Some(TriageDecision::Approve) && user_id == s.user_id)
            &&& (step matches InteractionStepView::RemoveRole { user_id, .. } ==> s.decision
                == Some(TriageDecision::Approve) && user_id == s.user_id)
            &&& (step matches InteractionStepView::Kick { user_id } ==> s.decision == Some(
                TriageDecision::Kick,
            ) && user_id == s.user_id)
            &&& (step matches InteractionStepView::Ban { user_id, .. } ==> s.decision == Some(
                TriageDecision::Ban,
            ) && user_id == s.user_id)
            &&& (step matches InteractionStepView::Respond { decision, user_id } ==> s.decision
                == Some(decision) && user_id == s.user_id)
        }),
{
}

/// A press always starts in a consistent state, waiting for the user that
/// its custom id names; a custom id that names no user ends the press at once
/// with the parsing error, before any work is done.
pub proof fn lemma_start_consistent(id: Seq<char>)
    ensures
        start(id) matches Ok((s, step)) ==> consistent(s) && s.stage == Stage::AwaitUser
            && user_id_of(id) == Ok::<u64, ParseIdError>(s.user_id) && s.decision == decision_of(
            id,
        ) && step == (InteractionStepView::FetchUser { user_id: s.user_id }),
        user_id_of(id) matches Err(e) ==> start(id) == Err::<
            (InteractionState, InteractionStepView),
            TriageErrorView,
        >(TriageErrorView::UserIdParse(e)),
{
}

/// The error for a member who lacks the remove role names the role and its
/// id: the role's name verbatim, then ` (id: `, the id, and `)`; the id reads
/// back as the role's. Decisions are recorded in the audit log with their
/// own reasons.
pub proof fn lemma_failure_and_audit_texts(name: Seq<char>, role_id: u64)
    ensures
        missing_role_text(name, role_id) == name + " (id: "@ + decimal(role_id as nat) + ")"@,
        crate::decimal::parse_u64_text(decimal(role_id as nat)) == Ok::<u64, ParseIdError>(
            role_id,
        ),
        audit_reason_text(TriageDecision::Approve) == "Approved user from triage."@,
        audit_reason_text(TriageDecision::Kick) == "User failed triage (kicked)"@,
        audit_reason_text(TriageDecision::Ban) == "User failed triage (banned)"@,
{
    crate::decimal::lemma_parse_decimal(role_id);
}


/// An approval runs in order: it fetches the user, reads the access role,
/// gives it, reads the remove role, and then answers at once when no remove
/// role is set; otherwise it checks the member for that role, takes it and
/// answers when the member holds it, and fails naming the role (or that the
/// role is unknown) when the member does not.
pub proof fn lemma_approval_run(
    user_id: u64,
    access_role: i64,
    remove_role: Option<i64>,
    held: bool,
    role_name: Option<Seq<char>>,
)
    ensures
        ({
            let s0 = InteractionState {
                user_id,
                decision: Some(TriageDecision::Approve),
                stage: Stage::AwaitUser,
            };
            let (s1, c1) = next(s0, InteractionEventView::UserFetched);
            let (s2, c2) = next(s1, InteractionEventView::AccessRoleFetched(Some(access_role)));
            let (s3, c3) = next(s2, InteractionEventView::RoleAdded);
            let (s4, c4) = next(s3, InteractionEventView::RemoveRoleFetched(remove_role));
            &&& c1 == InteractionStepView::FetchAccessRole
            &&& c2 == InteractionStepView::AddRole { user_id, role_id: access_role as u64 }
            &&& c3 == InteractionStepView::FetchRemoveRole
            &&& match remove_role {
                None => c4 == InteractionStepView::Respond {
                    decision: TriageDecision::Approve,
                    user_id,
                } && s4.stage == Stage::Finished,
                Some(x) => {
                    let r = x as u64;
                    let (s5, c5) = next(s4, InteractionEventView::RoleChecked(held));
                    &&& c4 == InteractionStepView::CheckRole { user_id, role_id: r }
                    &&& if held {
                        &&& c5 == InteractionStepView::RemoveRole { user_id, role_id: r }
                        &&& next(s5, InteractionEventView::RoleRemoved).1
                            == InteractionStepView::Respond {
                            decision: TriageDecision::Approve,
                            user_id,
                        }
                    } else {
                        &&& c5 == InteractionStepView::LookupRole { role_id: r }
                        &&& next(s5, InteractionEventView::RoleLookedUp(role_name)).1 == match role_name {
                            Some(n) => InteractionStepView::Fail(
                                TriageErrorView::UserRoleNotFound(missing_role_text(n, r)),
                            ),
                            None => InteractionStepView::Fail(TriageErrorView::RoleNotFound),
                        }
                    }
                },
            }
        }),
{
}


/// A column of the guild's row in the `triage` table.
#[derive(Debug, Clone, Copy, PartialEq, Eq, Structural)]
pub enum TriageColumn {
    AccessRoleId,
    RemoveRoleId,
}

/// The column of the guild's `triage` row that a step reads, if any.
pub open spec fn table_read(step: InteractionStepView) -> Option<TriageColumn> {
    match step {
        InteractionStepView::FetchAccessRole => Some(TriageColumn::AccessRoleId),
        InteractionStepView::FetchRemoveRole => Some(TriageColumn::RemoveRoleId),
        _ => None,
    }
}

/// A button press only ever reads the `triage` table: the user is fetched by
/// the first step only, and every later step it asks for is a read of the guild's access or
/// remove role, a call to Discord, or an end. The access role is read only
/// when an approval has its user, and the remove role only after the access
/// role was given, so each is read at most once.
pub proof fn lemma_press_only_reads_table(id: Seq<char>, s: InteractionState, e: InteractionEventView)
    ensures
        start(id) matches Ok((_, step)) ==> step is FetchUser && table_read(step) is None,
        consistent(s) && answers(s.stage, e) ==> {
            let (t, step) = next(s, e);
            &&& ({
                ||| step is FetchAccessRole
                ||| step is FetchRemoveRole
                ||| step is AddRole
                ||| step is CheckRole
                ||| step is RemoveRole
                ||| step is LookupRole
                ||| step is Kick
                ||| step is Ban
                ||| step is Respond
                ||| step is Fail
                ||| step is Finish
            })
            &&& table_read(step) is Some <==> (step is FetchAccessRole || step is FetchRemoveRole)
            &&& table_read(step) == Some(TriageColumn::AccessRoleId) ==> s.stage
                == Stage::AwaitUser && s.decision == Some(TriageDecision::Approve) && t.stage
                == Stage::AwaitAccessRole
            &&& table_read(step) == Some(TriageColumn::RemoveRoleId) ==> s.stage
                == Stage::AwaitRoleAdded && s.decision == Some(TriageDecision::Approve) && t.stage
                == Stage::AwaitRemoveRole
        },
{
}

} // verus!
