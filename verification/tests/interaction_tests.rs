use barista::buttons::TriageDecision;
use barista::decimal::ParseIdError;
use barista::interaction::{
    advance, begin_interaction, InteractionEvent as E, InteractionState, InteractionStep as S,
    Stage,
};
use barista::interaction::audit_reason;
use barista::models::TriageError;

fn run(custom_id: &str, events: Vec<E>) -> Vec<S> {
    let (mut state, first) = begin_interaction(custom_id).expect("press starts");
    let mut steps = vec![first];
    for e in events {
        let (next, step) = advance(state, e);
        state = next;
        steps.push(step);
    }
    steps
}

#[test]
fn press_starts_by_fetching_named_user() {
    let (state, step) = begin_interaction("kick_99").unwrap();
    assert_eq!(
        state,
        InteractionState { user_id: 99, decision: Some(TriageDecision::Kick), stage: Stage::AwaitUser }
    );
    assert_eq!(step, S::FetchUser { user_id: 99 });
}

#[test]
fn unreadable_user_id_fails() {
    assert_eq!(
        begin_interaction("approve_").unwrap_err(),
        TriageError::UserIdParse(ParseIdError::Empty)
    );
    assert_eq!(
        begin_interaction("ban_12x").unwrap_err(),
        TriageError::UserIdParse(ParseIdError::InvalidDigit)
    );
}

#[test]
fn kick_run() {
    let steps = run("kick_99", vec![E::UserFetched, E::MemberKicked]);
    assert_eq!(
        steps,
        vec![
            S::FetchUser { user_id: 99 },
            S::Kick { user_id: 99 },
            S::Respond { decision: TriageDecision::Kick, user_id: 99 },
        ]
    );
}

#[test]
fn ban_run() {
    let steps = run("ban_99", vec![E::UserFetched, E::UserBanned]);
    assert_eq!(
        steps,
        vec![
            S::FetchUser { user_id: 99 },
            S::Ban { user_id: 99, delete_message_days: 0 },
            S::Respond { decision: TriageDecision::Ban, user_id: 99 },
        ]
    );
}

#[test]
fn approve_run_without_remove_role() {
    let steps = run(
        "approve_99",
        vec![E::UserFetched, E::AccessRoleFetched(Some(11)), E::RoleAdded, E::RemoveRoleFetched(None)],
    );
    assert_eq!(
        steps,
        vec![
            S::FetchUser { user_id: 99 },
            S::FetchAccessRole,
            S::AddRole { user_id: 99, role_id: 11 },
            S::FetchRemoveRole,
            S::Respond { decision: TriageDecision::Approve, user_id: 99 },
        ]
    );
}

#[test]
fn approve_run_taking_remove_role() {
    let steps = run(
        "approve_99",
        vec![
            E::UserFetched,
            E::AccessRoleFetched(Some(11)),
            E::RoleAdded,
            E::RemoveRoleFetched(Some(12)),
            E::RoleChecked(true),
            E::RoleRemoved,
        ],
    );
    assert_eq!(
        &steps[4..],
        &[
            S::CheckRole { user_id: 99, role_id: 12 },
            S::RemoveRole { user_id: 99, role_id: 12 },
            S::Respond { decision: TriageDecision::Approve, user_id: 99 },
        ]
    );
}

#[test]
fn approve_run_member_lacks_remove_role() {
    let steps = run(
        "approve_99",
        vec![
            E::UserFetched,
            E::AccessRoleFetched(Some(11)),
            E::RoleAdded,
            E::RemoveRoleFetched(Some(12)),
            E::RoleChecked(false),
            E::RoleLookedUp(Some("Newbie".to_string())),
        ],
    );
    assert_eq!(steps[5], S::LookupRole { role_id: 12 });
    assert_eq!(steps[6], S::Fail(TriageError::UserRoleNotFound("Newbie (id: 12)".to_string())));
}

#[test]
fn approve_run_unknown_remove_role() {
    let steps = run(
        "approve_99",
        vec![
            E::UserFetched,
            E::AccessRoleFetched(Some(11)),
            E::RoleAdded,
            E::RemoveRoleFetched(Some(12)),
            E::RoleChecked(false),
            E::RoleLookedUp(None),
        ],
    );
    assert_eq!(steps[6], S::Fail(TriageError::RoleNotFound));
}

#[test]
fn undecided_press_finishes_after_user() {
    let (state, _) = begin_interaction("12").unwrap();
    assert_eq!(state.decision, None);
    let (after, step) = advance(state, E::UserFetched);
    assert_eq!(step, S::Finish);
    assert_eq!(after.stage, Stage::Finished);
}

#[test]
fn negative_role_column_is_reinterpreted() {
    let (s, _) = begin_interaction("approve_5").unwrap();
    let (s, _) = advance(s, E::UserFetched);
    let (_, step) = advance(s, E::AccessRoleFetched(Some(-1)));
    assert_eq!(step, S::AddRole { user_id: 5, role_id: u64::MAX });
}

#[test]
fn audit_reasons() {
    assert_eq!(audit_reason(TriageDecision::Approve), "Approved user from triage.");
    assert_eq!(audit_reason(TriageDecision::Kick), "User failed triage (kicked)");
    assert_eq!(audit_reason(TriageDecision::Ban), "User failed triage (banned)");
}
