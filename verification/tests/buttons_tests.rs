use barista::buttons::{
    button_custom_id, decision_of_custom_id, is_triage_custom_id, user_id_of_custom_id,
    TriageDecision,
};
use barista::decimal::ParseIdError;
use barista::text::{chars_of, remove_all_chars, starts_with};

#[test]
fn button_ids_have_their_prefix() {
    assert_eq!(button_custom_id(TriageDecision::Approve, 42), "approve_42");
    assert_eq!(button_custom_id(TriageDecision::Kick, 42), "kick_42");
    assert_eq!(button_custom_id(TriageDecision::Ban, 175928847299117063), "ban_175928847299117063");
}

#[test]
fn button_ids_read_back() {
    for d in [TriageDecision::Approve, TriageDecision::Kick, TriageDecision::Ban] {
        for u in [1u64, 80351110224678912, u64::MAX] {
            let id = button_custom_id(d, u);
            assert!(is_triage_custom_id(&id));
            assert_eq!(decision_of_custom_id(&id), Some(d));
            assert_eq!(user_id_of_custom_id(&id), Ok(u));
        }
    }
}

#[test]
fn other_custom_ids_are_not_triage() {
    assert!(!is_triage_custom_id(""));
    assert!(!is_triage_custom_id("approve"));
    assert!(!is_triage_custom_id("Approve_1"));
    assert!(!is_triage_custom_id("role_menu"));
    assert_eq!(decision_of_custom_id("xban_1"), None);
}

#[test]
fn first_matching_prefix_decides() {
    assert_eq!(decision_of_custom_id("approve_kick_1"), Some(TriageDecision::Approve));
    assert_eq!(decision_of_custom_id("kick_ban_1"), Some(TriageDecision::Kick));
}

#[test]
fn user_id_text_removes_every_prefix_occurrence() {
    let cases = [
        "approve_12approve_3", "kicapprove_k_5", "ban_kick_approve_9", "approve_", "kick_x",
        "ban_-4", "ban_+4", "bban__7", "approve_١",
    ];
    for c in cases {
        let expected = c.replace("approve_", "").replace("kick_", "").replace("ban_", "");
        let got = match expected.parse::<u64>() {
            Ok(v) => Ok(v),
            Err(e) => Err(match e.kind() {
                std::num::IntErrorKind::Empty => ParseIdError::Empty,
                std::num::IntErrorKind::InvalidDigit => ParseIdError::InvalidDigit,
                _ => ParseIdError::PosOverflow,
            }),
        };
        assert_eq!(user_id_of_custom_id(c), got, "case {:?}", c);
    }
}

#[test]
fn user_id_of_odd_ids() {
    assert_eq!(user_id_of_custom_id("approve_12approve_3"), Ok(123));
    assert_eq!(user_id_of_custom_id("kicapprove_k_5"), Ok(5));
    assert_eq!(user_id_of_custom_id("approve_"), Err(ParseIdError::Empty));
    assert_eq!(user_id_of_custom_id("kick_x"), Err(ParseIdError::InvalidDigit));
}

#[test]
fn remove_all_matches_str_replace() {
    let cases = [("aaaa", "aa"), ("abcabc", "bc"), ("", "x"), ("xyz", ""), ("aaa", "aa"), ("héhé", "é")];
    for (s, p) in cases {
        let got: String = remove_all_chars(&chars_of(s), &chars_of(p)).into_iter().collect();
        assert_eq!(got, s.replace(p, ""), "case {:?} {:?}", s, p);
    }
}

#[test]
fn starts_with_matches_std() {
    for (s, p) in [("approve_1", "approve_"), ("app", "approve_"), ("", ""), ("kick_", "kick_")] {
        assert_eq!(starts_with(s, p), s.starts_with(p));
    }
}
