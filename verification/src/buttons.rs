//! The custom ids of the buttons on a triage request: `approve_<user id>`,
//! `kick_<user id>` and `ban_<user id>`, and how a pressed button is read back.
use vstd::prelude::*;
use crate::decimal::{
    decimal, is_digit, all_digits, parse_u64_text, parse_u64_chars, push_decimal,
    lemma_decimal_digits, lemma_parse_decimal, ParseIdError,
};
use crate::text::{remove_all, chars_of, starts_with, remove_all_chars};

verus! {

/// What a moderator decides on a member awaiting triage.
#[derive(Debug, Clone, Copy, PartialEq, Eq, Structural)]
pub enum TriageDecision {
    /// Let the member in: give the access role (and take the remove role).
    Approve,
    /// Kick the member from the guild.
    Kick,
    /// Ban the member from the guild.
    Ban,
}

/// The prefix of the custom id of the button for decision `d`.
pub open spec fn decision_prefix(d: TriageDecision) -> Seq<char> {
    match d {
        TriageDecision::Approve => "approve_"@,
        TriageDecision::Kick => "kick_"@,
        TriageDecision::Ban => "ban_"@,
    }
}

/// The custom id of the button for decision `d` on the user `user_id`.
pub open spec fn button_id(d: TriageDecision, user_id: u64) -> Seq<char> {
    decision_prefix(d) + decimal(user_id as nat)
}

/// Whether a component's custom id is one of the triage buttons: it begins
/// with `approve_`, `kick_` or `ban_`.
pub open spec fn is_triage_id(id: Seq<char>) -> bool {
    ||| "approve_"@.is_prefix_of(id)
    ||| "kick_"@.is_prefix_of(id)
    ||| "ban_"@.is_prefix_of(id)
}

/// The decision a pressed button asks for: the first of `approve_`, `kick_`
/// and `ban_` that begins its custom id.
pub open spec fn decision_of(id: Seq<char>) -> Option<TriageDecision> {
    if "approve_"@.is_prefix_of(id) {
        Some(TriageDecision::Approve)
    } else if "kick_"@.is_prefix_of(id) {
        Some(TriageDecision::Kick)
    } else if "ban_"@.is_prefix_of(id) {
        Some(TriageDecision::Ban)
    } else {
        None
    }
}

/// The text that is left of a custom id for the user id once every
/// `approve_`, then every `kick_`, then every `ban_` is taken out of it.
pub open spec fn user_id_text(id: Seq<char>) -> Seq<char> {
    remove_all(remove_all(remove_all(id, "approve_"@), "kick_"@), "ban_"@)
}

/// The user id that a pressed button names.
pub open spec fn user_id_of(id: Seq<char>) -> Result<u64, ParseIdError> {
    parse_u64_text(user_id_text(id))
}

fn decision_prefix_text(d: TriageDecision) -> (s: &'static str)
    ensures
        s@ == decision_prefix(d),
{
    match d {
        TriageDecision::Approve => "approve_",
        TriageDecision::Kick => "kick_",
        TriageDecision::Ban => "ban_",
    }
}

/// The custom id of the button for decision `d` on the user `user_id`,
/// `format!("approve_{}", user_id)` and its kin.
pub fn button_custom_id(d: TriageDecision, user_id: u64) -> (s: String)
    ensures
        s@ == button_id(d, user_id),
{
    let mut s = String::from_str(decision_prefix_text(d));
    push_decimal(&mut s, user_id);
    s
}

/// Whether `custom_id` belongs to a triage button.
pub fn is_triage_custom_id(custom_id: &str) -> (b: bool)
    ensures
        b == is_triage_id(custom_id@),
{
    starts_with(custom_id, "approve_") || starts_with(custom_id, "kick_") || starts_with(
        custom_id,
        "ban_",
    )
}

/// The decision that the button with `custom_id` asks for, if any.
pub fn decision_of_custom_id(custom_id: &str) -> (r: Option<TriageDecision>)
    ensures
        r == decision_of(custom_id@),
{
    if starts_with(custom_id, "approve_") {
        Some(TriageDecision::Approve)
    } else if starts_with(custom_id, "kick_") {
        Some(TriageDecision::Kick)
    } else if starts_with(custom_id, "ban_") {
        Some(TriageDecision::Ban)
    } else {
        None
    }
}

/// The user id that the button with `custom_id` names, read as
/// `custom_id.replace("approve_", "").replace("kick_", "").replace("ban_", "").parse::<u64>()`.
pub fn user_id_of_custom_id(custom_id: &str) -> (r: Result<u64, ParseIdError>)
    ensures
        r == user_id_of(custom_id@),
{
    let id = chars_of(custom_id);
    let a = remove_all_chars(&id, &chars_of("approve_"));
    let k = remove_all_chars(&a, &chars_of("kick_"));
    let b = remove_all_chars(&k, &chars_of("ban_"));
    parse_u64_chars(&b)
}

proof fn lemma_remove_from_digits(s: Seq<char>, pat: Seq<char>)
    requires
        all_digits(s),
        pat.len() > 0,
        !is_digit(pat[0]),
    ensures
        remove_all(s, pat) == s,
{
    assert forall|i: int| 0 <= i < s.len() implies !pat.is_prefix_of(#[trigger] s.skip(i)) by {
        assert(s.skip(i)[0] == s[i]);
        assert(is_digit(s[i]));
        if pat.is_prefix_of(s.skip(i)) {
            assert(pat[0] == s.skip(i)[0]);
        }
    }
    crate::text::lemma_remove_nowhere_text(s, pat);
}

proof fn lemma_remove_leading(pat: Seq<char>, s: Seq<char>)
    requires
        pat.len() > 0,
    ensures
        remove_all(pat + s, pat) == remove_all(s, pat),
{
    let t = pat + s;
    assert(t.subrange(0, pat.len() as int) =~= pat);
    assert(t.skip(pat.len() as int) =~= s);
}

/// A triage button is read back as what it was made for: its custom id is
/// recognised as a triage button, asks for its decision and names its user.
pub proof fn lemma_button_round_trip(d: TriageDecision, user_id: u64)
    ensures
        is_triage_id(button_id(d, user_id)),
        decision_of(button_id(d, user_id)) == Some(d),
        user_id_of(button_id(d, user_id)) == Ok::<u64, ParseIdError>(user_id),
{
    reveal_strlit("approve_");
    reveal_strlit("kick_");
    reveal_strlit("ban_");
    let digits = decimal(user_id as nat);
    lemma_decimal_digits(user_id as nat);
    lemma_parse_decimal(user_id);
    let id = button_id(d, user_id);
    assert(id.len() > decision_prefix(d).len());
    assert(decision_prefix(d).is_prefix_of(id)) by {
        assert(id.subrange(0, decision_prefix(d).len() as int) =~= decision_prefix(d));
    }
    let pa = "approve_"@;
    let pk = "kick_"@;
    let pb = "ban_"@;
    lemma_remove_from_digits(digits, pa);
    lemma_remove_from_digits(digits, pk);
    lemma_remove_from_digits(digits, pb);
    match d {
        TriageDecision::Approve => {
            lemma_remove_leading(pa, digits);
        },
        TriageDecision::Kick => {
            assert(!pa.is_prefix_of(id)) by {
                assert(id[0] == 'k');
            }
            assert forall|i: int| 0 <= i < id.len() implies !pa.is_prefix_of(#[trigger] id.skip(i))
                by {
                assert(id.skip(i)[0] == id[i]);
                if pa.is_prefix_of(id.skip(i)) {
                    assert(pa[0] == id.skip(i)[0]);
                    if i >= 5 {
                        assert(id[i] == digits[i - 5]);
                        assert(is_digit(digits[i - 5]));
                    } else {
                        assert(id[i] == pk[i]);
                    }
                }
            }
            crate::text::lemma_remove_nowhere_text(id, pa);
            lemma_remove_leading(pk, digits);
        },
        TriageDecision::Ban => {
            assert(!pa.is_prefix_of(id)) by {
                assert(id[0] == 'b');
            }
            assert(!pk.is_prefix_of(id)) by {
                assert(id[0] == 'b');
            }
            assert forall|i: int| 0 <= i < id.len() implies !pa.is_prefix_of(#[trigger] id.skip(i))
                by {
                assert(id.skip(i)[0] == id[i]);
                if pa.is_prefix_of(id.skip(i)) {
                    assert(pa[0] == id.skip(i)[0]);
                    assert(pa[1] == id.skip(i)[1]);
                    if i >= 4 {
                        assert(id[i] == digits[i - 4]);
                        assert(is_digit(digits[i - 4]));
                    } else {
                        assert(id[i] == pb[i]);
                        if i == 1 {
                            assert(id.skip(i)[1] == id[2]);
                            assert(id[2] == pb[2]);
                        }
                    }
                }
            }
            assert forall|i: int| 0 <= i < id.len() implies !pk.is_prefix_of(#[trigger] id.skip(i))
                by {
                assert(id.skip(i)[0] == id[i]);
                if pk.is_prefix_of(id.skip(i)) {
                    assert(pk[0] == id.skip(i)[0]);
                    if i >= 4 {
                        assert(id[i] == digits[i - 4]);
                        assert(is_digit(digits[i - 4]));
                    } else {
                        assert(id[i] == pb[i]);
                    }
                }
            }
            crate::text::lemma_remove_nowhere_text(id, pa);
            crate::text::lemma_remove_nowhere_text(id, pk);
            lemma_remove_leading(pb, digits);
        },
    }
}

} // verus!
