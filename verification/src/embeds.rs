//! The embeds the bot posts: what they say, in which color, with which footer.
use vstd::prelude::*;
use crate::decimal::{
    decimal, signed_decimal, push_decimal, push_signed_decimal, parse_u64_text, ParseIdError,
    lemma_parse_decimal, lemma_signed_decimal_reads_back,
};
use crate::buttons::TriageDecision;
use crate::clock::{is_utc_millis, utc_strftime, footer_time_pattern, footer_time};

verus! {

/// The footer line of an embed and the icon beside it.
#[derive(Debug, Clone, PartialEq, Eq)]
pub struct Footer {
    pub text: String,
    pub icon_url: String,
}

/// A Discord embed as the bot fills it in.
#[derive(Debug, Clone, PartialEq, Eq)]
pub struct Embed {
    pub title: String,
    pub description: Option<String>,
    pub color: u32,
    pub footer: Option<Footer>,
}

/// An embed with its texts as sequences of characters; a footer is its text
/// and its icon URL.
pub struct EmbedView {
    pub title: Seq<char>,
    pub description: Option<Seq<char>>,
    pub color: u32,
    pub footer: Option<(Seq<char>, Seq<char>)>,
}

impl View for Embed {
    type V = EmbedView;

    open spec fn view(&self) -> EmbedView {
        EmbedView {
            title: self.title@,
            description: match self.description {
                Some(d) => Some(d@),
                None => None,
            },
            color: self.color,
            footer: match self.footer {
                Some(f) => Some((f.text@, f.icon_url@)),
                None => None,
            },
        }
    }
}

/// The color of a request awaiting triage.
pub const REQUEST_COLOR: u32 = 0x74c7ec;

/// The color of an approval.
pub const APPROVED_COLOR: u32 = 0x4BB543;

/// The color of a kick, a ban or an error.
pub const ALERT_COLOR: u32 = 0xdd2e44;

/// The color of a refused configuration change.
pub const REFUSED_COLOR: u32 = 0xc92020;

/// The color of an accepted configuration change.
pub const ACCEPTED_COLOR: u32 = 0x34eb46;

/// The lines that name a user: `**User:** <@id> `name`` and `**ID:** `id``.
pub open spec fn user_card(user_id: u64, user_name: Seq<char>) -> Seq<char> {
    "**User:** <@"@ + decimal(user_id as nat) + "> `"@ + user_name + "`\n**ID:** `"@ + decimal(
        user_id as nat,
    ) + "`"@
}

/// The description of a triage request: the user card and when the member
/// joined, as a Discord timestamp.
pub open spec fn request_description(user_id: u64, user_name: Seq<char>, joined_at: i64) -> Seq<
    char,
> {
    user_card(user_id, user_name) + "\n**Joined at:** <t:"@ + signed_decimal(joined_at as int)
        + ":f>"@
}

/// The title of the response to a decision.
pub open spec fn decision_title(d: TriageDecision) -> Seq<char> {
    match d {
        TriageDecision::Approve => "✅ User approved!"@,
        TriageDecision::Kick => "❌ User kicked!"@,
        TriageDecision::Ban => "❌ User banned!"@,
    }
}

/// The color of the response to a decision.
pub open spec fn decision_color(d: TriageDecision) -> u32 {
    match d {
        TriageDecision::Approve => APPROVED_COLOR,
        _ => ALERT_COLOR,
    }
}

/// The footer text of the response to a decision, before the time.
pub open spec fn decision_footer_lead(d: TriageDecision) -> Seq<char> {
    match d {
        TriageDecision::Approve => "User approved at: "@,
        TriageDecision::Kick => "User kicked at: "@,
        TriageDecision::Ban => "User banned at: "@,
    }
}

fn push_user_card(out: &mut String, user_id: u64, user_name: &str)
    ensures
        final(out)@ == old(out)@ + user_card(user_id, user_name@),
{
    let ghost start = out@;
    out.append("**User:** <@");
    push_decimal(out, user_id);
    out.append("> `");
    out.append(user_name);
    out.append("`\n**ID:** `");
    push_decimal(out, user_id);
    out.append("`");
    assert(out@ =~= start + user_card(user_id, user_name@));
}

/// The embed of a triage request for the member `user_id` named `user_name`,
/// who joined at `joined_at` (seconds since the Unix epoch); the footer gives
/// when the account was made and shows the member's avatar `icon_url`.
pub fn request_embed(user_id: u64, user_name: &str, joined_at: i64, icon_url: &str) -> (e: Embed)
    ensures
        e@.title == "🔔 User awaiting approval!"@,
        e@.description == Some(request_description(user_id, user_name@, joined_at)),
        e@.color == REQUEST_COLOR,
        e@.footer == Some(
            (
                "User created at: "@ + utc_strftime(
                    crate::clock::created_at_millis_spec(user_id),
                    footer_time_pattern(),
                ),
                icon_url@,
            ),
        ),
{
    let mut description = String::new();
    push_user_card(&mut description, user_id, user_name);
    description.append("\n**Joined at:** <t:");
    push_signed_decimal(&mut description, joined_at);
    description.append(":f>");
    assert(description@ =~= request_description(user_id, user_name@, joined_at));
    let created = crate::clock::created_at_millis(user_id);
    let footer_text = String::from_str("User created at: ").concat(footer_time(created).as_str());
    Embed {
        title: String::from_str("🔔 User awaiting approval!"),
        description: Some(description),
        color: REQUEST_COLOR,
        footer: Some(Footer { text: footer_text, icon_url: String::from_str(icon_url) }),
    }
}

/// The embed that replaces a triage request once the decision `d` on the
/// user `user_id` named `user_name` is carried out at `at_millis`
/// (milliseconds since the Unix epoch); the footer shows the user's avatar.
pub fn decision_embed(
    d: TriageDecision,
    user_id: u64,
    user_name: &str,
    icon_url: &str,
    at_millis: i64,
) -> (e: Embed)
    requires
        is_utc_millis(at_millis as int),
    ensures
        e@.title == decision_title(d),
        e@.description == Some(user_card(user_id, user_name@)),
        e@.color == decision_color(d),
        e@.footer == Some(
            (
                decision_footer_lead(d) + utc_strftime(at_millis, footer_time_pattern()),
                icon_url@,
            ),
        ),
{
    let mut description = String::new();
    push_user_card(&mut description, user_id, user_name);
    assert(description@ =~= user_card(user_id, user_name@));
    let (title, color, lead) = match d {
        TriageDecision::Approve => ("✅ User approved!", APPROVED_COLOR, "User approved at: "),
        TriageDecision::Kick => ("❌ User kicked!", ALERT_COLOR, "User kicked at: "),
        TriageDecision::Ban => ("❌ User banned!", ALERT_COLOR, "User banned at: "),
    };
    let footer_text = String::from_str(lead).concat(footer_time(at_millis).as_str());
    Embed {
        title: String::from_str(title),
        description: Some(description),
        color,
        footer: Some(Footer { text: footer_text, icon_url: String::from_str(icon_url) }),
    }
}

/// An answer to a command: one embed, seen by everyone or only by the caller.
#[derive(Debug, Clone, PartialEq, Eq)]
pub struct Reply {
    pub embed: Embed,
    pub ephemeral: bool,
}

/// A reply with its embed as a view.
pub struct ReplyView {
    pub embed: EmbedView,
    pub ephemeral: bool,
}

impl View for Reply {
    type V = ReplyView;

    open spec fn view(&self) -> ReplyView {
        ReplyView { embed: self.embed@, ephemeral: self.ephemeral }
    }
}

/// An embed with a title and a description and no footer.
pub fn notice_embed(title: String, description: Option<String>, color: u32) -> (e: Embed)
    ensures
        e@.title == title@,
        e@.description == (match description {
            Some(d) => Some(d@),
            None => None::<Seq<char>>,
        }),
        e@.color == color,
        e@.footer is None,
{
    Embed { title, description, color, footer: None }
}


/// The user card names the user exactly: it is the user's id, then the
/// user's name verbatim, whatever its length, then the id again; the ids
/// read back as the user's id and the name can be cut back out of the card.
pub proof fn lemma_user_card_names_user(user_id: u64, user_name: Seq<char>)
    ensures
        ({
            let id = decimal(user_id as nat);
            let card = user_card(user_id, user_name);
            let at = "**User:** <@"@.len() + id.len() + "> `"@.len();
            &&& card == "**User:** <@"@ + id + "> `"@ + user_name + "`\n**ID:** `"@ + id + "`"@
            &&& card.subrange(at as int, (at + user_name.len()) as int) == user_name
            &&& parse_u64_text(id) == Ok::<u64, ParseIdError>(user_id)
        }),
{
    let id = decimal(user_id as nat);
    let card = user_card(user_id, user_name);
    let head = "**User:** <@"@ + id + "> `"@;
    assert(card =~= head + user_name + ("`\n**ID:** `"@ + id + "`"@));
    assert(card.subrange(head.len() as int, (head.len() + user_name.len()) as int) =~= user_name);
    lemma_parse_decimal(user_id);
}

/// The description of a triage request is the user card followed by the
/// moment the member joined, as a Discord timestamp whose number is the join
/// time itself, in seconds, for every join time.
pub proof fn lemma_request_description_shows_join_time(user_id: u64, user_name: Seq<char>, joined_at: i64)
    ensures
        request_description(user_id, user_name, joined_at) == user_card(user_id, user_name)
            + "\n**Joined at:** <t:"@ + signed_decimal(joined_at as int) + ":f>"@,
        request_description(user_id, user_name, joined_at) == "**User:** <@"@ + decimal(
            user_id as nat,
        ) + "> `"@ + user_name + "`\n**ID:** `"@ + decimal(user_id as nat) + "`"@
            + "\n**Joined at:** <t:"@ + signed_decimal(joined_at as int) + ":f>"@,
        joined_at >= 0 ==> parse_u64_text(signed_decimal(joined_at as int)) == Ok::<
            u64,
            ParseIdError,
        >(joined_at as u64),
        joined_at < 0 ==> signed_decimal(joined_at as int)[0] == '-' && parse_u64_text(
            signed_decimal(joined_at as int).drop_first(),
        ) == Ok::<u64, ParseIdError>((-(joined_at as int)) as u64),
{
    lemma_user_card_names_user(user_id, user_name);
    lemma_signed_decimal_reads_back(joined_at);
}

/// The response to each decision says which decision was carried out: the
/// approval is green and says the user was approved, a kick and a ban are red
/// and say the user was kicked or banned; the three titles and footers differ.
pub proof fn lemma_decision_texts(d: TriageDecision)
    ensures
        d == TriageDecision::Approve ==> decision_title(d) == "✅ User approved!"@
            && decision_color(d) == 0x4BB543u32 && decision_footer_lead(d)
            == "User approved at: "@,
        d == TriageDecision::Kick ==> decision_title(d) == "❌ User kicked!"@ && decision_color(d)
            == 0xdd2e44u32 && decision_footer_lead(d) == "User kicked at: "@,
        d == TriageDecision::Ban ==> decision_title(d) == "❌ User banned!"@ && decision_color(d)
            == 0xdd2e44u32 && decision_footer_lead(d) == "User banned at: "@,
{
}

} // verus!
