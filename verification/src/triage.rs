//! The triage workflow: the request posted when a member joins, and what a
//! moderator's button press sets in motion.
use vstd::prelude::*;
use crate::buttons::{TriageDecision, button_id, button_custom_id};
use crate::models::{TriageConfig, TriageError, TriageErrorView};
use crate::embeds::Embed;

verus! {

/// What a member joining a guild with the row `config` leads to.
#[derive(Debug, Clone, PartialEq, Eq)]
pub enum JoinStep {
    /// Fetch the moderator channel `channel_id`; the request is posted there
    /// once it is fetched.
    FetchChannel { channel_id: u64 },
    /// Triage is off: the member is let in and nothing is posted.
    LetIn,
    /// Stop with the error; nothing is posted.
    Fail(TriageError),
}

/// A join step with its error as a view.
pub enum JoinStepView {
    FetchChannel { channel_id: u64 },
    LetIn,
    Fail(TriageErrorView),
}

impl View for JoinStep {
    type V = JoinStepView;

    open spec fn view(&self) -> JoinStepView {
        match self {
            JoinStep::FetchChannel { channel_id } => JoinStepView::FetchChannel {
                channel_id: *channel_id,
            },
            JoinStep::LetIn => JoinStepView::LetIn,
            JoinStep::Fail(e) => JoinStepView::Fail(e@),
        }
    }
}

/// How a member joining starts under the row `config`: with triage off the
/// member is let in; with triage on and no moderator channel it fails; and
/// otherwise the moderator channel is fetched.
pub open spec fn join_start(config: TriageConfig) -> JoinStepView {
    if !config.enabled {
        JoinStepView::LetIn
    } else {
        match config.mod_channel_id {
            None => JoinStepView::Fail(TriageErrorView::ChannelNotFound),
            Some(id) => JoinStepView::FetchChannel { channel_id: id as u64 },
        }
    }
}

/// The first step of a member joining a guild with the row `config`.
pub fn begin_member_join(config: &TriageConfig) -> (step: JoinStep)
    ensures
        step@ == join_start(*config),
{
    if !config.enabled {
        JoinStep::LetIn
    } else {
        match config.mod_channel_id {
            None => JoinStep::Fail(TriageError::ChannelNotFound),
            Some(id) => JoinStep::FetchChannel { channel_id: id as u64 },
        }
    }
}

/// The look of a button.
#[derive(Debug, Clone, Copy, PartialEq, Eq, Structural)]
pub enum ButtonStyle {
    Success,
    Danger,
}

/// A button under a message.
#[derive(Debug, Clone, PartialEq, Eq)]
pub struct Button {
    pub custom_id: String,
    pub label: String,
    pub style: ButtonStyle,
}

/// The buttons of a triage request, as custom id, label and style.
pub open spec fn request_buttons(user_id: u64) -> Seq<(Seq<char>, Seq<char>, ButtonStyle)> {
    seq![
        (button_id(TriageDecision::Approve, user_id), "Approve"@, ButtonStyle::Success),
        (button_id(TriageDecision::Kick, user_id), "Kick"@, ButtonStyle::Danger),
        (button_id(TriageDecision::Ban, user_id), "Ban"@, ButtonStyle::Danger),
    ]
}

/// The buttons `buttons` as custom id, label and style.
pub open spec fn buttons_view(buttons: Seq<Button>) -> Seq<(Seq<char>, Seq<char>, ButtonStyle)> {
    buttons.map_values(|b: Button| (b.custom_id@, b.label@, b.style))
}

/// The message that asks the moderators to decide on a joining member.
pub struct TriageRequest {
    /// The channel the message goes to.
    pub channel_id: u64,
    /// The message text, which pings everyone present.
    pub content: String,
    pub embed: Embed,
    pub buttons: Vec<Button>,
}

/// The request to post in channel `channel_id` for the member `user_id` named
/// `user_name`, who joined at `joined_at` (seconds since the Unix epoch) and
/// whose avatar is `icon_url`.
pub fn triage_request(
    channel_id: u64,
    user_id: u64,
    user_name: &str,
    joined_at: i64,
    icon_url: &str,
) -> (r: TriageRequest)
    ensures
        r.channel_id == channel_id,
        r.content@ == "@here"@,
        r.embed@.title == "🔔 User awaiting approval!"@,
        r.embed@.description == Some(
            crate::embeds::request_description(user_id, user_name@, joined_at),
        ),
        r.embed@.color == crate::embeds::REQUEST_COLOR,
        r.embed@.footer == Some(
            (
                "User created at: "@ + crate::clock::utc_strftime(
                    crate::clock::created_at_millis_spec(user_id),
                    crate::clock::footer_time_pattern(),
                ),
                icon_url@,
            ),
        ),
        buttons_view(r.buttons@) == request_buttons(user_id),
{
    let mut buttons: Vec<Button> = Vec::new();
    buttons.push(
        Button {
            custom_id: button_custom_id(TriageDecision::Approve, user_id),
            label: String::from_str("Approve"),
            style: ButtonStyle::Success,
        },
    );
    buttons.push(
        Button {
            custom_id: button_custom_id(TriageDecision::Kick, user_id),
            label: String::from_str("Kick"),
            style: ButtonStyle::Danger,
        },
    );
    buttons.push(
        Button {
            custom_id: button_custom_id(TriageDecision::Ban, user_id),
            label: String::from_str("Ban"),
            style: ButtonStyle::Danger,
        },
    );
    assert(buttons_view(buttons@) =~= request_buttons(user_id));
    TriageRequest {
        channel_id,
        content: String::from_str("@here"),
        embed: crate::embeds::request_embed(user_id, user_name, joined_at, icon_url),
        buttons,
    }
}


/// The buttons of a member's triage request decide on that member: pressing
/// the first approves, the second kicks and the third bans the very member
/// the request was posted for.
pub proof fn lemma_request_buttons_decide_on_member(user_id: u64)
    requires
        user_id != 0,
    ensures
        forall|i: int|
            0 <= i < 3 ==> #[trigger] crate::interaction::start(request_buttons(user_id)[i].0)
                == Ok::<
                (crate::interaction::InteractionState, crate::interaction::InteractionStepView),
                TriageErrorView,
            >(
                (
                    crate::interaction::InteractionState {
                        user_id,
                        decision: Some(
                            if i == 0 {
                                TriageDecision::Approve
                            } else if i == 1 {
                                TriageDecision::Kick
                            } else {
                                TriageDecision::Ban
                            },
                        ),
                        stage: crate::interaction::Stage::AwaitUser,
                    },
                    crate::interaction::InteractionStepView::FetchUser { user_id },
                ),
            ),
{
    crate::interaction::lemma_press_acts_on_its_user(TriageDecision::Approve, user_id);
    crate::interaction::lemma_press_acts_on_its_user(TriageDecision::Kick, user_id);
    crate::interaction::lemma_press_acts_on_its_user(TriageDecision::Ban, user_id);
}


/// Each button of a triage request is labelled with what pressing it does,
/// for every member: the request has three buttons; the one whose custom id
/// asks for an approval reads "Approve" and is green, the one that asks for a
/// kick reads "Kick", the one that asks for a ban reads "Ban", both red; and
/// every button names the member the request is for.
pub proof fn lemma_request_buttons_are_labelled(user_id: u64)
    ensures
        request_buttons(user_id).len() == 3,
        forall|i: int|
            0 <= i < 3 ==> {
                let (id, label, style) = #[trigger] request_buttons(user_id)[i];
                &&& crate::buttons::user_id_of(id) == Ok::<u64, crate::decimal::ParseIdError>(
                    user_id,
                )
                &&& (crate::buttons::decision_of(id) == Some(TriageDecision::Approve) ==> label
                    == "Approve"@ && style == ButtonStyle::Success)
                &&& (crate::buttons::decision_of(id) == Some(TriageDecision::Kick) ==> label
                    == "Kick"@ && style == ButtonStyle::Danger)
                &&& (crate::buttons::decision_of(id) == Some(TriageDecision::Ban) ==> label
                    == "Ban"@ && style == ButtonStyle::Danger)
                &&& crate::buttons::decision_of(id) is Some
            },
        crate::buttons::decision_of(request_buttons(user_id)[0].0) == Some(TriageDecision::Approve),
        crate::buttons::decision_of(request_buttons(user_id)[1].0) == Some(TriageDecision::Kick),
        crate::buttons::decision_of(request_buttons(user_id)[2].0) == Some(TriageDecision::Ban),
{
    crate::buttons::lemma_button_round_trip(TriageDecision::Approve, user_id);
    crate::buttons::lemma_button_round_trip(TriageDecision::Kick, user_id);
    crate::buttons::lemma_button_round_trip(TriageDecision::Ban, user_id);
}

/// What replaces a triage request once a decision is carried out: no text,
/// the decision's embed, and no buttons left to press.
#[derive(Debug, Clone, PartialEq, Eq)]
pub struct DecisionResponse {
    pub content: String,
    pub embed: Embed,
    pub buttons: Vec<Button>,
}

/// The update of the triage request once the decision `d` on the user
/// `user_id` named `user_name` is carried out at `at_millis` (milliseconds
/// since the Unix epoch): the message text is cleared, the buttons are
/// removed, and the embed is the decision's.
pub fn decision_response(
    d: TriageDecision,
    user_id: u64,
    user_name: &str,
    icon_url: &str,
    at_millis: i64,
) -> (r: DecisionResponse)
    requires
        crate::clock::is_utc_millis(at_millis as int),
    ensures
        r.content@ == Seq::<char>::empty(),
        r.buttons@.len() == 0,
        r.embed@.title == crate::embeds::decision_title(d),
        r.embed@.description == Some(crate::embeds::user_card(user_id, user_name@)),
        r.embed@.color == crate::embeds::decision_color(d),
        r.embed@.footer == Some(
            (
                crate::embeds::decision_footer_lead(d) + crate::clock::utc_strftime(
                    at_millis,
                    crate::clock::footer_time_pattern(),
                ),
                icon_url@,
            ),
        ),
{
    DecisionResponse {
        content: String::new(),
        embed: crate::embeds::decision_embed(d, user_id, user_name, icon_url, at_millis),
        buttons: Vec::new(),
    }
}

/// The channel a joining member's request is posted to under the row
/// `config`, when fetching the moderator channel that `begin_member_join`
/// asks for gives `fetched` (`false` when Discord refuses): the request is
/// posted, with `triage_request`, in the fetched channel.
pub open spec fn member_join_post(config: TriageConfig, fetched: bool) -> Option<u64> {
    match join_start(config) {
        JoinStepView::FetchChannel { channel_id } => if fetched {
            Some(channel_id)
        } else {
            None
        },
        _ => None,
    }
}

/// A member joining posts at most one request, and only to the moderator
/// channel of a guild with triage on and a moderator channel set, once that
/// channel is fetched; with triage off the member is let in and nothing
/// fails; with triage on and no channel the join fails with
/// `ChannelNotFound` and nothing is posted. None of these steps is a change
/// of the `triage` table: the join only reads the guild's row.
pub proof fn lemma_member_join_posts_at_most_one_request(config: TriageConfig, fetched: bool)
    ensures
        member_join_post(config, fetched) is Some <==> config.enabled
            && config.mod_channel_id is Some && fetched,
        member_join_post(config, fetched) matches Some(c) ==> c == config.mod_channel_id->0 as u64,
        join_start(config) is Fail <==> config.enabled && config.mod_channel_id is None,
        join_start(config) is Fail ==> join_start(config) == JoinStepView::Fail(
            TriageErrorView::ChannelNotFound,
        ),
        join_start(config) is LetIn <==> !config.enabled,
{
}

} // verus!
